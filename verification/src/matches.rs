//! Reading what `clap` matched.

use vstd::prelude::*;

verus! {

/// `clap::ArgMatches`, the values that a command line gave to each flag.
#[verifier::external_type_specification]
#[verifier::external_body]
pub struct ExArgMatches(clap::ArgMatches);

/// The text values that were matched, by the identifier of their flag, in
/// the order in which they were given. A flag whose values are not text, or
/// that was not matched at all, has no entry.
pub uninterp spec fn matched_text(matches: clap::ArgMatches) -> Map<Seq<char>, Seq<Seq<char>>>;

/// The path values that were matched, by the identifier of their flag, each
/// path as text.
pub uninterp spec fn matched_paths(matches: clap::ArgMatches) -> Map<Seq<char>, Seq<Seq<char>>>;

/// The values under an identifier; none where it has no entry.
pub open spec fn values_of(matched: Map<Seq<char>, Seq<Seq<char>>>, id: Seq<char>) -> Seq<
    Seq<char>,
> {
    if matched.dom().contains(id) {
        matched[id]
    } else {
        Seq::empty()
    }
}

/// The first value under an identifier.
pub open spec fn first_of(matched: Map<Seq<char>, Seq<Seq<char>>>, id: Seq<char>) -> Option<
    Seq<char>,
> {
    if values_of(matched, id).len() > 0 {
        Some(values_of(matched, id)[0])
    } else {
        None
    }
}

pub open spec fn text_views(texts: Seq<String>) -> Seq<Seq<char>> {
    texts.map_values(|text: String| text@)
}

pub open spec fn option_view(text: Option<String>) -> Option<Seq<char>> {
    match text {
        Some(t) => Some(t@),
        None => None,
    }
}

/// Calls `clap::ArgMatches::try_get_one` for a `String`: the first text
/// value of the flag `id`. An identifier that the command does not know and
/// a flag whose values are no text give `None`, as a flag without a value
/// does.
#[verifier::external_body]
pub(crate) fn lookup_text(matches: &clap::ArgMatches, id: &str) -> (r: Option<String>)
    ensures
        option_view(r) == first_of(matched_text(*matches), id@),
{
    matches.try_get_one::<String>(id).ok().flatten().cloned()
}

/// Calls `clap::ArgMatches::try_get_many` for `String`: every text value of
/// the flag `id`, in order; none where `try_get_one` would give `None`.
#[verifier::external_body]
pub(crate) fn lookup_texts(matches: &clap::ArgMatches, id: &str) -> (r: Vec<String>)
    ensures
        text_views(r@) == values_of(matched_text(*matches), id@),
{
    matches.try_get_many::<String>(id).ok().flatten().unwrap_or_default().cloned().collect()
}

/// Calls `clap::ArgMatches::try_get_one` for a `PathBuf`: the first path of
/// the flag `id`, as text; a part of the path that is no Unicode is replaced
/// as `Path::to_string_lossy` does.
#[verifier::external_body]
pub(crate) fn lookup_path(matches: &clap::ArgMatches, id: &str) -> (r: Option<String>)
    ensures
        option_view(r) == first_of(matched_paths(*matches), id@),
{
    matches.try_get_one::<std::path::PathBuf>(id).ok().flatten().map(
        |path| path.to_string_lossy().into_owned(),
    )
}

} // verus!
