//! The command-line surface of the analysis task.
//!
//! The flags are described as plain values, which is what the contracts
//! speak of; [`CommandSpec::to_clap`] hands the description to `clap`.

use vstd::prelude::*;
use crate::roles::{
    ANALYSIS_DIR,
    ANALYZER_ENV,
    ANALYZER_EXE,
    ANALYZER_OPTIONS,
    CRASHES_DIR,
    TARGET_ENV,
    TARGET_EXE,
    TARGET_OPTIONS,
    TOOLS_DIR,
};

verus! {

/// What the values of a flag are parsed as.
#[derive(Clone, Copy, Debug, PartialEq, Eq, Structural)]
pub enum ValueKind {
    Text,
    Path,
}

/// One flag. Its name is both its identifier and its long form.
#[derive(Clone, Debug, PartialEq, Eq)]
pub struct ArgSpec {
    pub name: &'static str,
    pub required: bool,
    /// The flags that must be given along with this one.
    pub needs: Vec<&'static str>,
    /// Whether the flag takes any number of values.
    pub multiple: bool,
    pub default_value: Option<&'static str>,
    pub value_delimiter: Option<char>,
    pub help: Option<&'static str>,
    pub kind: ValueKind,
}

/// A flag as a mathematical value.
pub ghost struct ArgView {
    pub name: Seq<char>,
    pub long: Option<Seq<char>>,
    pub required: bool,
    pub needs: Seq<Seq<char>>,
    pub multiple: bool,
    pub default_value: Option<Seq<char>>,
    pub value_delimiter: Option<char>,
    pub help: Option<Seq<char>>,
    pub kind: ValueKind,
}

pub open spec fn text_view(text: Option<&'static str>) -> Option<Seq<char>> {
    match text {
        Some(t) => Some(t@),
        None => None,
    }
}

impl View for ArgSpec {
    type V = ArgView;

    open spec fn view(&self) -> ArgView {
        ArgView {
            name: self.name@,
            long: Some(self.name@),
            required: self.required,
            needs: self.needs@.map_values(|id: &'static str| id@),
            multiple: self.multiple,
            default_value: text_view(self.default_value),
            value_delimiter: self.value_delimiter,
            help: text_view(self.help),
            kind: self.kind,
        }
    }
}

impl ArgView {
    /// A flag that is optional, takes one text value and asks for nothing.
    pub open spec fn plain(name: Seq<char>) -> ArgView {
        ArgView {
            name,
            long: Some(name),
            required: false,
            needs: Seq::empty(),
            multiple: false,
            default_value: None,
            value_delimiter: None,
            help: None,
            kind: ValueKind::Text,
        }
    }
}

impl ArgSpec {
    pub fn new(name: &'static str) -> (r: ArgSpec)
        ensures
            r@ == ArgView::plain(name@),
    {
        let r = ArgSpec {
            name,
            required: false,
            needs: Vec::new(),
            multiple: false,
            default_value: None,
            value_delimiter: None,
            help: None,
            kind: ValueKind::Text,
        };
        assert(r@.needs =~= Seq::empty());
        r
    }

    pub fn required(self, yes: bool) -> (r: ArgSpec)
        ensures
            r@ == (ArgView { required: yes, ..self@ }),
    {
        let mut r = self;
        r.required = yes;
        r
    }

    pub fn needs(self, id: &'static str) -> (r: ArgSpec)
        ensures
            r@ == (ArgView { needs: self@.needs.push(id@), ..self@ }),
    {
        let mut r = self;
        r.needs.push(id);
        assert(r@.needs =~= self@.needs.push(id@));
        r
    }

    pub fn multiple(self) -> (r: ArgSpec)
        ensures
            r@ == (ArgView { multiple: true, ..self@ }),
    {
        let mut r = self;
        r.multiple = true;
        r
    }

    pub fn default_value(self, value: &'static str) -> (r: ArgSpec)
        ensures
            r@ == (ArgView { default_value: Some(value@), ..self@ }),
    {
        let mut r = self;
        r.default_value = Some(value);
        r
    }

    pub fn value_delimiter(self, delimiter: char) -> (r: ArgSpec)
        ensures
            r@ == (ArgView { value_delimiter: Some(delimiter), ..self@ }),
    {
        let mut r = self;
        r.value_delimiter = Some(delimiter);
        r
    }

    pub fn help(self, text: &'static str) -> (r: ArgSpec)
        ensures
            r@ == (ArgView { help: Some(text@), ..self@ }),
    {
        let mut r = self;
        r.help = Some(text);
        r
    }

    pub fn path(self) -> (r: ArgSpec)
        ensures
            r@ == (ArgView { kind: ValueKind::Path, ..self@ }),
    {
        let mut r = self;
        r.kind = ValueKind::Path;
        r
    }
}

pub const LIST_HELP: &'static str =
    "Use a quoted string with space separation to denote multiple arguments";

pub const ABOUT: &'static str = "execute a local-only generic analysis";

/// The value that the target options have when none are given: the place
/// where the input goes.
pub const INPUT_PLACEHOLDER: &'static str = "{input}";

/// The flags of an analysis task. The analyzer and the analysis directory
/// ask for each other and for the crashes directory; `required_task` says
/// whether the two must be given. The directories are parsed as paths.
pub open spec fn shared_args_spec(required_task: bool) -> Seq<ArgView> {
    seq![
        ArgView { required: true, ..ArgView::plain(TARGET_EXE@) },
        ArgView { needs: seq![TARGET_EXE@], multiple: true, ..ArgView::plain(TARGET_ENV@) },
        ArgView {
            default_value: Some(INPUT_PLACEHOLDER@),
            value_delimiter: Some(' '),
            help: Some(LIST_HELP@),
            ..ArgView::plain(TARGET_OPTIONS@)
        },
        ArgView { kind: ValueKind::Path, ..ArgView::plain(CRASHES_DIR@) },
        ArgView {
            needs: seq![ANALYZER_EXE@],
            value_delimiter: Some(' '),
            help: Some(LIST_HELP@),
            ..ArgView::plain(ANALYZER_OPTIONS@)
        },
        ArgView { needs: seq![ANALYZER_EXE@], multiple: true, ..ArgView::plain(ANALYZER_ENV@) },
        ArgView { kind: ValueKind::Path, ..ArgView::plain(TOOLS_DIR@) },
        ArgView {
            required: required_task,
            needs: seq![ANALYSIS_DIR@, CRASHES_DIR@],
            ..ArgView::plain(ANALYZER_EXE@)
        },
        ArgView {
            required: required_task,
            needs: seq![ANALYZER_EXE@, CRASHES_DIR@],
            kind: ValueKind::Path,
            ..ArgView::plain(ANALYSIS_DIR@)
        },
    ]
}

pub open spec fn arg_views(args: Seq<ArgSpec>) -> Seq<ArgView> {
    args.map_values(|arg: ArgSpec| arg@)
}

pub fn build_shared_args(required_task: bool) -> (r: Vec<ArgSpec>)
    ensures
        arg_views(r@) == shared_args_spec(required_task),
{
    let mut args: Vec<ArgSpec> = Vec::new();
    args.push(ArgSpec::new(TARGET_EXE).required(true));
    args.push(ArgSpec::new(TARGET_ENV).needs(TARGET_EXE).multiple());
    args.push(
        ArgSpec::new(TARGET_OPTIONS).default_value(INPUT_PLACEHOLDER).value_delimiter(' ').help(
            LIST_HELP,
        ),
    );
    args.push(ArgSpec::new(CRASHES_DIR).path());
    args.push(
        ArgSpec::new(ANALYZER_OPTIONS).needs(ANALYZER_EXE).value_delimiter(' ').help(LIST_HELP),
    );
    args.push(ArgSpec::new(ANALYZER_ENV).needs(ANALYZER_EXE).multiple());
    args.push(ArgSpec::new(TOOLS_DIR).path());
    args.push(
        ArgSpec::new(ANALYZER_EXE).needs(ANALYSIS_DIR).needs(CRASHES_DIR).required(
            required_task,
        ),
    );
    args.push(
        ArgSpec::new(ANALYSIS_DIR).needs(ANALYZER_EXE).needs(CRASHES_DIR).required(
            required_task,
        ).path(),
    );
    proof {
        let views = arg_views(args@);
        let wanted = shared_args_spec(required_task);
        assert(views.len() == wanted.len());
        assert forall|i: int| 0 <= i < views.len() implies views[i] == wanted[i] by {
            assert(views[i] == args@[i]@);
            assert(args@[i]@.needs =~= wanted[i].needs);
        }
        assert(views =~= wanted);
    }
    args
}

/// A command: its name, what it is about, and its flags.
#[derive(Clone, Debug, PartialEq, Eq)]
pub struct CommandSpec {
    pub name: &'static str,
    pub about: &'static str,
    pub args: Vec<ArgSpec>,
}

/// A command as a mathematical value.
pub ghost struct CommandView {
    pub name: Seq<char>,
    pub about: Option<Seq<char>>,
    pub args: Seq<ArgView>,
}

impl View for CommandSpec {
    type V = CommandView;

    open spec fn view(&self) -> CommandView {
        CommandView { name: self.name@, about: Some(self.about@), args: arg_views(self.args@) }
    }
}

/// The command that runs a local analysis: both the analyzer and the
/// analysis directory must be given.
pub fn args(name: &'static str) -> (r: CommandSpec)
    ensures
        r.name@ == name@,
        r.about@ == ABOUT@,
        arg_views(r.args@) == shared_args_spec(true),
{
    CommandSpec { name, about: ABOUT, args: build_shared_args(true) }
}

/// `clap::Arg`, the description of a flag as `clap` holds it; opaque here.
#[verifier::external_type_specification]
#[verifier::external_body]
pub struct ExArg(clap::Arg);

/// `clap::Command`, opaque here.
#[verifier::external_type_specification]
#[verifier::external_body]
pub struct ExCommand(clap::Command);

/// What a `clap::Arg` holds of a flag, field by field as its getters give
/// it: the identifier (`get_id`), the long form (`get_long`), whether it is
/// required (`is_required_set`), the identifiers that it requires, in the
/// order in which they were added, whether its number of values was set to
/// zero or more (`get_num_args`), its default value where it has one
/// (`get_default_values`), the delimiter of its values
/// (`get_value_delimiter`), its help text (`get_help`), and whether its
/// values are parsed as paths or, by the parser that `clap` takes where none
/// is set, as text (`get_value_parser`).
pub uninterp spec fn flag_view(arg: clap::Arg) -> ArgView;

/// What a `clap::Command` holds: its name (`get_name`), what it is about
/// (`get_about`), and its flags in the order in which they were added
/// (`get_arguments`).
pub uninterp spec fn command_view(command: clap::Command) -> CommandView;

/// Calls `clap::Arg::new` and `clap::Arg::long`: a flag whose identifier
/// and long form are both `name`, and that is otherwise as `Arg::default`
/// leaves it: optional, with nothing required, no number of values, no
/// default, no delimiter, no help and no parser set.
#[verifier::external_body]
fn clap_flag(name: &'static str) -> (r: clap::Arg)
    ensures
        flag_view(r) == ArgView::plain(name@),
{
    clap::Arg::new(name).long(name)
}

/// Calls `clap::Arg::required`, which sets or clears the one setting.
#[verifier::external_body]
fn clap_required(arg: clap::Arg, yes: bool) -> (r: clap::Arg)
    ensures
        flag_view(r) == (ArgView { required: yes, ..flag_view(arg) }),
{
    arg.required(yes)
}

/// Calls `clap::Arg::requires`, which adds `id` behind the identifiers that
/// the flag requires already.
#[verifier::external_body]
fn clap_needs(arg: clap::Arg, id: &'static str) -> (r: clap::Arg)
    ensures
        flag_view(r) == (ArgView { needs: flag_view(arg).needs.push(id@), ..flag_view(arg) }),
{
    arg.requires(id)
}

/// Calls `clap::Arg::num_args` with the range from zero upwards.
#[verifier::external_body]
fn clap_multiple(arg: clap::Arg) -> (r: clap::Arg)
    ensures
        flag_view(r) == (ArgView { multiple: true, ..flag_view(arg) }),
{
    arg.num_args(0..)
}

/// Calls `clap::Arg::default_value`, which makes `value` the one default.
#[verifier::external_body]
fn clap_default_value(arg: clap::Arg, value: &'static str) -> (r: clap::Arg)
    ensures
        flag_view(r) == (ArgView { default_value: Some(value@), ..flag_view(arg) }),
{
    arg.default_value(value)
}

/// Calls `clap::Arg::value_delimiter`.
#[verifier::external_body]
fn clap_value_delimiter(arg: clap::Arg, delimiter: char) -> (r: clap::Arg)
    ensures
        flag_view(r) == (ArgView { value_delimiter: Some(delimiter), ..flag_view(arg) }),
{
    arg.value_delimiter(delimiter)
}

/// Calls `clap::Arg::help`.
#[verifier::external_body]
fn clap_help(arg: clap::Arg, text: &'static str) -> (r: clap::Arg)
    ensures
        flag_view(r) == (ArgView { help: Some(text@), ..flag_view(arg) }),
{
    arg.help(text)
}

/// Calls `clap::Arg::value_parser` with `clap::builder::ValueParser::path_buf`:
/// the values of the flag are parsed as paths.
#[verifier::external_body]
fn clap_path(arg: clap::Arg) -> (r: clap::Arg)
    ensures
        flag_view(r) == (ArgView { kind: ValueKind::Path, ..flag_view(arg) }),
{
    arg.value_parser(clap::builder::ValueParser::path_buf())
}

/// Calls `clap::Command::new` and `clap::Command::about`: a command with a
/// name and a description, and no flag yet.
#[verifier::external_body]
fn clap_command(name: &'static str, about: &'static str) -> (r: clap::Command)
    ensures
        command_view(r) == (CommandView { name: name@, about: Some(about@), args: Seq::empty() }),
{
    clap::Command::new(name).about(about)
}

/// Calls `clap::Command::arg`, which adds the flag behind those that the
/// command has already.
#[verifier::external_body]
fn clap_add(command: clap::Command, arg: clap::Arg) -> (r: clap::Command)
    ensures
        command_view(r) == (CommandView {
            args: command_view(command).args.push(flag_view(arg)),
            ..command_view(command)
        }),
{
    command.arg(arg)
}

impl ArgSpec {
    /// The flag as `clap` takes it: what the `clap::Arg` holds is what this
    /// description says, field by field.
    pub fn to_clap(&self) -> (r: clap::Arg)
        ensures
            flag_view(r) == self@,
    {
        let mut arg = clap_required(clap_flag(self.name), self.required);
        let n: usize = self.needs.len();
        let mut i: usize = 0;
        proof {
            assert(self@.needs.take(0) =~= Seq::empty());
        }
        while i < n
            invariant
                n == self.needs@.len(),
                i <= n,
                flag_view(arg) == (ArgView {
                    required: self.required,
                    needs: self@.needs.take(i as int),
                    ..ArgView::plain(self.name@)
                }),
            decreases n - i,
        {
            proof {
                assert(self@.needs.take(i + 1) =~= self@.needs.take(i as int).push(
                    self.needs@[i as int]@,
                ));
            }
            arg = clap_needs(arg, self.needs[i]);
            i += 1;
        }
        proof {
            assert(self@.needs.take(n as int) =~= self@.needs);
        }
        if self.multiple {
            arg = clap_multiple(arg);
        }
        if let Some(value) = self.default_value {
            arg = clap_default_value(arg, value);
        }
        if let Some(delimiter) = self.value_delimiter {
            arg = clap_value_delimiter(arg, delimiter);
        }
        if let Some(text) = self.help {
            arg = clap_help(arg, text);
        }
        match self.kind {
            ValueKind::Path => clap_path(arg),
            ValueKind::Text => arg,
        }
    }
}

impl CommandSpec {
    /// The command as `clap` takes it: the `clap::Command` holds the name,
    /// the description and, in their order, the flags of this description.
    pub fn to_clap(&self) -> (r: clap::Command)
        ensures
            command_view(r) == self@,
    {
        let mut command = clap_command(self.name, self.about);
        let n: usize = self.args.len();
        let mut i: usize = 0;
        proof {
            assert(self@.args.take(0) =~= Seq::empty());
        }
        while i < n
            invariant
                n == self.args@.len(),
                i <= n,
                command_view(command) == (CommandView {
                    args: self@.args.take(i as int),
                    ..self@
                }),
            decreases n - i,
        {
            proof {
                assert(self@.args.take(i + 1) =~= self@.args.take(i as int).push(
                    self.args@[i as int]@,
                ));
            }
            command = clap_add(command, self.args[i].to_clap());
            i += 1;
        }
        proof {
            assert(self@.args.take(n as int) =~= self@.args);
        }
        command
    }
}

} // verus!
