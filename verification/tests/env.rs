use generic_analysis::config::ConfigError;
use generic_analysis::env::{environment, parse_key_value, EnvMap};
use generic_analysis::roles::Role;

fn text(s: &str) -> String {
    s.to_string()
}

#[test]
fn key_value_splits_at_the_first_separator() {
    assert_eq!(parse_key_value("a=b"), Some((text("a"), text("b"))));
    assert_eq!(parse_key_value("a=b=c"), Some((text("a"), text("b=c"))));
    assert_eq!(parse_key_value("PATH=/usr/bin:/bin"), Some((text("PATH"), text("/usr/bin:/bin"))));
}

#[test]
fn key_value_may_have_an_empty_side() {
    assert_eq!(parse_key_value("=x"), Some((text(""), text("x"))));
    assert_eq!(parse_key_value("x="), Some((text("x"), text(""))));
    assert_eq!(parse_key_value("="), Some((text(""), text(""))));
}

#[test]
fn key_value_without_separator_is_none() {
    assert_eq!(parse_key_value("novalue"), None);
    assert_eq!(parse_key_value(""), None);
}

#[test]
fn key_value_counts_characters_not_bytes() {
    assert_eq!(parse_key_value("né=ö=ü"), Some((text("né"), text("ö=ü"))));
}

#[test]
fn env_map_starts_empty() {
    let env = EnvMap::new();
    assert_eq!(env.len(), 0);
    assert_eq!(env.get("A"), None);
}

#[test]
fn env_map_insert_then_get() {
    let mut env = EnvMap::new();
    env.insert(text("A"), text("1"));
    env.insert(text("B"), text("2"));
    assert_eq!(env.len(), 2);
    assert_eq!(env.get("A"), Some(text("1")));
    assert_eq!(env.get("B"), Some(text("2")));
    assert_eq!(env.get("C"), None);
}

#[test]
fn env_map_keeps_each_key_once() {
    let mut env = EnvMap::new();
    env.insert(text("A"), text("1"));
    env.insert(text("B"), text("2"));
    env.insert(text("A"), text("3"));
    assert_eq!(env.len(), 2);
    assert_eq!(env.get("A"), Some(text("3")));
    assert_eq!(env.entries, vec![(text("A"), text("3")), (text("B"), text("2"))]);
}

#[test]
fn environment_reads_entries_in_order() {
    let entries = vec![text("A=1"), text("B=2"), text("C=x=y")];
    let env = environment(&entries).unwrap();
    assert_eq!(env.len(), 3);
    assert_eq!(env.get("A"), Some(text("1")));
    assert_eq!(env.get("B"), Some(text("2")));
    assert_eq!(env.get("C"), Some(text("x=y")));
}

#[test]
fn environment_last_duplicate_wins() {
    let entries = vec![text("A=1"), text("B=2"), text("A=9")];
    let env = environment(&entries).unwrap();
    assert_eq!(env.len(), 2);
    assert_eq!(env.get("A"), Some(text("9")));
}

#[test]
fn environment_of_nothing_is_empty() {
    let env = environment(&Vec::new()).unwrap();
    assert_eq!(env.len(), 0);
}

#[test]
fn environment_reports_the_first_bad_entry() {
    let entries = vec![text("A=1"), text("oops"), text("worse")];
    assert_eq!(environment(&entries), Err(text("oops")));
}

#[test]
fn error_messages_name_the_field() {
    assert_eq!(ConfigError::MissingField(Role::Target).message(), "expected target_exe");
    assert_eq!(ConfigError::MissingField(Role::Analyzer).message(), "expected analyzer_exe");
    assert_eq!(ConfigError::MissingField(Role::Analysis).message(), "expected analysis");
    assert_eq!(ConfigError::MissingField(Role::InputQueue).message(), "expected input_queue");
}

#[test]
fn error_messages_carry_the_cause() {
    assert_eq!(
        ConfigError::InvalidKeyValue(text("oops")).message(),
        "invalid key=value, no = found: oops"
    );
    assert_eq!(
        ConfigError::Resolution { role: Role::Analysis, cause: text("no such directory") }
            .message(),
        "unable to bind analysis: no such directory"
    );
    assert_eq!(
        ConfigError::Queue { cause: text("gone") }.message(),
        "unable to attach input_queue: gone"
    );
    assert_eq!(
        ConfigError::Observer { role: Role::Crashes }.message(),
        "unable to observe crashes: progress sink is closed"
    );
    assert_eq!(ConfigError::Unexpected.message(), "unexpected outcome");
}

#[test]
fn role_names_and_flags() {
    assert_eq!(Role::Target.name(), "target");
    assert_eq!(Role::Analyzer.name(), "analyzer");
    assert_eq!(Role::Analysis.name(), "analysis");
    assert_eq!(Role::Tools.name(), "tools");
    assert_eq!(Role::Crashes.name(), "crashes");
    assert_eq!(Role::Reports.name(), "reports");
    assert_eq!(Role::UniqueReports.name(), "unique_reports");
    assert_eq!(Role::NoRepro.name(), "no_repro");
    assert_eq!(Role::InputQueue.name(), "input_queue");
    assert_eq!(Role::Target.flag(), Some("target_exe"));
    assert_eq!(Role::Analyzer.flag(), Some("analyzer_exe"));
    assert_eq!(Role::Analysis.flag(), Some("analysis"));
    assert_eq!(Role::Tools.flag(), Some("tools"));
    assert_eq!(Role::Crashes.flag(), Some("crashes"));
    assert_eq!(Role::Reports.flag(), Some("reports_dir"));
    assert_eq!(Role::UniqueReports.flag(), Some("unique_reports_dir"));
    assert_eq!(Role::NoRepro.flag(), Some("no_repro_dir"));
    assert_eq!(Role::InputQueue.flag(), None);
}

#[test]
fn mandatory_and_directory_roles() {
    let all = [
        Role::Target,
        Role::Analyzer,
        Role::Analysis,
        Role::Tools,
        Role::Crashes,
        Role::Reports,
        Role::UniqueReports,
        Role::NoRepro,
        Role::InputQueue,
    ];
    let mandatory: Vec<Role> = all.iter().copied().filter(|r| r.mandatory()).collect();
    assert_eq!(mandatory, vec![Role::Target, Role::Analyzer, Role::Analysis]);
    let directories: Vec<Role> = all.iter().copied().filter(|r| r.directory()).collect();
    assert_eq!(
        directories,
        vec![
            Role::Analysis,
            Role::Tools,
            Role::Crashes,
            Role::Reports,
            Role::UniqueReports,
            Role::NoRepro
        ]
    );
}

#[test]
fn queue_and_crashes_exclude_each_other() {
    assert!(Role::InputQueue.excludes(Role::Crashes));
    assert!(Role::Crashes.excludes(Role::InputQueue));
    assert!(!Role::Crashes.excludes(Role::Crashes));
    assert!(!Role::InputQueue.excludes(Role::Tools));
    assert!(!Role::Analysis.excludes(Role::Crashes));
}
