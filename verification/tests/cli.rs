use generic_analysis::assembly::{Action, Assembly, Event, QueueSource};
use generic_analysis::cli::{ArgSpec, CommandSpec, ValueKind};
use generic_analysis::config::{CommonConfig, Config, ConfigError, QueueClient, SyncedDir};
use generic_analysis::generic::CliValues;
use generic_analysis::roles::Role;
use generic_analysis::{args, build_analysis_config, build_shared_args};
use uuid::Uuid;

fn text(s: &str) -> String {
    s.to_string()
}

fn common() -> CommonConfig {
    CommonConfig {
        job_id: Uuid::from_u128(1),
        task_id: Uuid::from_u128(2),
        instance_id: Uuid::from_u128(3),
        setup_dir: text("/setup"),
    }
}

fn dir(path: &str) -> SyncedDir {
    SyncedDir { local_path: format!("/sync{path}"), remote_path: Some(text(path)), monitored: false }
}

fn parse(line: &[&str]) -> clap::ArgMatches {
    args("analysis").to_clap().try_get_matches_from(line).unwrap()
}

/// A command with the flags of an optional task, none of them required.
fn lenient() -> clap::Command {
    let mut specs = build_shared_args(false);
    for spec in specs.iter_mut() {
        spec.required = false;
        spec.needs.clear();
    }
    CommandSpec { name: "lenient", about: "", args: specs }.to_clap()
}

fn finish(first: (Assembly, Action)) -> (Vec<String>, Action) {
    let (mut state, mut action) = first;
    let mut asked = Vec::new();
    for _ in 0..20 {
        let event = match &action {
            Action::Resolve { role, path } => {
                asked.push(format!("{} {path}", role.name()));
                Event::Bound(dir(path))
            }
            Action::Schedule(_) | Action::Abort(_) => return (asked, action),
            other => panic!("not expected of a command line: {other:?}"),
        };
        let next = state.step(event, &None);
        state = next.0;
        action = next.1;
    }
    panic!("the assembly does not end");
}

fn scheduled(action: Action) -> Config {
    match action {
        Action::Schedule(config) => config,
        other => panic!("not scheduled: {other:?}"),
    }
}

const FULL: [&str; 9] = [
    "analysis",
    "--target_exe",
    "/bin/target",
    "--analyzer_exe",
    "analyzer",
    "--analysis",
    "/analysis",
    "--crashes",
    "/crashes",
];

#[test]
fn shared_args_are_nine_flags_in_order() {
    let specs = build_shared_args(true);
    let names: Vec<&str> = specs.iter().map(|s| s.name).collect();
    assert_eq!(
        names,
        vec![
            "target_exe",
            "target_env",
            "target_options",
            "crashes",
            "analyzer_options",
            "analyzer_env",
            "tools",
            "analyzer_exe",
            "analysis"
        ]
    );
}

#[test]
fn shared_args_in_detail() {
    let help = "Use a quoted string with space separation to denote multiple arguments";
    let expected = vec![
        ArgSpec {
            name: "target_exe",
            required: true,
            needs: vec![],
            multiple: false,
            default_value: None,
            value_delimiter: None,
            help: None,
            kind: ValueKind::Text,
        },
        ArgSpec {
            name: "target_env",
            required: false,
            needs: vec!["target_exe"],
            multiple: true,
            default_value: None,
            value_delimiter: None,
            help: None,
            kind: ValueKind::Text,
        },
        ArgSpec {
            name: "target_options",
            required: false,
            needs: vec![],
            multiple: false,
            default_value: Some("{input}"),
            value_delimiter: Some(' '),
            help: Some(help),
            kind: ValueKind::Text,
        },
        ArgSpec {
            name: "crashes",
            required: false,
            needs: vec![],
            multiple: false,
            default_value: None,
            value_delimiter: None,
            help: None,
            kind: ValueKind::Path,
        },
        ArgSpec {
            name: "analyzer_options",
            required: false,
            needs: vec!["analyzer_exe"],
            multiple: false,
            default_value: None,
            value_delimiter: Some(' '),
            help: Some(help),
            kind: ValueKind::Text,
        },
        ArgSpec {
            name: "analyzer_env",
            required: false,
            needs: vec!["analyzer_exe"],
            multiple: true,
            default_value: None,
            value_delimiter: None,
            help: None,
            kind: ValueKind::Text,
        },
        ArgSpec {
            name: "tools",
            required: false,
            needs: vec![],
            multiple: false,
            default_value: None,
            value_delimiter: None,
            help: None,
            kind: ValueKind::Path,
        },
        ArgSpec {
            name: "analyzer_exe",
            required: true,
            needs: vec!["analysis", "crashes"],
            multiple: false,
            default_value: None,
            value_delimiter: None,
            help: None,
            kind: ValueKind::Text,
        },
        ArgSpec {
            name: "analysis",
            required: true,
            needs: vec!["analyzer_exe", "crashes"],
            multiple: false,
            default_value: None,
            value_delimiter: None,
            help: None,
            kind: ValueKind::Path,
        },
    ];
    assert_eq!(build_shared_args(true), expected);
}

#[test]
fn required_task_decides_analyzer_and_analysis() {
    let optional = build_shared_args(false);
    let required: Vec<bool> = optional.iter().map(|s| s.required).collect();
    assert_eq!(required, vec![true, false, false, false, false, false, false, false, false]);
    let mandatory = build_shared_args(true);
    let required: Vec<bool> = mandatory.iter().map(|s| s.required).collect();
    assert_eq!(required, vec![true, false, false, false, false, false, false, true, true]);
}

#[test]
fn args_names_the_command() {
    let command = args("generic-analysis");
    assert_eq!(command.name, "generic-analysis");
    assert_eq!(command.about, "execute a local-only generic analysis");
    assert_eq!(command.args, build_shared_args(true));
    let clap_command = command.to_clap();
    assert_eq!(clap_command.get_name(), "generic-analysis");
    assert_eq!(
        clap_command.get_about().map(|about| about.to_string()),
        Some(text("execute a local-only generic analysis"))
    );
}

#[test]
fn to_clap_hands_every_property_over() {
    let command = args("analysis").to_clap();
    let flags: Vec<String> =
        command.get_arguments().map(|a| a.get_id().as_str().to_string()).collect();
    assert_eq!(
        flags,
        vec![
            "target_exe",
            "target_env",
            "target_options",
            "crashes",
            "analyzer_options",
            "analyzer_env",
            "tools",
            "analyzer_exe",
            "analysis"
        ]
    );
    let find = |id: &str| command.get_arguments().find(|a| a.get_id().as_str() == id).unwrap();
    assert_eq!(find("target_exe").get_long(), Some("target_exe"));
    assert!(find("target_exe").is_required_set());
    assert!(!find("target_env").is_required_set());
    assert_eq!(find("target_options").get_value_delimiter(), Some(' '));
    assert_eq!(find("target_exe").get_value_delimiter(), None);
    assert_eq!(find("target_options").get_default_values().len(), 1);
    assert_eq!(find("target_options").get_default_values()[0].to_str(), Some("{input}"));
    assert!(find("analyzer_exe").get_default_values().is_empty());
    assert_eq!(
        find("analyzer_options").get_help().map(|h| h.to_string()),
        Some(text("Use a quoted string with space separation to denote multiple arguments"))
    );
    assert!(find("crashes").get_help().is_none());
}

#[test]
fn to_clap_agrees_with_the_description_flag_by_flag() {
    for required_task in [false, true] {
        let specs = build_shared_args(required_task);
        let command = CommandSpec { name: "flags", about: "all of them", args: specs.clone() };
        let clap_command = command.to_clap();
        assert_eq!(clap_command.get_name(), "flags");
        assert_eq!(clap_command.get_about().map(|a| a.to_string()), Some(text("all of them")));
        let flags: Vec<&clap::Arg> = clap_command.get_arguments().collect();
        assert_eq!(flags.len(), specs.len());
        for (flag, spec) in flags.iter().zip(specs.iter()) {
            assert_eq!(flag.get_id().as_str(), spec.name);
            assert_eq!(flag.get_long(), Some(spec.name));
            assert_eq!(flag.is_required_set(), spec.required);
            let many = flag.get_num_args() == Some(clap::builder::ValueRange::from(0..));
            assert_eq!(many, spec.multiple);
            assert_eq!(flag.get_num_args().is_some(), spec.multiple);
            let defaults: Vec<Option<&str>> =
                flag.get_default_values().iter().map(|v| v.to_str()).collect();
            match spec.default_value {
                Some(value) => assert_eq!(defaults, vec![Some(value)]),
                None => assert!(defaults.is_empty()),
            }
            assert_eq!(flag.get_value_delimiter(), spec.value_delimiter);
            assert_eq!(flag.get_help().map(|h| h.to_string()), spec.help.map(text));
            let parser = flag.get_value_parser().type_id();
            let wanted = match spec.kind {
                ValueKind::Path => clap::builder::ValueParser::path_buf().type_id(),
                ValueKind::Text => clap::builder::ValueParser::string().type_id(),
            };
            assert_eq!(parser, wanted);
        }
    }
}

#[test]
fn to_clap_of_a_single_flag() {
    let spec = ArgSpec::new("depth").needs("first").needs("second").multiple().path();
    let flag = spec.to_clap();
    assert_eq!(flag.get_id().as_str(), "depth");
    assert_eq!(flag.get_long(), Some("depth"));
    assert!(!flag.is_required_set());
    assert_eq!(flag.get_num_args(), Some(clap::builder::ValueRange::from(0..)));
    assert!(flag.get_default_values().is_empty());
    assert_eq!(flag.get_value_delimiter(), None);
    assert!(flag.get_help().is_none());
    assert_eq!(
        flag.get_value_parser().type_id(),
        clap::builder::ValueParser::path_buf().type_id()
    );
}

#[test]
fn to_clap_hands_over_what_a_flag_needs() {
    let command = CommandSpec {
        name: "needs",
        about: "",
        args: vec![ArgSpec::new("a").needs("b").needs("c"), ArgSpec::new("b"), ArgSpec::new("c")],
    }
    .to_clap();
    assert!(command.clone().try_get_matches_from(["needs", "--a", "1"]).is_err());
    assert!(command.clone().try_get_matches_from(["needs", "--a", "1", "--b", "2"]).is_err());
    assert!(command.clone().try_get_matches_from(["needs", "--a", "1", "--c", "3"]).is_err());
    assert!(command
        .clone()
        .try_get_matches_from(["needs", "--a", "1", "--b", "2", "--c", "3"])
        .is_ok());
    assert!(command.try_get_matches_from(["needs", "--b", "2"]).is_ok());
}

#[test]
fn flags_are_named_after_their_roles() {
    let matches = args("analysis")
        .to_clap()
        .try_get_matches_from([
            "analysis",
            "--target_exe",
            "t",
            "--analyzer_exe",
            "a",
            "--analysis",
            "out",
            "--tools",
            "tl",
            "--crashes",
            "cr",
        ])
        .unwrap();
    let values = CliValues::read(&matches);
    assert_eq!(values.analysis, Some(text("out")));
    assert_eq!(values.tools, Some(text("tl")));
    assert_eq!(values.crashes, Some(text("cr")));
}

#[test]
fn flags_with_a_dir_suffix_are_unknown() {
    let result = args("analysis").to_clap().try_get_matches_from([
        "analysis",
        "--target_exe",
        "t",
        "--analyzer_exe",
        "a",
        "--analysis_dir",
        "out",
        "--crashes_dir",
        "cr",
    ]);
    assert!(result.is_err());
}

#[test]
fn clap_refuses_a_line_without_target_exe() {
    let result = args("analysis").to_clap().try_get_matches_from([
        "analysis",
        "--analyzer_exe",
        "analyzer",
        "--analysis",
        "/analysis",
        "--crashes",
        "/crashes",
    ]);
    assert!(result.is_err());
}

#[test]
fn clap_wants_crashes_with_the_analyzer() {
    let result = args("analysis").to_clap().try_get_matches_from([
        "analysis",
        "--target_exe",
        "/bin/target",
        "--analyzer_exe",
        "analyzer",
        "--analysis",
        "/analysis",
    ]);
    assert!(result.is_err());
}

#[test]
fn default_target_options_is_the_input_placeholder() {
    let matches = parse(&FULL);
    let (_, action) = finish(build_analysis_config(&matches, None, common()));
    assert_eq!(scheduled(action).target_options, vec![text("{input}")]);
}

#[test]
fn target_options_are_split_at_spaces() {
    let mut line = FULL.to_vec();
    line.extend(["--target_options", "quiet {input} fast"]);
    let matches = parse(&line);
    let (_, action) = finish(build_analysis_config(&matches, None, common()));
    assert_eq!(
        scheduled(action).target_options,
        vec![text("quiet"), text("{input}"), text("fast")]
    );
}

#[test]
fn command_line_is_read_as_given() {
    let mut line = FULL.to_vec();
    line.extend([
        "--analyzer_options",
        "verbose {input}",
        "--analyzer_env",
        "A=1",
        "B=2",
        "A=3",
        "--tools",
        "/tools",
    ]);
    let matches = parse(&line);
    let values = CliValues::read(&matches);
    assert_eq!(
        values,
        CliValues {
            target_exe: Some(text("/bin/target")),
            target_options: vec![text("{input}")],
            analyzer_exe: Some(text("analyzer")),
            analyzer_options: vec![text("verbose"), text("{input}")],
            analyzer_env: vec![text("A=1"), text("B=2"), text("A=3")],
            analysis: Some(text("/analysis")),
            tools: Some(text("/tools")),
            crashes: Some(text("/crashes")),
            reports: None,
            no_repro: None,
            unique_reports: None,
        }
    );
}

#[test]
fn command_line_runs_to_a_configuration() {
    let matches = parse(&FULL);
    let (asked, action) = finish(build_analysis_config(&matches, None, common()));
    assert_eq!(asked, vec!["analysis /analysis", "crashes /crashes"]);
    let config = scheduled(action);
    assert_eq!(config.target_exe, "/bin/target");
    assert_eq!(config.analyzer_exe, "analyzer");
    assert_eq!(config.analyzer_options, Vec::<String>::new());
    assert_eq!(config.analyzer_env.len(), 0);
    assert_eq!(config.analysis, dir("/analysis"));
    assert_eq!(config.crashes, Some(dir("/crashes")));
    assert_eq!(config.tools, None);
    assert_eq!(config.reports, None);
    assert_eq!(config.unique_reports, None);
    assert_eq!(config.no_repro, None);
    assert_eq!(config.common, common());
}

#[test]
fn command_line_with_queue_has_no_crashes() {
    let matches = parse(&FULL);
    let queue = QueueClient { locator: text("/q") };
    let (asked, action) = finish(build_analysis_config(&matches, Some(queue.clone()), common()));
    assert_eq!(asked, vec!["analysis /analysis"]);
    let config = scheduled(action);
    assert_eq!(config.input_queue, Some(queue));
    assert_eq!(config.crashes, None);
}

#[test]
fn text_flag_is_no_path() {
    // A directory given under a flag that is parsed as text is not read.
    let mut specs = build_shared_args(false);
    for spec in specs.iter_mut() {
        spec.kind = ValueKind::Text;
    }
    let command = CommandSpec { name: "texts", about: "", args: specs }.to_clap();
    let matches = command.try_get_matches_from(FULL).unwrap();
    let (state, action) = build_analysis_config(&matches, None, common());
    assert_eq!(state, Assembly::Failed);
    assert_eq!(action, Action::Abort(ConfigError::MissingField(Role::Analysis)));
}

#[test]
fn builder_refuses_matches_without_target_exe() {
    let matches = lenient()
        .try_get_matches_from(["lenient", "--analyzer_exe", "analyzer", "--crashes", "/c"])
        .unwrap();
    let (state, action) = build_analysis_config(&matches, None, common());
    assert_eq!(state, Assembly::Failed);
    assert_eq!(action, Action::Abort(ConfigError::MissingField(Role::Target)));
    match action {
        Action::Abort(error) => assert_eq!(error.message(), "expected target_exe"),
        _ => unreachable!(),
    }
}

#[test]
fn builder_refuses_matches_without_analyzer_exe() {
    let matches = lenient().try_get_matches_from(["lenient", "--target_exe", "/bin/t"]).unwrap();
    let (state, action) = build_analysis_config(&matches, None, common());
    assert_eq!(state, Assembly::Failed);
    match action {
        Action::Abort(error) => {
            assert_eq!(error, ConfigError::MissingField(Role::Analyzer));
            assert_eq!(error.message(), "expected analyzer_exe");
        }
        other => panic!("not aborted: {other:?}"),
    }
}

#[test]
fn builder_refuses_a_bad_environment_entry() {
    let matches = lenient()
        .try_get_matches_from([
            "lenient",
            "--target_exe",
            "/bin/t",
            "--analyzer_exe",
            "analyzer",
            "--analyzer_env",
            "A=1",
            "oops",
        ])
        .unwrap();
    let (state, action) = build_analysis_config(&matches, None, common());
    assert_eq!(state, Assembly::Failed);
    assert_eq!(action, Action::Abort(ConfigError::InvalidKeyValue(text("oops"))));
}

fn values() -> CliValues {
    CliValues {
        target_exe: Some(text("/bin/target")),
        target_options: vec![text("{input}")],
        analyzer_exe: Some(text("analyzer")),
        analyzer_options: vec![text("-v")],
        analyzer_env: vec![text("A=1"), text("B=2"), text("A=3")],
        analysis: Some(text("/analysis")),
        tools: Some(text("/tools")),
        crashes: Some(text("/crashes")),
        reports: None,
        no_repro: None,
        unique_reports: None,
    }
}

#[test]
fn values_make_a_plan() {
    let plan = values().plan(None).unwrap();
    assert_eq!(plan.target_exe, "/bin/target");
    assert_eq!(plan.analyzer_exe, "analyzer");
    assert_eq!(plan.analyzer_options, vec![text("-v")]);
    assert_eq!(plan.target_options, vec![text("{input}")]);
    assert_eq!(plan.analyzer_env.len(), 2);
    assert_eq!(plan.analyzer_env.get("A"), Some(text("3")));
    assert_eq!(plan.analyzer_env.get("B"), Some(text("2")));
    assert_eq!(plan.input_queue, QueueSource::Absent);
    assert_eq!(plan.analysis, Some(text("/analysis")));
    assert_eq!(plan.crashes, Some(text("/crashes")));
    assert_eq!(plan.reports, None);
}

#[test]
fn values_with_queue_make_a_plan_with_supplied_queue() {
    let queue = QueueClient { locator: text("/q") };
    let plan = values().plan(Some(queue.clone())).unwrap();
    assert_eq!(plan.input_queue, QueueSource::Supplied(queue));
}

#[test]
fn refusals_come_in_order() {
    let mut v = values();
    v.target_exe = None;
    v.analyzer_exe = None;
    v.analyzer_env = vec![text("bad")];
    assert_eq!(v.clone().plan(None), Err(ConfigError::MissingField(Role::Target)));
    v.target_exe = Some(text("/bin/t"));
    assert_eq!(v.clone().plan(None), Err(ConfigError::MissingField(Role::Analyzer)));
    v.analyzer_exe = Some(text("a"));
    assert_eq!(v.plan(None), Err(ConfigError::InvalidKeyValue(text("bad"))));
}

#[test]
fn values_run_to_a_configuration() {
    let (asked, action) = finish(values().begin(None, common()));
    assert_eq!(asked, vec!["analysis /analysis", "tools /tools", "crashes /crashes"]);
    let config = scheduled(action);
    assert_eq!(config.common, common());
    assert_eq!(config.analysis, dir("/analysis"));
    assert_eq!(config.tools, Some(dir("/tools")));
    assert_eq!(config.crashes, Some(dir("/crashes")));
    assert_eq!(config.reports, None);
    assert_eq!(config.input_queue, None);
}

#[test]
fn values_with_queue_never_bind_crashes() {
    let queue = QueueClient { locator: text("/q") };
    let (asked, action) = finish(values().begin(Some(queue.clone()), common()));
    assert_eq!(asked, vec!["analysis /analysis", "tools /tools"]);
    let config = scheduled(action);
    assert_eq!(config.input_queue, Some(queue));
    assert_eq!(config.crashes, None);
}

#[test]
fn paths_come_from_path_flags() {
    let matches = lenient()
        .try_get_matches_from([
            "lenient",
            "--target_exe",
            "/bin/t",
            "--analyzer_exe",
            "analyzer",
            "--crashes",
            "/var/crashes",
            "--tools",
            "rel/tools",
        ])
        .unwrap();
    let values = CliValues::read(&matches);
    assert_eq!(values.crashes, Some(text("/var/crashes")));
    assert_eq!(values.tools, Some(text("rel/tools")));
    assert_eq!(values.target_exe, Some(text("/bin/t")));
    assert_eq!(values.reports, None);
    assert_eq!(values.analyzer_env, Vec::<String>::new());
}
