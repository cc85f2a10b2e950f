use dev_scope::analyze::ReportLevel;
use dev_scope::check::ActionRunStatus;
use dev_scope::config::{build_config_path, ends_with, has_config_extension, raw_config_path, scope_bin_path, LoadedModels};
use dev_scope::models::{DoctorGroup, KnownError};
use dev_scope::outcome::{run_summary, print_pretty_lines, report_action_output, skip_from_exit, skip_plan, ActionRunResult, SkipDecision};
use dev_scope::report::ActionTaskReport;
use dev_scope::report_config::ParsedConfig;
use dev_scope::v1alpha::{ModelMetadata, ModelMetadataAnnotations, SkipSpec};

fn meta(name: &str) -> ModelMetadata {
    ModelMetadata {
        name: name.to_string(),
        description: String::new(),
        annotations: ModelMetadataAnnotations {
            file_path: None,
            file_dir: Some("/repo/.scope".to_string()),
            working_dir: Some("/repo".to_string()),
            bin_path: Some("/repo/.scope:/usr/bin".to_string()),
            extra: Vec::new(),
        },
        labels: Vec::new(),
    }
}

fn group(name: &str, skip: SkipSpec) -> DoctorGroup {
    DoctorGroup {
        full_name: format!("ScopeDoctorGroup/{}", name),
        metadata: meta(name),
        requires: Vec::new(),
        run_by_default: true,
        actions: Vec::new(),
        extra_report_args: Vec::new(),
        skip,
    }
}

#[test]
fn test_build_config_path_preserves_order() {
    let paths = build_config_path("/tmp/a/b", Some("/home/u"), Some("/home/u/.config"));
    assert_eq!(
        vec![
            "/tmp/a/b/.scope".to_string(),
            "/tmp/a/.scope".to_string(),
            "/tmp/.scope".to_string(),
            "/.scope".to_string(),
            "/home/u/.scope".to_string(),
            "/home/u/.config/.scope".to_string(),
        ],
        paths
    );
}

#[test]
fn test_build_config_path_root_directory() {
    let paths = build_config_path("/", None, None);
    assert_eq!(vec!["/.scope".to_string()], paths);
}

#[test]
fn bin_path_and_extensions() {
    assert_eq!(
        "/a/bin:/b/bin:/usr/bin",
        scope_bin_path(&vec!["/a".to_string(), "/b".to_string()], "/usr/bin")
    );
    assert!(has_config_extension("x.yaml"));
    assert!(has_config_extension("dir/x.yml"));
    assert!(!has_config_extension("x.json"));
    assert!(ends_with("abc", "bc"));
    assert_eq!("/tmp/scope/config-r1.json", raw_config_path("r1"));
}

#[test]
fn first_model_with_a_name_wins() {
    let mut loaded = LoadedModels::new();
    assert_eq!(None, loaded.add_model(ParsedConfig::DoctorGroup(group("a", SkipSpec::Skip(false)))));
    let dropped = loaded.add_model(ParsedConfig::DoctorGroup(group("a", SkipSpec::Skip(true))));
    assert_eq!(Some("ScopeDoctorGroup/a".to_string()), dropped);
    assert_eq!(1, loaded.doctor_group.len());
    assert_eq!(SkipSpec::Skip(false), loaded.doctor_group[0].skip);
    let ke = KnownError {
        full_name: "ScopeKnownError/a".to_string(),
        metadata: meta("a"),
        pattern: "x".to_string(),
        help_text: String::new(),
        fix: None,
    };
    assert_eq!(None, loaded.add_model(ParsedConfig::KnownError(ke)));
    assert_eq!(1, loaded.known_error.len());
}

#[test]
fn skip_plans() {
    assert_eq!(SkipDecision::Decided(true), skip_plan(&group("g", SkipSpec::Skip(true))));
    assert_eq!(
        SkipDecision::Run {
            command: "test -f x".to_string(),
            path: "/repo/.scope:/repo/.scope:/usr/bin".to_string()
        },
        skip_plan(&group("g", SkipSpec::Command { command: "test -f x".to_string() }))
    );
    assert!(skip_from_exit(Some(0)));
    assert!(!skip_from_exit(Some(1)));
    assert!(!skip_from_exit(None));
}

#[test]
fn action_messages_and_lines() {
    let (level, text, details, help) = report_action_output(ActionRunStatus::CheckFailedNoFixProvided);
    assert_eq!(ReportLevel::Error, level);
    assert_eq!("Check failed, no fix provided", text);
    assert!(details && help);
    let (level, _, details, help) = report_action_output(ActionRunStatus::CheckSucceeded);
    assert_eq!(ReportLevel::Info, level);
    assert!(!details && !help);
    assert_eq!(
        vec!["g/a:  first".to_string(), "g/a:  second".to_string()],
        print_pretty_lines("g", "a", "first\r\nsecond\n")
    );
    assert_eq!(Vec::<String>::new(), print_pretty_lines("g", "a", ""));
    assert_eq!(vec!["g/a:  ".to_string(), "g/a:  x".to_string()], print_pretty_lines("g", "a", "\nx"));
}

#[test]
fn action_result_fills_phases() {
    let t = ActionTaskReport { command: "c".to_string(), output: None, exit_code: Some(0), start_time: 0, end_time: 0 };
    let r = ActionRunResult::new("act", ActionRunStatus::CheckSucceeded, Some(vec![t]), None, None);
    assert_eq!("act", r.action_name);
    assert_eq!(1, r.action_report.check.len());
    assert!(r.action_report.fix.is_empty());
}

#[test]
fn summary_lists_nonzero_counts() {
    assert_eq!("3 groups succeeded", run_summary(3, 0, 0));
    assert_eq!("1 groups succeeded, 2 groups failed, 10 groups skipped", run_summary(1, 2, 10));
    assert_eq!("0 groups succeeded, 4 groups skipped", run_summary(0, 0, 4));
}
