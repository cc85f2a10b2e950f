use dev_scope::analyze::{accepted_exit, errors_matching};
use dev_scope::capture::OutputCapture;
use dev_scope::file_cache::{make_absolute, DefaultGlobWalker, FileCacheData, PathState};
use dev_scope::listing::{detail_row, name_column_width, sub_command_args};
use dev_scope::models::KnownError;
use dev_scope::report::GroupReport;
use dev_scope::report_context::{display_time, DefaultGroupedReportBuilder, DefaultUnstructuredReportBuilder};
use dev_scope::v1alpha::{ModelMetadata, ModelMetadataAnnotations};

fn known(name: &str, pattern: &str) -> KnownError {
    KnownError {
        full_name: format!("ScopeKnownError/{}", name),
        metadata: ModelMetadata {
            name: name.to_string(),
            description: String::new(),
            annotations: ModelMetadataAnnotations {
                file_path: None,
                file_dir: None,
                working_dir: None,
                bin_path: None,
                extra: Vec::new(),
            },
            labels: Vec::new(),
        },
        pattern: pattern.to_string(),
        help_text: String::new(),
        fix: None,
    }
}

#[test]
fn rows_truncate_long_descriptions_and_paths() {
    let long = "x".repeat(60);
    let row = detail_row("ScopeDoctorGroup/a", &long, "/repo/.scope/a.yaml", "/repo").unwrap();
    assert_eq!(format!("{}...", "x".repeat(55)), row.description);
    assert_eq!(".scope/a.yaml", row.location);
    let row = detail_row("n", "short", "relative/path.yaml", "/abs").unwrap();
    assert_eq!("short", row.description);
}

#[test]
fn name_width_at_least_twenty_two() {
    assert_eq!(22, name_column_width(&vec![]));
    assert_eq!(22, name_column_width(&vec!["short".to_string()]));
    assert_eq!(32, name_column_width(&vec!["a".repeat(30)]));
}

#[test]
fn sub_commands_get_prefix() {
    assert_eq!(None, sub_command_args(&vec![]));
    assert_eq!(
        Some(vec!["scope-foo".to_string(), "--bar".to_string()]),
        sub_command_args(&vec!["foo".to_string(), "--bar".to_string()])
    );
}

#[test]
fn intercept_exit_and_errors() {
    assert_eq!((0, true), accepted_exit(Some(0), &vec![]));
    assert_eq!((3, true), accepted_exit(Some(3), &vec![3]));
    assert_eq!((-1, false), accepted_exit(None, &vec![3]));
    let errors = vec![known("a", "boom"), known("b", "disk"), known("c", "boom|disk")];
    assert_eq!(vec![0, 2], errors_matching(&errors, "it went boom"));
}

#[test]
fn globs_and_walker() {
    assert_eq!("/base/*.txt", make_absolute("/base", "*.txt"));
    assert_eq!("/abs/*.txt", make_absolute("/base", "/abs/*.txt"));
    let walker = DefaultGlobWalker::default();
    let mut cache = FileCacheData::new();
    let found = vec![vec![("/base/a.txt".to_string(), PathState::File(b"a".to_vec()))]];
    assert!(!walker.have_globs_changed(&cache, "g", &found));
    walker.update_cache(&mut cache, "g", &found);
    assert!(walker.have_globs_changed(&cache, "g", &found));
    let empty_glob = vec![vec![]];
    assert!(!walker.have_globs_changed(&cache, "g", &empty_glob));
}

#[test]
fn times_display_in_utc() {
    assert_eq!("2024-05-13 15:03:20 UTC", display_time(1715612600_000_000));
}

#[test]
fn grouped_builder_context() {
    let mut builder = DefaultGroupedReportBuilder::new("hello world");
    builder.append_group(&GroupReport::new("g_first"));
    builder.append_additional_data("baz", "baz", "qux");
    let ctx = builder.body_context();
    assert_eq!("hello world", ctx.command);
    assert_eq!("hello world", ctx.entrypoint);
    assert_eq!("g_first", ctx.groups[0].name);
    assert_eq!("qux", ctx.additional_data[0].output);
}

#[test]
fn unstructured_builder_context() {
    let capture = OutputCapture::new(
        "/tmp".to_string(),
        "hello world".to_string(),
        vec![(1715612600_000_000, "stdout".to_string())],
        vec![(1715612601_000_000, "stderr".to_string())],
        Some(1),
        1715612599_000_000,
        1715612602_000_000,
    );
    let mut builder = DefaultUnstructuredReportBuilder::new("hello world", capture);
    builder.append_additional_data("lines", "lines", "line 1\nline2");
    let ctx = builder.body_context();
    assert_eq!("stdout\nstderr", ctx.result.output);
    assert_eq!(1, ctx.result.exit_code);
    assert_eq!("2024-05-13 15:03:19 UTC", ctx.result.start_time);
    assert_eq!("2024-05-13 15:03:22 UTC", ctx.result.end_time);
    assert_eq!("line 1\nline2", ctx.additional_data[0].output);
}

#[test]
fn rows_count_bytes() {
    // 10 two-byte characters and 40 one-byte ones: 60 bytes, 50 characters
    let text = format!("{}{}", "é".repeat(10), "a".repeat(40));
    let row = detail_row("n", &text, "a.yaml", "/abs").unwrap();
    assert_eq!(format!("{}{}...", "é".repeat(10), "a".repeat(35)), row.description);
    // byte 55 inside a two-byte character: the row cannot be made
    let odd = format!("{}{}", "a".repeat(54), "é".repeat(5));
    assert!(detail_row("n", &odd, "a.yaml", "/abs").is_none());
    assert_eq!(22 + 10, name_column_width(&vec!["é".repeat(15)]));
}
