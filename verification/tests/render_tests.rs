use dev_scope::report::{ActionReport, ActionTaskReport, GroupReport};
use dev_scope::report_context::{DefaultGroupedReportBuilder, ReportRenderer};
use dev_scope::json::{json_int_of, json_string_of};
use dev_scope::render::{render_grouped, render_unstructured, RenderError};
use dev_scope::report_config::ReportUploadLocation;
use dev_scope::report_context::{
    GroupedBodyContext, ReportActionItemContext, ReportAdditionalDataContext,
    ReportCommandResultContext, ReportGroupItemContext, UnstructuredBodyContext,
};
use dev_scope::v1alpha::{
    ModelMetadata, ModelMetadataAnnotations, ReportDestinationLocalSpec, ReportDestinationSpec,
    ReportDestinationTemplates, ReportLocationKind, ReportLocationSpec, V1AlphaApiVersion,
    V1AlphaReportLocation,
};

fn location(title: Option<&str>, doctor: Option<&str>, analyze: Option<&str>, extra: Vec<(String, String)>) -> ReportUploadLocation {
    let loc = V1AlphaReportLocation {
        api_version: V1AlphaApiVersion::ScopeV1Alpha,
        kind: ReportLocationKind::ScopeReportLocation,
        metadata: ModelMetadata {
            name: "local".to_string(),
            description: "d".to_string(),
            annotations: ModelMetadataAnnotations {
                file_path: None,
                file_dir: None,
                working_dir: None,
                bin_path: None,
                extra: vec![],
            },
            labels: vec![],
        },
        spec: ReportLocationSpec {
            destination: ReportDestinationSpec::Local(ReportDestinationLocalSpec { directory: "/tmp/r".to_string() }),
            templates: ReportDestinationTemplates {
                title: title.map(|s| s.to_string()),
                doctor: doctor.map(|s| s.to_string()),
                analyze: analyze.map(|s| s.to_string()),
                extra_definitions: extra,
            },
            additional_data: vec![],
        },
    };
    ReportUploadLocation::try_from(loc).unwrap()
}

fn result(command: &str, code: i32, output: &str) -> ReportCommandResultContext {
    ReportCommandResultContext {
        command: command.to_string(),
        exit_code: code,
        start_time: "2024-05-13 15:03:20 UTC".to_string(),
        end_time: "2024-05-13 15:04:59 UTC".to_string(),
        output: output.to_string(),
    }
}

fn grouped() -> GroupedBodyContext {
    GroupedBodyContext {
        command: "scope doctor run".to_string(),
        entrypoint: "scope doctor run".to_string(),
        groups: vec![ReportGroupItemContext {
            name: "setup".to_string(),
            actions: vec![ReportActionItemContext {
                name: "brew".to_string(),
                check: vec![result("brew check", 1, "missing \"x\"")],
                fix: vec![result("brew fix", 0, "done")],
                verify: vec![],
            }],
            additional_data: vec![],
        }],
        additional_data: vec![ReportAdditionalDataContext {
            name: "path".to_string(),
            command: "echo $PATH".to_string(),
            output: "/bin\n/usr/bin".to_string(),
        }],
    }
}

#[test]
fn json_text_escapes_and_numbers() {
    let s: String = json_string_of("a\"b\\c\nd").into_iter().collect();
    assert_eq!("\"a\\\"b\\\\c\\u000ad\"", s);
    let n: String = json_int_of(-120).into_iter().collect();
    assert_eq!("-120", n);
    let z: String = json_int_of(0).into_iter().collect();
    assert_eq!("0", z);
}

#[test]
fn default_title_and_message_render() {
    let report = render_grouped(&grouped(), location(None, None, None, vec![])).unwrap();
    assert_eq!("Scope bug report: `scope doctor run`", report.title());
    assert!(report.body().starts_with("== Error report for scope doctor run."));
    assert!(report.body().contains("## Group setup"));
    assert!(report.body().contains("Check Command: `brew check`"));
    assert!(report.body().contains("missing \"x\""));
    assert!(report.body().contains("`/bin`<br>`/usr/bin`"));
    assert_eq!("/tmp/r", match &report.destination().destination {
        dev_scope::report_config::ReportUploadLocationDestination::Local { destination } => destination.as_str(),
        _ => "",
    });
}

#[test]
fn custom_templates_see_the_context() {
    let loc = location(
        Some("T {{ entrypoint }}"),
        Some("{{ message }}|{% for g in groups %}{{ g.name }}:{{ g.actions[0].fix[0].exitCode }}{% endfor %}"),
        Some("{{ message }}|{{ result.command }}={{ result.exitCode }}|{{ result.output }}"),
        vec![("message".to_string(), "M {{ command }}/{{ entrypoint }}".to_string())],
    );
    let report = render_grouped(&grouped(), loc.clone()).unwrap();
    assert_eq!("T scope doctor run", report.title());
    assert_eq!("M scope doctor run/scope doctor run|setup:0", report.body());
    let ctx = UnstructuredBodyContext {
        command: "make build".to_string(),
        entrypoint: "scope report".to_string(),
        result: result("make build", 2, "boom"),
        additional_data: vec![],
    };
    let report = render_unstructured(&ctx, loc).unwrap();
    assert_eq!("T scope report", report.title());
    assert_eq!("M make build/scope report|make build=2|boom", report.body());
}

#[test]
fn render_failures_name_the_template() {
    let ctx = grouped();
    assert_eq!(RenderError::Title, render_grouped(&ctx, location(Some("{{ broken"), None, None, vec![])).err().unwrap());
    assert_eq!(
        RenderError::Message,
        render_grouped(&ctx, location(None, None, None, vec![("message".to_string(), "{{ 1 | nosuchfilter }}".to_string())]))
            .err()
            .unwrap()
    );
    assert_eq!(
        RenderError::Body,
        render_grouped(&ctx, location(None, Some("{{ 1 | nosuchfilter }}"), None, vec![])).err().unwrap()
    );
}

#[test]
fn templates_share_one_environment() {
    let loc = location(
        Some("{% include \"part\" %}"),
        None,
        None,
        vec![("part".to_string(), "P {{ entrypoint }}".to_string())],
    );
    assert_eq!("P scope doctor run", render_grouped(&grouped(), loc).unwrap().title());
    // one template that does not compile spoils every render
    let broken = location(None, None, None, vec![("unused".to_string(), "{% if %}".to_string())]);
    assert_eq!(RenderError::Title, render_grouped(&grouped(), broken).err().unwrap());
}

#[test]
fn builders_render_through_the_trait() {
    let mut b = DefaultGroupedReportBuilder::new("scope doctor run");
    let mut g = GroupReport::new("setup");
    g.add_action(&ActionReport {
        action_name: "brew".to_string(),
        check: vec![ActionTaskReport {
            command: "brew check".to_string(),
            output: Some("missing".to_string()),
            exit_code: Some(1),
            start_time: 0,
            end_time: 0,
        }],
        fix: vec![],
        validate: vec![],
    });
    b.append_group(&g);
    let report = b.render(&location(None, None, None, vec![])).unwrap();
    assert_eq!("Scope bug report: `scope doctor run`", report.title());
    assert!(report.body().contains("Check Command: `brew check`"));
    let failed = b.render(&location(Some("{{ broken"), None, None, vec![]));
    assert_eq!("unable to render the report title", failed.err().unwrap());
}
