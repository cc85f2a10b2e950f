use dev_scope::report::{action_task_reports_for_display, ActionReport, ActionTaskReport, AdditionalDataReport, GroupReport};
use dev_scope::report_context::{
    ReportActionItemContext, ReportAdditionalDataContext, ReportCommandResultContext,
    ReportGroupItemContext,
};

fn task(cmd: &str, code: Option<i32>, output: Option<&str>) -> ActionTaskReport {
    ActionTaskReport {
        command: cmd.to_string(),
        output: output.map(|s| s.to_string()),
        exit_code: code,
        start_time: 1715612600,
        end_time: 1715612699,
    }
}

#[test]
fn command_context_defaults() {
    let c = ReportCommandResultContext::from(&task("x", None, None));
    assert_eq!(-1, c.exit_code);
    assert_eq!("", c.output);
    let c = ReportCommandResultContext::from(&task("y", Some(3), Some("o")));
    assert_eq!(3, c.exit_code);
    assert_eq!("o", c.output);
    assert_eq!("y", c.command);
}

#[test]
fn additional_data_context_copies() {
    let a = AdditionalDataReport { name: "baz".to_string(), command: "baz".to_string(), output: "qux".to_string() };
    let c = ReportAdditionalDataContext::from(&a);
    assert_eq!(("baz", "baz", "qux"), (c.name.as_str(), c.command.as_str(), c.output.as_str()));
}

#[test]
fn group_context_keeps_phases() {
    let mut g = GroupReport::new("g_first");
    g.add_action(&ActionReport {
        action_name: "a_first".to_string(),
        check: vec![task("action first", Some(0), Some("first line\nsecond line\n"))],
        fix: vec![],
        validate: vec![task("v", Some(0), None)],
    });
    let c = ReportGroupItemContext::from(&g);
    assert_eq!("g_first", c.name);
    assert_eq!(1, c.actions.len());
    assert_eq!("a_first", c.actions[0].name);
    assert_eq!(1, c.actions[0].check.len());
    assert_eq!(0, c.actions[0].fix.len());
    assert_eq!("v", c.actions[0].verify[0].command);
    let a = ReportActionItemContext::from(&g.action_results()[0]);
    assert_eq!(c.actions[0], a);
}

#[test]
fn display_prefers_check_then_fix() {
    let r = ActionReport {
        action_name: "a".to_string(),
        check: vec![],
        fix: vec![task("fix", Some(1), None)],
        validate: vec![task("v", Some(0), None)],
    };
    let shown = action_task_reports_for_display(&r);
    assert_eq!(1, shown.len());
    assert_eq!("fix", shown[0].command);
}

fn display_task(output: &str) -> ActionTaskReport {
    ActionTaskReport { command: String::new(), output: Some(output.to_string()), exit_code: None, start_time: 0, end_time: 0 }
}

#[test]
fn test_action_task_reports_for_display_when_check_nonempty() {
    let action_report = ActionReport {
        action_name: "test".to_string(),
        check: vec![display_task("check output")],
        fix: vec![display_task("fix output")],
        validate: vec![display_task("validate output")],
    };
    let task_reports = action_task_reports_for_display(&action_report);
    let actual = task_reports.first().unwrap();
    assert_eq!(actual.output, Some("check output".to_string()));
}

#[test]
fn test_action_task_reports_for_display_when_fix_nonempty() {
    let action_report = ActionReport {
        action_name: "test".to_string(),
        check: vec![],
        fix: vec![display_task("fix output")],
        validate: vec![display_task("validate output")],
    };
    let task_reports = action_task_reports_for_display(&action_report);
    let actual = task_reports.first().unwrap();
    assert_eq!(actual.output, Some("fix output".to_string()));
}

#[test]
fn test_action_task_reports_for_display_when_validate_nonempty() {
    let action_report = ActionReport {
        action_name: "test".to_string(),
        check: vec![],
        fix: vec![],
        validate: vec![display_task("validate output")],
    };
    let task_reports = action_task_reports_for_display(&action_report);
    let actual = task_reports.first().unwrap();
    assert_eq!(actual.output, Some("validate output".to_string()));
}
