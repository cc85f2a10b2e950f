use dev_scope::check::{
    exit_status_of, ActionEvent, ActionPlan, ActionRun, ActionRunStatus, ActionStep, CacheStatus,
};
use dev_scope::doctor_run::{desired_groups, generate_doctor_list, run_exit_code, should_group_run, should_offer_report};
use dev_scope::report::{ActionReport, ActionTaskReport, GroupReport};
use dev_scope::runner::{compute_group_order, GroupExecutionStatus, GroupRun, PathRunResult};

fn plan(check_commands: usize, fix_commands: Option<usize>) -> ActionPlan {
    ActionPlan {
        has_paths: false,
        has_check_commands: check_commands > 0,
        check_commands,
        fix_commands,
        prompt: false,
        run_fix: true,
    }
}

#[test]
fn action_check_succeeds_without_fix() {
    let mut run = ActionRun::new(plan(1, Some(1)));
    assert_eq!(ActionStep::RunCheckCommand(0), run.next(ActionEvent::Start));
    assert_eq!(
        ActionStep::Done(ActionRunStatus::CheckSucceeded),
        run.next(ActionEvent::CommandExited(Some(0)))
    );
}

#[test]
fn action_fix_then_validate() {
    let mut run = ActionRun::new(plan(1, Some(1)));
    assert_eq!(ActionStep::RunCheckCommand(0), run.next(ActionEvent::Start));
    assert_eq!(ActionStep::RunFixCommand(0), run.next(ActionEvent::CommandExited(Some(1))));
    assert_eq!(ActionStep::RunValidateCommand(0), run.next(ActionEvent::CommandExited(Some(0))));
    let last = run.next(ActionEvent::CommandExited(Some(0)));
    let last = if last == ActionStep::UpdateCaches { run.next(ActionEvent::CachesUpdated) } else { last };
    assert_eq!(ActionStep::Done(ActionRunStatus::CheckFailedFixSucceedVerifySucceed), last);
}

#[test]
fn action_without_fix_fails() {
    let mut run = ActionRun::new(plan(1, None));
    assert_eq!(ActionStep::RunCheckCommand(0), run.next(ActionEvent::Start));
    assert_eq!(
        ActionStep::Done(ActionRunStatus::CheckFailedNoFixProvided),
        run.next(ActionEvent::CommandExited(Some(1)))
    );
}

#[test]
fn action_prompt_denied() {
    let mut p = plan(1, Some(1));
    p.prompt = true;
    let mut run = ActionRun::new(p);
    assert_eq!(ActionStep::RunCheckCommand(0), run.next(ActionEvent::Start));
    assert_eq!(ActionStep::PromptUser, run.next(ActionEvent::CommandExited(Some(3))));
    assert_eq!(
        ActionStep::Done(ActionRunStatus::CheckFailedFixUserDenied),
        run.next(ActionEvent::UserAnswered(false))
    );
}

#[test]
fn exit_codes_classify() {
    assert_eq!(CacheStatus::FixNotRequired, exit_status_of(Some(0)));
    assert_eq!(CacheStatus::FixRequired, exit_status_of(Some(1)));
    assert_eq!(CacheStatus::StopExecution, exit_status_of(Some(100)));
    assert!(ActionRunStatus::CheckFailedFixFailed.is_failure());
    assert!(!ActionRunStatus::CheckFailedFixUserDenied.is_failure());
    assert!(CacheStatus::FixNotRequired.is_success());
}

#[test]
fn group_order_puts_needs_first() {
    let names = vec!["a".to_string(), "b".to_string(), "c".to_string()];
    let needs = vec![vec!["b".to_string()], vec![], vec![]];
    let order = compute_group_order(&names, &needs, &vec!["a".to_string()]);
    assert_eq!(vec!["b".to_string(), "a".to_string()], order);

    let all = generate_doctor_list(&names, &needs);
    assert_eq!(3, all.len());
    let pos = |n: &str| all.iter().position(|x| x == n).unwrap();
    assert!(pos("b") < pos("a"));
}

#[test]
fn groups_wanted_by_default_or_only() {
    assert!(should_group_run(&None, true, "x"));
    assert!(!should_group_run(&None, false, "x"));
    assert!(should_group_run(&Some(vec!["x".to_string()]), false, "x"));
    assert!(!should_group_run(&Some(vec!["y".to_string()]), true, "x"));
    let names = vec!["included".to_string(), "not-included".to_string()];
    assert_eq!(vec!["included".to_string()], desired_groups(&None, &names, &vec![true, false]));
    assert_eq!(
        vec!["not-included".to_string()],
        desired_groups(&Some(vec!["not-included".to_string()]), &names, &vec![true, false])
    );
}

#[test]
fn run_outcome_decisions() {
    assert_eq!(0, run_exit_code(true));
    assert_eq!(1, run_exit_code(false));
    assert!(should_offer_report(false, 1, 1));
    assert!(!should_offer_report(false, 0, 1));
    assert!(!should_offer_report(true, 1, 1));
    assert!(!should_offer_report(false, 1, 0));
}

fn report(name: &str) -> ActionReport {
    ActionReport {
        action_name: name.to_string(),
        check: vec![ActionTaskReport {
            command: "check".to_string(),
            output: Some("out".to_string()),
            exit_code: Some(1),
            start_time: 0,
            end_time: 1,
        }],
        fix: vec![],
        validate: vec![],
    }
}

#[test]
fn required_failure_stops_group() {
    let mut g = GroupRun::new("g");
    assert!(g.should_run_action());
    g.record_action(&report("a1"), ActionRunStatus::CheckFailedNoFixProvided, true);
    assert_eq!(GroupExecutionStatus::Failed, g.status);
    assert!(!g.should_run_action());

    let mut result = PathRunResult::new();
    result.process(&g);
    assert!(!result.did_succeed);
    assert_eq!(vec!["g".to_string()], result.failed_group);
}

#[test]
fn optional_failure_continues() {
    let mut g = GroupRun::new("g");
    g.record_action(&report("a1"), ActionRunStatus::CheckFailedNoFixProvided, false);
    assert!(g.should_run_action());
    let mut r = GroupReport::new("x");
    r.add_action(&report("a"));
    r.add_additional_details("n", "c", "v");
    assert_eq!(1, r.action_results().len());
    assert_eq!("v", r.additional_data()[0].output);
}

#[test]
fn failed_need_skips_dependent_group() {
    let mut a = GroupRun::new("A");
    a.record_action(&report("a1"), ActionRunStatus::CheckFailedFixSucceedVerifyFailed, false);
    assert_eq!(GroupExecutionStatus::Failed, a.status);
    let mut result = PathRunResult::new();
    assert!(result.should_run_group(&vec![]));
    result.process(&a);
    assert!(!result.skip_remaining);
    assert_eq!(vec!["A".to_string()], result.failed_group);
    let needs = vec!["A".to_string()];
    assert!(!result.should_run_group(&needs));
    result.skip_group("B");
    assert_eq!(vec!["B".to_string()], result.skipped_group);
    assert!(!result.should_run_group(&vec!["B".to_string()]));
    assert!(result.should_run_group(&vec!["C".to_string()]));
    assert!(!result.did_succeed);
}

#[test]
fn action_fix_succeeds_verify_fails() {
    let mut run = ActionRun::new(plan(1, Some(1)));
    assert_eq!(ActionStep::RunCheckCommand(0), run.next(ActionEvent::Start));
    assert_eq!(ActionStep::RunFixCommand(0), run.next(ActionEvent::CommandExited(Some(1))));
    assert_eq!(ActionStep::RunValidateCommand(0), run.next(ActionEvent::CommandExited(Some(0))));
    assert_eq!(
        ActionStep::Done(ActionRunStatus::CheckFailedFixSucceedVerifyFailed),
        run.next(ActionEvent::CommandExited(Some(1)))
    );
}

#[test]
fn action_verified_fix_updates_caches() {
    let mut run = ActionRun::new(plan(1, Some(1)));
    assert_eq!(ActionStep::RunCheckCommand(0), run.next(ActionEvent::Start));
    assert_eq!(ActionStep::RunFixCommand(0), run.next(ActionEvent::CommandExited(Some(1))));
    assert_eq!(ActionStep::RunValidateCommand(0), run.next(ActionEvent::CommandExited(Some(0))));
    assert_eq!(ActionStep::UpdateCaches, run.next(ActionEvent::CommandExited(Some(0))));
    assert_eq!(
        ActionStep::Done(ActionRunStatus::CheckFailedFixSucceedVerifySucceed),
        run.next(ActionEvent::CachesUpdated)
    );
}

#[test]
fn action_prompt_accepted_runs_fix() {
    let mut p = plan(1, Some(1));
    p.prompt = true;
    let mut run = ActionRun::new(p);
    assert_eq!(ActionStep::RunCheckCommand(0), run.next(ActionEvent::Start));
    assert_eq!(ActionStep::PromptUser, run.next(ActionEvent::CommandExited(Some(1))));
    assert_eq!(ActionStep::RunFixCommand(0), run.next(ActionEvent::UserAnswered(true)));
    assert_eq!(ActionStep::RunValidateCommand(0), run.next(ActionEvent::CommandExited(Some(0))));
    assert_eq!(ActionStep::UpdateCaches, run.next(ActionEvent::CommandExited(Some(0))));
    assert_eq!(
        ActionStep::Done(ActionRunStatus::CheckFailedFixSucceedVerifySucceed),
        run.next(ActionEvent::CachesUpdated)
    );
}

#[test]
fn action_file_fix_updates_caches() {
    let p = ActionPlan {
        has_paths: true,
        has_check_commands: false,
        check_commands: 0,
        fix_commands: Some(1),
        prompt: false,
        run_fix: true,
    };
    let mut run = ActionRun::new(p);
    assert_eq!(ActionStep::CheckPaths, run.next(ActionEvent::Start));
    assert_eq!(ActionStep::RunFixCommand(0), run.next(ActionEvent::PathsChecked(false)));
    assert_eq!(ActionStep::UpdateCaches, run.next(ActionEvent::CommandExited(Some(0))));
    assert_eq!(
        ActionStep::Done(ActionRunStatus::CheckFailedFixSucceedVerifySucceed),
        run.next(ActionEvent::CachesUpdated)
    );
}

#[test]
fn group_order_lists_only_what_is_needed() {
    let names = vec!["step_1".to_string(), "step_2".to_string(), "step_3".to_string()];
    let needs = vec![vec![], vec!["step_1".to_string()], vec!["step_1".to_string()]];
    let order = compute_group_order(&names, &needs, &vec!["step_3".to_string()]);
    assert_eq!(vec!["step_1".to_string(), "step_3".to_string()], order);
    let none = compute_group_order(&names, &needs, &vec![]);
    assert!(none.is_empty());
    let unknown = compute_group_order(&names, &needs, &vec!["other".to_string()]);
    assert!(unknown.is_empty());
}

fn steps() -> Vec<String> {
    vec!["step_1".to_string(), "step_2".to_string(), "step_3".to_string()]
}

#[test]
fn test_compute_group_order_with_no_dep_will_have_no_tasks() {
    let names = vec!["step_1".to_string(), "step_2".to_string()];
    let needs = vec![vec![], vec!["step_1".to_string()]];
    assert_eq!(0, compute_group_order(&names, &needs, &vec![]).len());
}

#[test]
fn test_compute_group_order_with_one_dep_will_include_dep() {
    let names = vec!["step_1".to_string(), "step_2".to_string()];
    let needs = vec![vec![], vec!["step_1".to_string()]];
    assert_eq!(vec!["step_1", "step_2"], compute_group_order(&names, &needs, &vec!["step_2".to_string()]));
}

#[test]
fn test_compute_group_order_with_reversed_definition_order() {
    let needs = vec![vec!["step_2".to_string()], vec!["step_3".to_string()], vec![]];
    assert_eq!(vec!["step_3", "step_2", "step_1"], compute_group_order(&steps(), &needs, &vec!["step_1".to_string()]));
}

#[test]
fn test_compute_group_order_with_multiple_dependencies() {
    let needs = vec![vec![], vec!["step_1".to_string()], vec!["step_1".to_string(), "step_2".to_string()]];
    assert_eq!(vec!["step_1", "step_2", "step_3"], compute_group_order(&steps(), &needs, &vec!["step_3".to_string()]));
}

#[test]
fn test_compute_group_order_with_single_shared_dependency() {
    let needs = vec![vec![], vec!["step_1".to_string()], vec!["step_1".to_string()]];
    assert_eq!(vec!["step_1", "step_3"], compute_group_order(&steps(), &needs, &vec!["step_3".to_string()]));
}

#[test]
fn test_will_include_by_default() {
    let names = vec!["included".to_string()];
    assert_eq!(vec!["included".to_string()], desired_groups(&None, &names, &vec![true]));
}

#[test]
fn test_include_will_skip() {
    let names = vec!["not-included".to_string()];
    assert!(desired_groups(&None, &names, &vec![false]).is_empty());
}
