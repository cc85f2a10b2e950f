use dev_scope::analyze::{
    fix_continues, fix_outcome, fix_prompt_text, found_error_outcome, log_source, report_result, AnalyzeStatus, KnownErrorScan,
    LogSource, ReportLevel,
};
use dev_scope::models::{DoctorFix, DoctorFixPrompt, KnownError};
use dev_scope::v1alpha::{ModelMetadata, ModelMetadataAnnotations};

fn known(name: &str, pattern: &str) -> KnownError {
    KnownError {
        full_name: format!("ScopeKnownError/{}", name),
        metadata: ModelMetadata {
            name: name.to_string(),
            description: String::new(),
            annotations: ModelMetadataAnnotations {
                file_path: None,
                file_dir: None,
                working_dir: None,
                bin_path: None,
                extra: Vec::new(),
            },
            labels: Vec::new(),
        },
        pattern: pattern.to_string(),
        help_text: "help".to_string(),
        fix: None,
    }
}

#[test]
fn exit_codes_follow_status() {
    assert_eq!(0, AnalyzeStatus::NoKnownErrorsFound.to_exit_code());
    assert_eq!(1, AnalyzeStatus::KnownErrorFoundNoFixFound.to_exit_code());
    assert_eq!(2, AnalyzeStatus::KnownErrorFoundUserDenied.to_exit_code());
    assert_eq!(3, AnalyzeStatus::KnownErrorFoundFixFailed.to_exit_code());
    assert_eq!(0, AnalyzeStatus::KnownErrorFoundFixSucceeded.to_exit_code());
}

#[test]
fn report_messages() {
    assert_eq!((ReportLevel::Info, "No known errors found".to_string()), report_result(&AnalyzeStatus::NoKnownErrorsFound));
    assert_eq!((ReportLevel::Warn, "User denied fix".to_string()), report_result(&AnalyzeStatus::KnownErrorFoundUserDenied));
    assert_eq!((ReportLevel::Error, "Fix failed".to_string()), report_result(&AnalyzeStatus::KnownErrorFoundFixFailed));
}

#[test]
fn log_source_dash_is_stdin() {
    assert_eq!(LogSource::Stdin, log_source("-"));
    assert_eq!(LogSource::File("out.log".to_string()), log_source("out.log"));
}

#[test]
fn fix_outcomes() {
    assert_eq!(AnalyzeStatus::KnownErrorFoundUserDenied, fix_outcome(false, &vec![]));
    assert_eq!(AnalyzeStatus::KnownErrorFoundFixSucceeded, fix_outcome(true, &vec![Some(0), Some(0)]));
    assert_eq!(AnalyzeStatus::KnownErrorFoundFixFailed, fix_outcome(true, &vec![Some(0), Some(2)]));
    // a missing exit code counts as -1, which is below 0
    assert_eq!(AnalyzeStatus::KnownErrorFoundFixSucceeded, fix_outcome(true, &vec![None, Some(0)]));
    assert_eq!(AnalyzeStatus::KnownErrorFoundFixFailed, fix_outcome(true, &vec![None]));
}

#[test]
fn prompt_text_defaults() {
    let mut fix = DoctorFix::empty();
    assert_eq!("Would you like to run it?", fix_prompt_text(&fix));
    fix.prompt = Some(DoctorFixPrompt { text: "Run?".to_string(), extra_context: None });
    assert_eq!("Run?", fix_prompt_text(&fix));
}

#[test]
fn scan_reports_each_error_once_and_stops() {
    let errors = vec![known("a", "error"), known("b", "disk full")];
    let mut scan = KnownErrorScan::new(errors.len());
    assert_eq!(AnalyzeStatus::NoKnownErrorsFound, scan.result());

    let m = scan.matches_on_line(&errors, "all good");
    assert!(m.is_empty());
    assert!(scan.finish_line(&m, &vec![]));

    let m = scan.matches_on_line(&errors, "an error happened");
    assert_eq!(vec![0], m);
    assert!(scan.finish_line(&m, &vec![AnalyzeStatus::KnownErrorFoundNoFixFound]));
    assert_eq!(AnalyzeStatus::KnownErrorFoundNoFixFound, scan.result());

    // the first error is no longer looked for
    let m = scan.matches_on_line(&errors, "error: disk full");
    assert_eq!(vec![1], m);
    let more = scan.finish_line(&m, &vec![AnalyzeStatus::KnownErrorFoundUserDenied]);
    assert!(!more);
    assert!(scan.is_done());
    assert_eq!(AnalyzeStatus::KnownErrorFoundUserDenied, scan.result());
}

#[test]
fn found_error_without_fix_has_no_fix_status() {
    let ke = known("a", "error");
    assert_eq!(AnalyzeStatus::KnownErrorFoundNoFixFound, found_error_outcome(&ke, false, &vec![]));
    assert_eq!(AnalyzeStatus::KnownErrorFoundNoFixFound, found_error_outcome(&ke, true, &vec![Some(0)]));
    let mut with_fix = known("b", "disk full");
    with_fix.fix = Some(DoctorFix::empty());
    assert_eq!(AnalyzeStatus::KnownErrorFoundUserDenied, found_error_outcome(&with_fix, false, &vec![]));
    assert_eq!(AnalyzeStatus::KnownErrorFoundFixSucceeded, found_error_outcome(&with_fix, true, &vec![Some(0)]));
    assert_eq!(AnalyzeStatus::KnownErrorFoundFixFailed, found_error_outcome(&with_fix, true, &vec![Some(0), Some(4)]));
}

#[test]
fn fix_commands_stop_at_first_failure() {
    assert!(fix_continues(Some(0)));
    assert!(!fix_continues(Some(1)));
    assert!(!fix_continues(Some(-3)));
    assert!(!fix_continues(None));
}
