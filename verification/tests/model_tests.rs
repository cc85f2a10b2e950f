use dev_scope::command::DoctorCommands;
use dev_scope::models::{
    convert_to_string, decimal_text, parse_action, trim_text, DoctorFix, DoctorFixPrompt,
    DoctorGroup, DoctorGroupAction, DoctorGroupActionCheck, DoctorGroupCachePath, KnownError,
    ModelError,
};
use dev_scope::report_config::{
    ParsedConfig, ReportDefinition, ReportTemplates, ReportUploadLocation,
    ReportUploadLocationDestination,
};
use dev_scope::v1alpha::{
    doctor_group_action_required_default, DoctorCheckSpec, DoctorFixPromptSpec, DoctorFixSpec,
    DoctorGroupActionSpec, DoctorGroupKind, DoctorGroupSpec, DoctorInclude, KnownErrorKind,
    KnownErrorSpec, ModelMetadata, ModelMetadataAnnotations, ReportDefinitionKind,
    ReportDefinitionSpec, ReportDestinationGithubIssueSpec, ReportDestinationSpec,
    ReportDestinationTemplates, ReportLocationKind, ReportLocationSpec, SkipSpec,
    V1AlphaApiVersion, V1AlphaDoctorGroup, V1AlphaKnownError, V1AlphaReportDefinition,
    V1AlphaReportLocation,
};

fn metadata(name: &str, file_dir: &str, working_dir: &str) -> ModelMetadata {
    ModelMetadata {
        name: name.to_string(),
        description: "some description".to_string(),
        annotations: ModelMetadataAnnotations {
            file_path: Some(format!("{}/file.yaml", file_dir)),
            file_dir: Some(file_dir.to_string()),
            working_dir: Some(working_dir.to_string()),
            bin_path: None,
            extra: Vec::new(),
        },
        labels: Vec::new(),
    }
}

fn group_model(actions: Vec<DoctorGroupActionSpec>) -> V1AlphaDoctorGroup {
    V1AlphaDoctorGroup {
        api_version: V1AlphaApiVersion::ScopeV1Alpha,
        kind: DoctorGroupKind::ScopeDoctorGroup,
        metadata: metadata("foo", "/foo/bar/.scope", "/foo/bar"),
        spec: DoctorGroupSpec {
            needs: vec!["bar".to_string()],
            actions,
            inclusion: DoctorInclude::ByDefault,
            report_extra_details: Vec::new(),
            skip: SkipSpec::Skip(false),
        },
    }
}

#[test]
fn prompt_from_spec() {
    let spec = DoctorFixPromptSpec {
        text: "do you want to do the thing?".to_string(),
        extra_context: None,
    };

    let actual = DoctorFixPrompt::from(spec);

    assert_eq!(
        DoctorFixPrompt {
            text: "do you want to do the thing?".to_string(),
            extra_context: None
        },
        actual
    )
}

#[test]
fn action_required_by_default() {
    assert!(doctor_group_action_required_default());
}

#[test]
fn parse_group_actions_like_configuration() {
    let actions = vec![
        DoctorGroupActionSpec {
            name: None,
            description: Some("foo1".to_string()),
            check: DoctorCheckSpec {
                paths: Some(vec!["flig/bar/**/*".to_string()]),
                commands: Some(vec!["./foo1.sh".to_string()]),
            },
            fix: Some(DoctorFixSpec {
                commands: vec!["./fix1.sh".to_string()],
                help_text: Some("There is a good way to fix this, maybe...".to_string()),
                help_url: Some("https://go.example.com/fixit".to_string()),
                prompt: None,
            }),
            required: false,
        },
        DoctorGroupActionSpec {
            name: None,
            description: Some("foo2".to_string()),
            check: DoctorCheckSpec {
                paths: Some(vec!["*/*.txt".to_string()]),
                commands: Some(vec!["sleep infinity".to_string()]),
            },
            fix: None,
            required: true,
        },
    ];
    let dg = DoctorGroup::try_from(group_model(actions)).unwrap();
    assert_eq!("foo", dg.metadata.name);
    assert_eq!("ScopeDoctorGroup/foo", dg.full_name);
    assert_eq!(vec!["bar"], dg.requires);
    assert!(dg.run_by_default);

    assert_eq!(
        dg.actions[0],
        DoctorGroupAction {
            name: "1".to_string(),
            required: false,
            description: "foo1".to_string(),
            fix: DoctorFix {
                command: Some(DoctorCommands::from(vec!["/foo/bar/.scope/fix1.sh"])),
                prompt: None,
                help_text: Some("There is a good way to fix this, maybe...".to_string()),
                help_url: Some("https://go.example.com/fixit".to_string()),
            },
            check: DoctorGroupActionCheck {
                command: Some(DoctorCommands::from(vec!["/foo/bar/.scope/foo1.sh"])),
                files: Some(DoctorGroupCachePath::from(("/foo/bar", vec!["flig/bar/**/*"]))),
            },
        }
    );
    assert_eq!(
        dg.actions[1],
        DoctorGroupAction {
            name: "2".to_string(),
            required: true,
            description: "foo2".to_string(),
            fix: DoctorFix::empty(),
            check: DoctorGroupActionCheck {
                command: Some(DoctorCommands::from(vec!["sleep infinity"])),
                files: Some(DoctorGroupCachePath::from(("/foo/bar", vec!["*/*.txt"]))),
            },
        }
    );
}

#[test]
fn parse_action_defaults_name_and_description() {
    let action = DoctorGroupActionSpec {
        name: None,
        description: None,
        check: DoctorCheckSpec { paths: None, commands: None },
        fix: None,
        required: true,
    };
    let model = group_model(vec![]);
    let parsed = parse_action(11, &model, &action).unwrap();
    assert_eq!("12", parsed.name);
    assert_eq!("default", parsed.description);
    assert_eq!(None, parsed.check.command);
    assert_eq!(None, parsed.check.files);
}

#[test]
fn parse_action_renders_path_templates() {
    let action = DoctorGroupActionSpec {
        name: Some("named".to_string()),
        description: None,
        check: DoctorCheckSpec {
            paths: Some(vec!["{{ working_dir }}/a.txt".to_string()]),
            commands: None,
        },
        fix: None,
        required: true,
    };
    let parsed = parse_action(0, &group_model(vec![]), &action).unwrap();
    assert_eq!("named", parsed.name);
    assert_eq!(
        Some(DoctorGroupCachePath::from(("/foo/bar", vec!["/foo/bar/a.txt"]))),
        parsed.check.files
    );
}

#[test]
fn parse_action_fails_on_bad_template() {
    let action = DoctorGroupActionSpec {
        name: None,
        description: None,
        check: DoctorCheckSpec {
            paths: None,
            commands: Some(vec!["{{ broken".to_string()]),
        },
        fix: None,
        required: true,
    };
    let result = parse_action(0, &group_model(vec![]), &action);
    assert!(matches!(result, Err(ModelError::Template(_))));
}

#[test]
fn fix_without_commands_has_no_command() {
    let spec = DoctorFixSpec {
        commands: vec![],
        help_text: Some("read the docs".to_string()),
        help_url: None,
        prompt: Some(DoctorFixPromptSpec { text: "go?".to_string(), extra_context: Some("ctx".to_string()) }),
    };
    let fix = DoctorFix::from_spec("/a", "/b", &spec).unwrap();
    assert_eq!(None, fix.command);
    assert_eq!(Some("read the docs".to_string()), fix.help_text);
    assert_eq!(
        Some(DoctorFixPrompt { text: "go?".to_string(), extra_context: Some("ctx".to_string()) }),
        fix.prompt
    );
}

#[test]
fn try_from_spec() {
    let model_metadata = metadata("some test error", "/foo/bar", "/some/work/dir");
    let input = V1AlphaKnownError {
        api_version: V1AlphaApiVersion::ScopeV1Alpha,
        kind: KnownErrorKind::ScopeKnownError,
        metadata: model_metadata.clone(),
        spec: KnownErrorSpec {
            help: "some help text".to_string(),
            pattern: "some regex pattern".to_string(),
            fix: Some(DoctorFixSpec {
                commands: vec!["echo 'fix it!'".to_string()],
                help_text: None,
                help_url: None,
                prompt: None,
            }),
        },
    };

    let actual = KnownError::try_from(input.clone()).unwrap();

    assert_eq!(
        KnownError {
            full_name: "ScopeKnownError/some test error".to_string(),
            metadata: input.metadata.clone(),
            pattern: input.spec.pattern.clone(),
            help_text: input.spec.help.clone(),
            fix: Some(
                DoctorFix::from_spec(
                    &model_metadata.containing_dir(),
                    "/some/work/dir",
                    input.spec.fix.as_ref().unwrap()
                )
                .unwrap()
            ),
        },
        actual
    );
    assert!(actual.matches("there is some regex pattern here"));
    assert!(!actual.matches("nothing to see"));
}

#[test]
fn known_error_with_invalid_pattern_fails() {
    let input = V1AlphaKnownError {
        api_version: V1AlphaApiVersion::ScopeV1Alpha,
        kind: KnownErrorKind::ScopeKnownError,
        metadata: metadata("bad", "/foo", "/foo"),
        spec: KnownErrorSpec { help: "h".to_string(), pattern: "(unclosed".to_string(), fix: None },
    };
    assert!(matches!(KnownError::try_from(input), Err(ModelError::Pattern(_))));
}

#[test]
fn test_parse_scope_report_def() {
    let def = V1AlphaReportDefinition {
        api_version: V1AlphaApiVersion::ScopeV1Alpha,
        kind: ReportDefinitionKind::ScopeReportDefinition,
        metadata: metadata("report", "/foo/bar", "/foo/bar"),
        spec: ReportDefinitionSpec {
            additional_data: vec![("env".to_string(), "env".to_string())],
            template: "hello bob\n ".to_string(),
        },
    };
    let model = ReportDefinition::try_from(def).unwrap();
    assert_eq!("ScopeReportDefinition/report", model.full_name);
    assert_eq!("report", model.metadata.name());
    assert_eq!("hello bob", model.template);
    assert_eq!(vec![("env".to_string(), "env".to_string())], model.additional_data);
}

#[test]
fn trim_and_decimal_helpers() {
    assert_eq!("a b", trim_text("\t a b \n"));
    assert_eq!("", trim_text("   "));
    assert_eq!("0", decimal_text(0));
    assert_eq!("1234", decimal_text(1234));
    assert_eq!(vec!["a".to_string(), "b".to_string()], convert_to_string(vec!["a", "b"]));
}

#[test]
fn default_templates_and_overrides() {
    let mut t = ReportTemplates::default();
    assert_eq!(
        vec![("message".to_string(), ReportTemplates::default_message_template())],
        *t.templates()
    );
    assert_eq!("Scope bug report: `{{ entrypoint }}`", t.title_template());
    assert_eq!("== Error report for {{ command }}.", ReportTemplates::default_message_template());
    t.add_template("message", "# Error\nAn error occured with {{ command }}");
    t.add_template("extra", "x");
    assert_eq!(
        vec![
            ("message".to_string(), "# Error\nAn error occured with {{ command }}".to_string()),
            ("extra".to_string(), "x".to_string())
        ],
        *t.templates()
    );
    assert_eq!(ReportTemplates::default(), t);
}

#[test]
fn report_location_from_spec() {
    let loc = V1AlphaReportLocation {
        api_version: V1AlphaApiVersion::ScopeV1Alpha,
        kind: ReportLocationKind::ScopeReportLocation,
        metadata: metadata("github", "/foo", "/foo"),
        spec: ReportLocationSpec {
            destination: ReportDestinationSpec::GithubIssue(ReportDestinationGithubIssueSpec {
                owner: "scope".to_string(),
                repo: "party".to_string(),
                tags: vec![],
            }),
            templates: ReportDestinationTemplates {
                title: Some("T".to_string()),
                doctor: None,
                analyze: None,
                extra_definitions: vec![("message".to_string(), "M".to_string())],
            },
            additional_data: vec![],
        },
    };
    let parsed = ReportUploadLocation::try_from(loc).unwrap();
    assert_eq!("ScopeReportLocation/github", parsed.full_name);
    assert_eq!(
        ReportUploadLocationDestination::GithubIssue {
            owner: "scope".to_string(),
            repo: "party".to_string(),
            tags: Vec::new(),
        },
        parsed.destination
    );
    assert_eq!("T", parsed.templates.title_template());
    assert_eq!(
        vec![("message".to_string(), "M".to_string())],
        *parsed.templates.templates()
    );
    assert_eq!(ReportTemplates::default_doctor_template(), parsed.templates.doctor_template());

    let config = ParsedConfig::ReportUpload(parsed.clone());
    assert_eq!(Some(&parsed), config.get_report_upload_spec());
    assert!(config.get_doctor_group().is_none());
    assert!(config.get_known_error_spec().is_none());
}

#[test]
fn whitespace_agrees_with_std() {
    for code in 0u32..=0x10FFFF {
        if let Some(c) = char::from_u32(code) {
            assert_eq!(c.is_whitespace(), dev_scope::models::is_whitespace_char(c), "{:x}", code);
        }
    }
}
