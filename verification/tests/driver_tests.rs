use terraform_zap::driver::{next_action, step, Action, Config, Event, Phase};
use terraform_zap::error::Error;
use terraform_zap::listing::tokenize;
use terraform_zap::status::TerminationStatus;

fn plain_config() -> Config {
    Config {
        tf_cmd: None,
        verbose: 0,
        pass_args: vec![],
    }
}

#[test]
fn test_tokenize_empty_output() {
    let tokens = tokenize("");
    assert!(tokens.is_empty());
}

#[test]
fn test_tokenize_blank_output() {
    let tokens = tokenize(" \t \n  ");
    assert!(tokens.is_empty());
}

#[test]
fn test_tokenize_splits_on_whitespace() {
    let tokens = tokenize("aws_instance.a\naws_instance.b\n");
    assert_eq!(&["aws_instance.a", "aws_instance.b"], tokens.as_slice());

    let mixed = tokenize("  a b\t\nc");
    assert_eq!(&["a", "b", "c"], mixed.as_slice());
}

#[test]
fn test_missing_ignore_file_means_no_rules() {
    let phase = step(
        Phase::Located {
            exe: "terraform".to_owned(),
        },
        Event::IgnoreMissing,
    );

    match phase {
        Phase::RulesResolved { rules, .. } => assert!(rules.is_none()),
        _ => panic!("expected the rules to be resolved"),
    }
}

#[test]
fn test_malformed_ignore_file_fails_the_run() {
    let phase = step(
        Phase::Located {
            exe: "terraform".to_owned(),
        },
        Event::IgnoreRead {
            content: "".to_owned(),
        },
    );

    match phase {
        Phase::Failed { error, code } => {
            assert!(matches!(error, Error::TomlDe(_)));
            assert_eq!(1, code);
        }
        _ => panic!("expected the run to fail"),
    }
}

#[test]
fn test_not_executable_fails_with_generic_code() {
    let phase = step(Phase::Init, Event::ExecutableRejected);

    match phase {
        Phase::Failed { error, code } => {
            assert!(matches!(error, Error::NotExecutable));
            assert_eq!(1, code);
        }
        _ => panic!("expected the run to fail"),
    }
}

#[test]
fn test_lookup_failure_fails_with_generic_code() {
    let phase = step(
        Phase::Init,
        Event::ExecutableNotFound {
            detail: "not found".to_owned(),
        },
    );

    match phase {
        Phase::Failed { error, code } => {
            assert!(matches!(error, Error::Which(_)));
            assert_eq!(1, code);
        }
        _ => panic!("expected the run to fail"),
    }
}

#[test]
fn test_unreadable_ignore_file_fails_with_generic_code() {
    let phase = step(
        Phase::Located {
            exe: "terraform".to_owned(),
        },
        Event::IgnoreUnreadable {
            detail: "permission denied".to_owned(),
        },
    );

    match phase {
        Phase::Failed { error, code } => {
            assert!(matches!(error, Error::Io(_)));
            assert_eq!(1, code);
        }
        _ => panic!("expected the run to fail"),
    }
}

#[test]
fn test_listing_launch_failure_fails_with_generic_code() {
    let phase = step(
        Phase::RulesResolved {
            exe: "terraform".to_owned(),
            rules: None,
        },
        Event::LaunchFailed {
            detail: "no such file".to_owned(),
        },
    );

    match phase {
        Phase::Failed { error, code } => {
            assert!(matches!(error, Error::Command(_)));
            assert_eq!(1, code);
        }
        _ => panic!("expected the run to fail"),
    }
}

#[test]
fn test_listing_exit_failure_fails_with_generic_code() {
    let phase = step(
        Phase::RulesResolved {
            exe: "terraform".to_owned(),
            rules: None,
        },
        Event::Completed {
            status: TerminationStatus::Exited(7),
            stdout: "".to_owned(),
            stderr: "boom".to_owned(),
        },
    );

    match phase {
        Phase::Failed { error, code } => {
            match error {
                Error::CommandError(capture) => {
                    assert_eq!(TerminationStatus::Exited(7), capture.exit_status);
                    assert_eq!("boom", capture.err_msg);
                }
                _ => panic!("expected a command error"),
            }
            assert_eq!(1, code);
        }
        _ => panic!("expected the run to fail"),
    }
}

#[test]
fn test_destroy_exit_failure_uses_translated_code() {
    let phase = step(
        Phase::Filtered {
            exe: "terraform".to_owned(),
            target_args: vec![],
        },
        Event::Completed {
            status: TerminationStatus::Exited(7),
            stdout: "".to_owned(),
            stderr: "boom".to_owned(),
        },
    );

    match &phase {
        Phase::Failed { error, code } => {
            assert!(matches!(error, Error::CommandError(_)));
            assert_eq!(7, *code);
        }
        _ => panic!("expected the run to fail"),
    }

    match next_action(&phase, &plain_config()) {
        Action::Finish { code } => assert_eq!(7, code),
        _ => panic!("expected the run to finish"),
    }
}

#[test]
fn test_destroy_signal_failure_uses_signal_number() {
    let phase = step(
        Phase::Filtered {
            exe: "terraform".to_owned(),
            target_args: vec![],
        },
        Event::Completed {
            status: TerminationStatus::Signaled(9),
            stdout: "".to_owned(),
            stderr: "killed".to_owned(),
        },
    );

    match next_action(&phase, &plain_config()) {
        Action::Finish { code } => assert_eq!(9, code),
        _ => panic!("expected the run to finish"),
    }
}

#[test]
fn test_successful_run_end_to_end() {
    let config = Config {
        tf_cmd: None,
        verbose: 0,
        pass_args: vec!["-auto-approve".to_owned()],
    };

    let mut phase = step(
        Phase::Init,
        Event::ExecutableLocated {
            exe: "terraform".to_owned(),
        },
    );
    assert!(matches!(phase, Phase::Located { .. }));

    phase = step(
        phase,
        Event::IgnoreRead {
            content: "exact = [\"aws_instance.a\"]".to_owned(),
        },
    );
    assert!(matches!(phase, Phase::RulesResolved { .. }));

    match next_action(&phase, &config) {
        Action::RunList { exe } => assert_eq!("terraform", exe),
        _ => panic!("expected the listing invocation"),
    }

    phase = step(
        phase,
        Event::Completed {
            status: TerminationStatus::Exited(0),
            stdout: "aws_instance.a\naws_instance.b\n".to_owned(),
            stderr: "".to_owned(),
        },
    );
    assert!(matches!(phase, Phase::Listed { .. }));

    phase = step(phase, Event::Advance);

    let destroy_args = match next_action(&phase, &config) {
        Action::RunDestroy { exe, args } => {
            assert_eq!("terraform", exe);
            args
        }
        _ => panic!("expected the destroy invocation"),
    };
    assert_eq!(
        &["destroy", "-target", "aws_instance.b", "-auto-approve"],
        destroy_args.as_slice()
    );
    assert!(!destroy_args.iter().any(|arg| arg == "aws_instance.a"));

    phase = step(
        phase,
        Event::Completed {
            status: TerminationStatus::Exited(0),
            stdout: "".to_owned(),
            stderr: "".to_owned(),
        },
    );
    assert!(matches!(phase, Phase::Destroyed));

    phase = step(phase, Event::Advance);
    match next_action(&phase, &config) {
        Action::Finish { code } => assert_eq!(0, code),
        _ => panic!("expected the run to finish"),
    }
}

#[test]
fn test_explicit_command_path_is_handed_to_the_locator() {
    let config = Config {
        tf_cmd: Some("/opt/tools/terraform".to_owned()),
        verbose: 0,
        pass_args: vec![],
    };

    match next_action(&Phase::Init, &config) {
        Action::LocateExecutable { explicit } => {
            assert_eq!(Some("/opt/tools/terraform".to_owned()), explicit);
        }
        _ => panic!("expected the locator"),
    }
}
