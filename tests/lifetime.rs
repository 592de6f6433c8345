use fw::lifetime::{after_fork, after_set, begin, Action, Role, SetError, WaitMode};

#[test]
fn first_step_per_mode() {
    assert!(matches!(
        begin::<String>(WaitMode::NoWait),
        Action::SetClipboard { wait: false, role: Role::Original }
    ));
    assert!(matches!(
        begin::<String>(WaitMode::Foreground),
        Action::SetClipboard { wait: true, role: Role::Original }
    ));
    assert!(matches!(begin::<String>(WaitMode::Background), Action::Duplicate));
}

#[test]
fn failed_duplication_is_returned_and_clipboard_untouched() {
    assert!(matches!(begin::<String>(WaitMode::Background), Action::Duplicate));
    assert!(matches!(after_fork::<String>(-1), Action::Return(Err(SetError::Duplication))));
}

#[test]
fn child_sets_clipboard_and_waits() {
    assert!(matches!(
        after_fork::<String>(0),
        Action::SetClipboard { wait: true, role: Role::Child }
    ));
}

#[test]
fn original_returns_at_once_after_fork() {
    assert!(matches!(after_fork::<String>(4242), Action::Return(Ok(()))));
    assert!(matches!(after_fork::<String>(1), Action::Return(Ok(()))));
}

#[test]
fn original_returns_the_clipboard_outcome() {
    assert!(matches!(after_set::<String>(Role::Original, Ok(())), Action::Return(Ok(()))));
    match after_set(Role::Original, Err("no display".to_string())) {
        Action::Return(Err(SetError::Clipboard(e))) => assert_eq!(e, "no display"),
        _ => panic!("expected the clipboard error"),
    }
}

#[test]
fn child_exit_codes() {
    assert!(matches!(
        after_set::<String>(Role::Child, Ok(())),
        Action::ExitChild { code: 0, report: None }
    ));
    match after_set(Role::Child, Err("lost".to_string())) {
        Action::ExitChild { code, report } => {
            assert_eq!(code, 1);
            assert_eq!(report, Some("lost".to_string()));
        }
        _ => panic!("expected the child to exit"),
    }
}
