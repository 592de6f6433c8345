use fw::lifetime::WaitMode;
use fw::settings::{resolve, ClipboardFlags, Session, SettingsError};

fn flags(no_clipboard: bool, no_wait: bool, foreground_wait: bool) -> ClipboardFlags {
    ClipboardFlags { no_clipboard, no_wait, foreground_wait }
}

fn session(has_display: bool, has_desktop: bool) -> Session {
    Session { has_display, has_desktop }
}

#[test]
fn no_clipboard_flag_skips_clipboard_in_every_session() {
    for d in [false, true] {
        for k in [false, true] {
            assert_eq!(resolve(flags(true, false, false), session(d, k)), Ok(None));
        }
    }
}

#[test]
fn missing_display_skips_clipboard() {
    for k in [false, true] {
        assert_eq!(resolve(flags(false, false, false), session(false, k)), Ok(None));
        assert_eq!(resolve(flags(false, true, false), session(false, k)), Ok(None));
        assert_eq!(resolve(flags(false, false, true), session(false, k)), Ok(None));
    }
}

#[test]
fn explicit_flags_choose_the_mode() {
    for k in [false, true] {
        assert_eq!(resolve(flags(false, true, false), session(true, k)), Ok(Some(WaitMode::NoWait)));
        assert_eq!(
            resolve(flags(false, false, true), session(true, k)),
            Ok(Some(WaitMode::Foreground))
        );
    }
}

#[test]
fn default_mode_follows_the_desktop_session() {
    assert_eq!(resolve(flags(false, false, false), session(true, true)), Ok(Some(WaitMode::NoWait)));
    assert_eq!(
        resolve(flags(false, false, false), session(true, false)),
        Ok(Some(WaitMode::Background))
    );
}

#[test]
fn combined_clipboard_flags_are_rejected() {
    let bad = [
        flags(true, true, false),
        flags(true, false, true),
        flags(false, true, true),
        flags(true, true, true),
    ];
    for f in bad {
        assert_eq!(resolve(f, session(true, false)), Err(SettingsError::ConflictingFlags));
        assert_eq!(resolve(f, session(false, true)), Err(SettingsError::ConflictingFlags));
    }
    assert!(!SettingsError::ConflictingFlags.message().is_empty());
}
