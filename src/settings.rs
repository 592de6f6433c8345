//! Resolving the command-line flags and the session environment into what
//! is done with the clipboard, once, at startup.

use vstd::prelude::*;
use crate::lifetime::WaitMode;

verus! {

/// The clipboard flags given on the command line. At most one may be set.
#[derive(Clone, Copy, Debug, PartialEq, Eq, Structural)]
pub struct ClipboardFlags {
    /// Do not touch the clipboard at all.
    pub no_clipboard: bool,
    /// Set the clipboard and return at once.
    pub no_wait: bool,
    /// Set the clipboard and wait in this process.
    pub foreground_wait: bool,
}

/// What the environment tells about the session.
#[derive(Clone, Copy, Debug, PartialEq, Eq, Structural)]
pub struct Session {
    /// The display-server indicator is set and not empty.
    pub has_display: bool,
    /// The desktop-session indicator is set and not empty.
    pub has_desktop: bool,
}

/// Why the flags cannot be resolved.
#[derive(Clone, Copy, Debug, PartialEq, Eq, Structural)]
pub enum SettingsError {
    /// More than one of the mutually exclusive clipboard flags was given.
    ConflictingFlags,
}

impl SettingsError {
    /// A description of the error for the user.
    pub fn message(&self) -> String {
        match self {
            SettingsError::ConflictingFlags => String::from_str(
                "--no-clipboard, --no-wait and --foreground-wait cannot be combined",
            ),
        }
    }
}

/// How many of the clipboard flags are set.
pub open spec fn flag_count(f: ClipboardFlags) -> nat {
    (if f.no_clipboard { 1nat } else { 0nat }) + (if f.no_wait { 1nat } else { 0nat }) + (
    if f.foreground_wait { 1nat } else { 0nat })
}

/// What is done with the clipboard: `None` when it is skipped, else the
/// wait mode. An explicit flag wins; without one a desktop session is
/// trusted to take the clipboard over, and otherwise a background copy of
/// the process keeps serving it.
pub open spec fn clipboard_plan(f: ClipboardFlags, s: Session) -> Option<WaitMode> {
    if f.no_clipboard || !s.has_display {
        None
    } else if f.no_wait {
        Some(WaitMode::NoWait)
    } else if f.foreground_wait {
        Some(WaitMode::Foreground)
    } else if s.has_desktop {
        Some(WaitMode::NoWait)
    } else {
        Some(WaitMode::Background)
    }
}

/// With `--no-clipboard` the clipboard is skipped, whatever the session.
pub proof fn lemma_no_clipboard_skips(f: ClipboardFlags, s: Session)
    requires
        f.no_clipboard,
    ensures
        clipboard_plan(f, s) is None,
{
}

/// Without a display server the clipboard is skipped, whatever the flags.
pub proof fn lemma_no_display_skips(f: ClipboardFlags, s: Session)
    requires
        !s.has_display,
    ensures
        clipboard_plan(f, s) is None,
{
}

/// Resolves the flags and the session into what is done with the clipboard.
pub fn resolve(flags: ClipboardFlags, session: Session) -> (r: Result<
    Option<WaitMode>,
    SettingsError,
>)
    ensures
        r is Err <==> flag_count(flags) > 1,
        r is Err ==> r == Err::<Option<WaitMode>, SettingsError>(SettingsError::ConflictingFlags),
        r is Ok ==> r == Ok::<Option<WaitMode>, SettingsError>(clipboard_plan(flags, session)),
{
    let count: u8 = (if flags.no_clipboard { 1u8 } else { 0u8 }) + (if flags.no_wait {
        1u8
    } else {
        0u8
    }) + (if flags.foreground_wait { 1u8 } else { 0u8 });
    if count > 1 {
        return Err(SettingsError::ConflictingFlags);
    }
    if flags.no_clipboard || !session.has_display {
        Ok(None)
    } else if flags.no_wait {
        Ok(Some(WaitMode::NoWait))
    } else if flags.foreground_wait {
        Ok(Some(WaitMode::Foreground))
    } else if session.has_desktop {
        Ok(Some(WaitMode::NoWait))
    } else {
        Ok(Some(WaitMode::Background))
    }
}

} // verus!
