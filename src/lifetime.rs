//! How long the process that sets the clipboard stays alive.
//!
//! On X11-style display servers the clipboard owner has to keep running to
//! answer paste requests. The functions here decide, step by step, what the
//! caller does next; the caller performs each step (setting the clipboard,
//! duplicating the process) and hands back its outcome.
//!
//! The clipboard subsystem may start worker threads, and duplicating a
//! multi-threaded process is unsafe. So in `Background` mode the process is
//! duplicated first, and only the copy ever touches the clipboard.

use vstd::prelude::*;

verus! {

/// How setting the clipboard treats the lifetime of the process.
#[derive(Clone, Copy, Debug, PartialEq, Eq, Structural)]
pub enum WaitMode {
    /// Set the clipboard and return at once.
    NoWait,
    /// Set the clipboard and block until another owner replaces it.
    Foreground,
    /// Duplicate the process; the copy sets the clipboard and blocks, the
    /// original returns at once.
    Background,
}

/// Which of the two processes a decision is made in.
#[derive(Clone, Copy, Debug, PartialEq, Eq, Structural)]
pub enum Role {
    /// The process that was started.
    Original,
    /// The copy made by duplicating the original in `Background` mode.
    Child,
}

/// Why setting the clipboard failed, as the original process reports it.
#[derive(Debug)]
pub enum SetError<E> {
    /// Opening the clipboard or setting its contents failed.
    Clipboard(E),
    /// The process could not be duplicated.
    Duplication,
}

/// What the caller does next.
#[derive(Debug)]
pub enum Action<E> {
    /// Open the clipboard in this process, which is `role`, and set the
    /// text; block until the clipboard is replaced when `wait` holds.
    SetClipboard { wait: bool, role: Role },
    /// Duplicate the process, then report the identifier it returned.
    Duplicate,
    /// Return this outcome to the caller.
    Return(Result<(), SetError<E>>),
    /// End the child process with `code`, after printing `report` if any.
    ExitChild { code: i32, report: Option<E> },
}

/// The first step for `mode`.
pub open spec fn begin_spec<E>(mode: WaitMode) -> Action<E> {
    match mode {
        WaitMode::NoWait => Action::SetClipboard { wait: false, role: Role::Original },
        WaitMode::Foreground => Action::SetClipboard { wait: true, role: Role::Original },
        WaitMode::Background => Action::Duplicate,
    }
}

/// The step after duplicating returned `pid`: -1 is a failure, 0 means this
/// is the child, anything else means this is the original.
pub open spec fn after_fork_spec<E>(pid: i32) -> Action<E> {
    if pid == -1 {
        Action::Return(Err(SetError::Duplication))
    } else if pid == 0 {
        Action::SetClipboard { wait: true, role: Role::Child }
    } else {
        Action::Return(Ok(()))
    }
}

/// The step after setting the clipboard in `role` ended with `outcome`.
pub open spec fn after_set_spec<E>(role: Role, outcome: Result<(), E>) -> Action<E> {
    match (role, outcome) {
        (Role::Original, Ok(())) => Action::Return(Ok(())),
        (Role::Original, Err(e)) => Action::Return(Err(SetError::Clipboard(e))),
        (Role::Child, Ok(())) => Action::ExitChild { code: 0, report: None },
        (Role::Child, Err(e)) => Action::ExitChild { code: 1, report: Some(e) },
    }
}

/// In `Background` mode the original process never opens the clipboard: it
/// first duplicates itself, and after that only the child, which sees 0,
/// sets the clipboard, and it waits there.
pub proof fn lemma_clipboard_only_in_child<E>(pid: i32)
    ensures
        begin_spec::<E>(WaitMode::Background) is Duplicate,
        after_fork_spec::<E>(pid) is SetClipboard ==> pid == 0,
        pid == 0 ==> after_fork_spec::<E>(pid) == (Action::<E>::SetClipboard {
            wait: true,
            role: Role::Child,
        }),
{
}

/// When duplication fails in `Background` mode, the failure is returned to
/// the caller and the clipboard is never set.
pub proof fn lemma_duplication_failure<E>()
    ensures
        begin_spec::<E>(WaitMode::Background) is Duplicate,
        after_fork_spec::<E>(-1i32) == Action::<E>::Return(Err(SetError::Duplication)),
{
}

/// A child exits with 0 exactly when it set the clipboard, and with 1,
/// reporting the error, when it did not.
pub proof fn lemma_child_exit_code<E>(outcome: Result<(), E>)
    ensures
        after_set_spec(Role::Child, outcome) matches Action::ExitChild { code, report } && {
            &&& code == 0 <==> outcome is Ok
            &&& code == 0 || code == 1
            &&& report is Some <==> outcome is Err
        },
{
}

/// The first step for `mode`. In `Background` mode the process is
/// duplicated before anything touches the clipboard.
pub fn begin<E>(mode: WaitMode) -> (r: Action<E>)
    ensures
        r == begin_spec::<E>(mode),
{
    match mode {
        WaitMode::NoWait => Action::SetClipboard { wait: false, role: Role::Original },
        WaitMode::Foreground => Action::SetClipboard { wait: true, role: Role::Original },
        WaitMode::Background => Action::Duplicate,
    }
}

/// The step after duplicating the process returned `pid`. The child sets
/// the clipboard and waits; the original returns success without touching
/// the clipboard; a failed duplication is an error.
pub fn after_fork<E>(pid: i32) -> (r: Action<E>)
    ensures
        r == after_fork_spec::<E>(pid),
{
    if pid == -1 {
        Action::Return(Err(SetError::Duplication))
    } else if pid == 0 {
        Action::SetClipboard { wait: true, role: Role::Child }
    } else {
        Action::Return(Ok(()))
    }
}

/// The step after setting the clipboard in `role` ended with `outcome`. The
/// original returns the outcome; the child exits with 0 on success and 1 on
/// failure, reporting the error.
pub fn after_set<E>(role: Role, outcome: Result<(), E>) -> (r: Action<E>)
    ensures
        r == after_set_spec(role, outcome),
{
    match role {
        Role::Original => match outcome {
            Ok(()) => Action::Return(Ok(())),
            Err(e) => Action::Return(Err(SetError::Clipboard(e))),
        },
        Role::Child => match outcome {
            Ok(()) => Action::ExitChild { code: 0, report: None },
            Err(e) => Action::ExitChild { code: 1, report: Some(e) },
        },
    }
}

} // verus!
