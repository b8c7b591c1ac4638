//! The terminal session: whether the terminal is in raw mode, and the rule
//! that every entry into raw mode is undone exactly once.
//!
//! The session does not touch the terminal. Its holder switches the terminal
//! and tells the session what came of it; the session answers whether the
//! terminal has to be restored.

use vstd::prelude::*;
use crate::error::DashboardError;

verus! {

/// The state of the terminal as the dashboard left it: open while the
/// terminal is in raw mode, closed otherwise.
#[derive(Debug)]
pub struct Session {
    open: bool,
}

/// One operation on a session, as it appears in a history.
pub enum SessionOp {
    /// An attempt to enter raw mode; `granted` tells whether the terminal
    /// accepted the switch.
    Enter { granted: bool },
    /// A request to leave raw mode.
    Exit,
}

/// Whether a session that is `open` is open after `op`.
pub open spec fn open_after(open: bool, op: SessionOp) -> bool {
    match op {
        SessionOp::Enter { granted } => open || granted,
        SessionOp::Exit => false,
    }
}

/// Whether `op` puts the terminal into raw mode on a session that is `open`.
pub open spec fn switches(open: bool, op: SessionOp) -> bool {
    !open && op == (SessionOp::Enter { granted: true })
}

/// Whether `op` on a session that is `open` asks for the terminal to be
/// restored.
pub open spec fn restores(open: bool, op: SessionOp) -> bool {
    open && op == SessionOp::Exit
}

/// Whether a session that began closed is open after the history `ops`.
pub open spec fn open_after_all(ops: Seq<SessionOp>) -> bool
    decreases ops.len(),
{
    if ops.len() == 0 {
        false
    } else {
        open_after(open_after_all(ops.drop_last()), ops.last())
    }
}

/// How often the history `ops` put the terminal into raw mode.
pub open spec fn switch_count(ops: Seq<SessionOp>) -> nat
    decreases ops.len(),
{
    if ops.len() == 0 {
        0
    } else {
        let before = switch_count(ops.drop_last());
        if switches(open_after_all(ops.drop_last()), ops.last()) {
            before + 1
        } else {
            before
        }
    }
}

/// How often the history `ops` asked for the terminal to be restored.
pub open spec fn restore_count(ops: Seq<SessionOp>) -> nat
    decreases ops.len(),
{
    if ops.len() == 0 {
        0
    } else {
        let before = restore_count(ops.drop_last());
        if restores(open_after_all(ops.drop_last()), ops.last()) {
            before + 1
        } else {
            before
        }
    }
}

/// In every history of a session that began closed, each switch into raw
/// mode is answered by exactly one restoration, except the last one while the
/// session is still open. So once the session is closed the terminal has been
/// restored exactly as often as it was switched, whichever way control went.
pub proof fn lemma_exit_matches_enter(ops: Seq<SessionOp>)
    ensures
        switch_count(ops) == restore_count(ops) + if open_after_all(ops) {
            1nat
        } else {
            0nat
        },
    decreases ops.len(),
{
    if ops.len() > 0 {
        lemma_exit_matches_enter(ops.drop_last());
    }
}

/// Leaving twice in a row restores the terminal once: the second request
/// finds the session closed.
pub proof fn lemma_second_exit_restores_nothing(open: bool)
    ensures
        !restores(open_after(open, SessionOp::Exit), SessionOp::Exit),
        !open_after(open_after(open, SessionOp::Exit), SessionOp::Exit),
{
}

impl Session {
    /// Whether the terminal is in raw mode.
    pub closed spec fn is_open(&self) -> bool {
        self.open
    }

    /// A closed session: the terminal has not been touched.
    pub fn new() -> (session: Session)
        ensures
            !session.is_open(),
    {
        Session { open: false }
    }

    /// Whether the terminal is in raw mode.
    pub fn open(&self) -> (open: bool)
        ensures
            open == self.is_open(),
    {
        self.open
    }

    /// Records an attempt to put the terminal into raw mode and clear the
    /// screen. `granted` tells whether the terminal accepted the switch. A
    /// refusal is an error and leaves the session as it was.
    pub fn enter(&mut self, granted: bool) -> (result: Result<(), DashboardError>)
        ensures
            final(self).is_open() == open_after(old(self).is_open(), SessionOp::Enter { granted }),
            result == if granted {
                Ok::<(), DashboardError>(())
            } else {
                Err::<(), DashboardError>(DashboardError::TerminalInitError)
            },
    {
        if granted {
            self.open = true;
            Ok(())
        } else {
            Err(DashboardError::TerminalInitError)
        }
    }

    /// Closes the session. Returns whether the terminal has to be restored
    /// now, which is the case exactly if the session was open.
    pub fn exit(&mut self) -> (restore: bool)
        ensures
            restore == restores(old(self).is_open(), SessionOp::Exit),
            final(self).is_open() == open_after(old(self).is_open(), SessionOp::Exit),
    {
        let restore: bool = self.open;
        self.open = false;
        restore
    }
}

} // verus!
