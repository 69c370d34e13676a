//! Idle bookkeeping of the session loop: when to show the home screen and
//! when to go to standby.
use vstd::prelude::*;

verus! {

/// Number of ticks without a command after which the session ends.
pub const STANDBY_TICKS: u32 = 3000;

/// What the session loop saw.
#[derive(Clone, Copy, Debug, PartialEq, Eq, Structural)]
pub enum SessionEvent {
    /// Both buttons were released together: the operator wants out.
    ExitButtons,
    /// The periodic ticker fired.
    Tick,
    /// A command was answered; `activity` is set if it succeeded.
    Responded { activity: bool },
    /// Anything else.
    Other,
}

/// What the session loop has to do.
#[derive(Clone, Copy, Debug, PartialEq, Eq, Structural)]
pub enum SessionAction {
    /// Keep waiting for events.
    Continue,
    /// Draw the home screen, then keep waiting.
    ShowHome,
    /// Leave the application.
    Exit,
}

/// Counts ticks since the last command.
#[derive(Clone, Copy, Debug, PartialEq, Eq, Structural)]
pub struct IdleTimer {
    /// Ticks seen since the last command, counted up to [`STANDBY_TICKS`].
    pub ticks: u32,
}

/// The timer's transition function.
///
/// The first tick after a command draws the home screen. A tick that finds
/// [`STANDBY_TICKS`] already counted ends the session. Every answered command
/// restarts the count, and a successful one draws the home screen at once.
pub open spec fn session_step(ticks: u32, event: SessionEvent) -> (u32, SessionAction) {
    match event {
        SessionEvent::ExitButtons => (ticks, SessionAction::Exit),
        SessionEvent::Tick => if ticks == 0 {
            (1, SessionAction::ShowHome)
        } else if ticks >= STANDBY_TICKS {
            (ticks, SessionAction::Exit)
        } else {
            ((ticks + 1) as u32, SessionAction::Continue)
        },
        SessionEvent::Responded { activity } => (
            0,
            if activity {
                SessionAction::ShowHome
            } else {
                SessionAction::Continue
            },
        ),
        SessionEvent::Other => (ticks, SessionAction::Continue),
    }
}

/// The count after `n` more ticks with nothing in between.
pub open spec fn after_ticks(ticks: u32, n: nat) -> u32
    decreases n,
{
    if n == 0 {
        ticks
    } else {
        after_ticks(session_step(ticks, SessionEvent::Tick).0, (n - 1) as nat)
    }
}

impl IdleTimer {
    /// A timer that has seen no tick yet.
    pub fn new() -> (t: IdleTimer)
        ensures
            t.ticks == 0,
    {
        IdleTimer { ticks: 0 }
    }

    /// Takes note of an event and says what the loop has to do.
    pub fn on_event(&mut self, event: SessionEvent) -> (action: SessionAction)
        ensures
            (final(self).ticks, action) == session_step(old(self).ticks, event),
    {
        match event {
            SessionEvent::ExitButtons => SessionAction::Exit,
            SessionEvent::Tick => {
                if self.ticks == 0 {
                    self.ticks = 1;
                    SessionAction::ShowHome
                } else if self.ticks >= STANDBY_TICKS {
                    SessionAction::Exit
                } else {
                    self.ticks = self.ticks + 1;
                    SessionAction::Continue
                }
            },
            SessionEvent::Responded { activity } => {
                self.ticks = 0;
                if activity {
                    SessionAction::ShowHome
                } else {
                    SessionAction::Continue
                }
            },
            SessionEvent::Other => SessionAction::Continue,
        }
    }
}

/// After a command the session lasts for exactly [`STANDBY_TICKS`] quiet
/// ticks: each of them is counted, none of them ends the session, and the
/// tick after them does.
pub proof fn lemma_standby_after_quiet_ticks(n: nat)
    requires
        n <= STANDBY_TICKS,
    ensures
        after_ticks(0, n) == n,
        n < STANDBY_TICKS ==> session_step(after_ticks(0, n), SessionEvent::Tick).1
            != SessionAction::Exit,
        n == STANDBY_TICKS ==> session_step(after_ticks(0, n), SessionEvent::Tick).1
            == SessionAction::Exit,
{
    lemma_ticks_add_up(0, n);
}

/// Quiet ticks add up as long as the count stays within [`STANDBY_TICKS`].
proof fn lemma_ticks_add_up(ticks: u32, n: nat)
    requires
        ticks + n <= STANDBY_TICKS,
    ensures
        after_ticks(ticks, n) == ticks + n,
    decreases n,
{
    if n > 0 {
        lemma_ticks_add_up((ticks + 1) as u32, (n - 1) as nat);
    }
}

} // verus!
