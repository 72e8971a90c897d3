//! The reconnect loop, as a state machine: each finished session is
//! followed by a fixed cooldown and a fresh connection.

use vstd::prelude::*;

verus! {

/// Where the loop stands.
#[derive(Clone, Copy, Debug, PartialEq, Eq, Structural)]
pub enum Phase {
    Idle,
    Running,
    CoolingDown,
}

/// What happened since the last command.
#[derive(Clone, Copy, Debug, PartialEq, Eq, Structural)]
pub enum Event {
    Start,
    SessionEnded,
    CooldownElapsed,
}

/// What the caller does next.
#[derive(Clone, Copy, Debug, PartialEq, Eq, Structural)]
pub enum Command {
    /// Open a new session, with a new line framer.
    Connect,
    /// Sleep this many seconds.
    Sleep(u64),
}

/// The next phase and command. A session only ends in failure, so every
/// end is followed by the cooldown; whatever the sleep's outcome, its end
/// is followed by a new connection.
pub open spec fn step_spec(cooldown_secs: u64, phase: Phase, event: Event) -> (Phase, Command) {
    match event {
        Event::Start => (Phase::Running, Command::Connect),
        Event::SessionEnded => (Phase::CoolingDown, Command::Sleep(cooldown_secs)),
        Event::CooldownElapsed => (Phase::Running, Command::Connect),
    }
}

/// The loop's fixed cooldown and its phase.
pub struct Supervisor {
    pub cooldown_secs: u64,
    pub phase: Phase,
}

impl Supervisor {
    /// A loop that has not started yet.
    pub fn new(cooldown_secs: u64) -> (r: Supervisor)
        ensures
            r.cooldown_secs == cooldown_secs,
            r.phase == Phase::Idle,
    {
        Supervisor { cooldown_secs, phase: Phase::Idle }
    }

    /// Moves the loop on by one event.
    pub fn step(&mut self, event: Event) -> (r: Command)
        ensures
            final(self).cooldown_secs == old(self).cooldown_secs,
            (final(self).phase, r) == step_spec(old(self).cooldown_secs, old(self).phase, event),
    {
        let (phase, command) = match event {
            Event::Start => (Phase::Running, Command::Connect),
            Event::SessionEnded => (Phase::CoolingDown, Command::Sleep(self.cooldown_secs)),
            Event::CooldownElapsed => (Phase::Running, Command::Connect),
        };
        self.phase = phase;
        command
    }
}

/// After a session fails, whatever the phase, the loop sleeps exactly the
/// cooldown and then connects again; it never gives up.
pub proof fn lemma_failure_then_reconnect(cooldown_secs: u64, phase: Phase)
    ensures
        step_spec(cooldown_secs, phase, Event::SessionEnded) == (
        Phase::CoolingDown,
        Command::Sleep(cooldown_secs),
        ),
        step_spec(cooldown_secs, Phase::CoolingDown, Event::CooldownElapsed) == (
        Phase::Running,
        Command::Connect,
        ),
{
}

} // verus!
