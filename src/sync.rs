use vstd::prelude::*;

use crate::config::Config;
use crate::update::{synthesize, synthesized, RigSnapshot, Update};

verus! {

/// Where the synchronisation loop stands.
#[derive(Debug, Clone, Copy, PartialEq, Eq, Structural)]
pub enum Phase {
    /// Waiting for the rigctld session to open.
    Connecting,
    /// Reading, publishing and pausing, cycle after cycle.
    Syncing,
    /// The session could not be opened; the process ends.
    Stopped,
}

/// What the outside world reports back to the loop.
#[derive(Debug, Clone)]
pub enum Event {
    /// The rigctld session is open.
    Connected,
    /// The rigctld session could not be opened.
    ConnectFailed,
    /// All five rig queries answered.
    SnapshotRead(RigSnapshot),
    /// One of the rig queries failed.
    QueryFailed,
    /// Wavelog answered; `true` when it accepted the update.
    Submitted(bool),
    /// The update could not be sent or the answer could not be read.
    SubmitFailed,
    /// The pause between two cycles is over.
    Woke,
}

/// What the loop asks the outside world to do next.
#[derive(Debug, Clone)]
pub enum Action {
    /// Open the rigctld session.
    Connect,
    /// Run the five rig queries.
    ReadSnapshot,
    /// Send this update to Wavelog.
    Submit(Update),
    /// Pause for this many milliseconds.
    Sleep(u64),
    /// End the process.
    Exit,
}

/// The kinds of [`Action`], without their data.
pub enum ActionKind {
    Connect,
    ReadSnapshot,
    Submit,
    Sleep,
    Exit,
}

impl Action {
    pub open spec fn kind(&self) -> ActionKind {
        match self {
            Action::Connect => ActionKind::Connect,
            Action::ReadSnapshot => ActionKind::ReadSnapshot,
            Action::Submit(_) => ActionKind::Submit,
            Action::Sleep(_) => ActionKind::Sleep,
            Action::Exit => ActionKind::Exit,
        }
    }
}

/// How a step should be reported.
#[derive(Debug, Clone, Copy, PartialEq, Eq, Structural)]
pub enum Notice {
    Quiet,
    Warning,
    Error,
}

/// The outcome of one step: the next action and how to report the event.
#[derive(Debug, Clone)]
pub struct Step {
    pub action: Action,
    pub notice: Notice,
}

/// The phase that follows an event.
pub open spec fn next_phase(p: Phase, e: Event) -> Phase {
    match p {
        Phase::Connecting => match e {
            Event::Connected => Phase::Syncing,
            Event::ConnectFailed => Phase::Stopped,
            _ => Phase::Connecting,
        },
        Phase::Syncing => Phase::Syncing,
        Phase::Stopped => Phase::Stopped,
    }
}

/// The kind of action that follows an event.
pub open spec fn next_kind(p: Phase, e: Event) -> ActionKind {
    match p {
        Phase::Connecting => match e {
            Event::Connected => ActionKind::ReadSnapshot,
            Event::ConnectFailed => ActionKind::Exit,
            _ => ActionKind::Connect,
        },
        Phase::Syncing => match e {
            Event::SnapshotRead(_) => ActionKind::Submit,
            Event::Connected | Event::Woke => ActionKind::ReadSnapshot,
            _ => ActionKind::Sleep,
        },
        Phase::Stopped => ActionKind::Exit,
    }
}

/// How an event is reported.
pub open spec fn next_notice(p: Phase, e: Event) -> Notice {
    match p {
        Phase::Connecting => match e {
            Event::ConnectFailed => Notice::Error,
            _ => Notice::Quiet,
        },
        Phase::Syncing => match e {
            Event::QueryFailed | Event::SubmitFailed | Event::ConnectFailed => Notice::Error,
            Event::Submitted(accepted) => if accepted {
                Notice::Quiet
            } else {
                Notice::Warning
            },
            _ => Notice::Quiet,
        },
        Phase::Stopped => Notice::Quiet,
    }
}

/// The synchronisation loop's decisions, apart from the work they call for.
pub struct SyncLoop {
    pub config: Config,
    pub phase: Phase,
}

impl SyncLoop {
    /// A loop that has not yet opened its rigctld session.
    pub fn new(config: Config) -> (r: SyncLoop)
        ensures
            r.phase == Phase::Connecting,
            r.config == config,
    {
        SyncLoop { config, phase: Phase::Connecting }
    }

    /// The action to take first, before any event.
    pub fn first_action(&self) -> (r: Action)
        ensures
            self.phase == Phase::Connecting ==> r is Connect,
            self.phase == Phase::Syncing ==> r is ReadSnapshot,
            self.phase == Phase::Stopped ==> r is Exit,
    {
        match self.phase {
            Phase::Connecting => Action::Connect,
            Phase::Syncing => Action::ReadSnapshot,
            Phase::Stopped => Action::Exit,
        }
    }

    /// Takes in one event and decides what comes next.
    pub fn step(&mut self, event: Event) -> (r: Step)
        ensures
            final(self).config == old(self).config,
            final(self).phase == next_phase(old(self).phase, event),
            r.action.kind() == next_kind(old(self).phase, event),
            r.notice == next_notice(old(self).phase, event),
            r.action matches Action::Sleep(ms) ==> ms == old(self).config.interval,
            r.action matches Action::Submit(u) ==> event matches Event::SnapshotRead(s) && u@
                == synthesized(s, old(self).config.wavelog_radio@, old(self).config.sat@),
    {
        let interval = self.config.interval;
        match self.phase {
            Phase::Connecting => match event {
                Event::Connected => {
                    self.phase = Phase::Syncing;
                    Step { action: Action::ReadSnapshot, notice: Notice::Quiet }
                },
                Event::ConnectFailed => {
                    self.phase = Phase::Stopped;
                    Step { action: Action::Exit, notice: Notice::Error }
                },
                _ => Step { action: Action::Connect, notice: Notice::Quiet },
            },
            Phase::Syncing => match event {
                Event::SnapshotRead(s) => {
                    let update = synthesize(&s, &self.config);
                    Step { action: Action::Submit(update), notice: Notice::Quiet }
                },
                Event::Connected | Event::Woke => Step {
                    action: Action::ReadSnapshot,
                    notice: Notice::Quiet,
                },
                Event::Submitted(accepted) => Step {
                    action: Action::Sleep(interval),
                    notice: if accepted {
                        Notice::Quiet
                    } else {
                        Notice::Warning
                    },
                },
                _ => Step { action: Action::Sleep(interval), notice: Notice::Error },
            },
            Phase::Stopped => Step { action: Action::Exit, notice: Notice::Quiet },
        }
    }
}

/// Once syncing, no event ends the loop: the phase stays `Syncing` and no
/// step asks to exit.
pub proof fn law_syncing_never_stops(e: Event)
    ensures
        next_phase(Phase::Syncing, e) == Phase::Syncing,
        !(next_kind(Phase::Syncing, e) is Exit),
{
}

/// A failed rig query abandons the cycle: nothing is submitted, the failure
/// is reported as an error, the loop pauses, and the wake-up starts a fresh
/// reading.
pub proof fn law_query_failure_skips_cycle()
    ensures
        next_kind(Phase::Syncing, Event::QueryFailed) is Sleep,
        next_notice(Phase::Syncing, Event::QueryFailed) == Notice::Error,
        next_phase(Phase::Syncing, Event::QueryFailed) == Phase::Syncing,
        next_kind(next_phase(Phase::Syncing, Event::QueryFailed), Event::Woke) is ReadSnapshot,
{
}

/// An update that Wavelog refuses is reported as a warning and the loop
/// pauses and goes on; one that cannot be sent is reported as an error, and
/// the loop goes on just the same.
pub proof fn law_submission_outcomes()
    ensures
        next_notice(Phase::Syncing, Event::Submitted(false)) == Notice::Warning,
        next_kind(Phase::Syncing, Event::Submitted(false)) is Sleep,
        next_notice(Phase::Syncing, Event::Submitted(true)) == Notice::Quiet,
        next_kind(Phase::Syncing, Event::Submitted(true)) is Sleep,
        next_notice(Phase::Syncing, Event::SubmitFailed) == Notice::Error,
        next_kind(Phase::Syncing, Event::SubmitFailed) is Sleep,
{
}

/// Only a complete reading leads to a submission.
pub proof fn law_submit_only_after_reading(p: Phase, e: Event)
    ensures
        next_kind(p, e) is Submit ==> p == Phase::Syncing && e is SnapshotRead,
{
}

} // verus!
