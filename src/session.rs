//! The lifecycle of one session: bootstrap from the first inbound message,
//! then run until the first of its three activities ends.
use vstd::prelude::*;

use crate::pump::{Inbound, InboundModel};

verus! {

/// The stage a session is in.
#[derive(Clone, Copy, Debug, PartialEq, Eq, Structural)]
pub enum Phase {
    /// Waiting for the first inbound message, which picks the command.
    Bootstrapping,
    /// The process runs and the three activities move data.
    Running,
    /// An activity has ended; the process has been told to stop.
    Terminating,
    /// The process and its terminal are released.
    Closed,
}

/// The three activities that run concurrently during a session.
#[derive(Clone, Copy, Debug, PartialEq, Eq, Structural)]
pub enum Activity {
    /// Applies client messages to the process.
    ClientToProcess,
    /// Turns process output into frames for the client.
    ProcessToClient,
    /// Sends queued frames to the client, one at a time.
    Writer,
}

/// The command, working directory and environment of the process to start.
#[derive(Clone, Debug, PartialEq, Eq)]
pub struct LaunchPlan {
    pub program: String,
    pub cwd: Option<String>,
    pub env: Vec<(String, String)>,
}

/// The shell started when the client names no command.
pub open spec fn default_program() -> Seq<char> {
    "/usr/bin/bash"@
}

/// The program a session starts, given its first inbound message: the text
/// of a text message, else the default shell.
pub open spec fn program_spec(first: Option<InboundModel>) -> Seq<char> {
    match first {
        Some(InboundModel::Text(cmd)) => cmd,
        _ => default_program(),
    }
}

/// The fixed environment that advertises a full-colour terminal.
pub open spec fn env_spec() -> Seq<(Seq<char>, Seq<char>)> {
    seq![("COLORTERM"@, "truecolor"@), ("TERM"@, "xterm-256color"@)]
}

pub open spec fn option_inbound_view(m: Option<Inbound>) -> Option<InboundModel> {
    match m {
        Some(i) => Some(i@),
        None => None,
    }
}

pub open spec fn option_string_view(s: Option<String>) -> Option<Seq<char>> {
    match s {
        Some(x) => Some(x@),
        None => None,
    }
}

impl LaunchPlan {
    /// The plan for a session whose first message was `first`, for a caller
    /// whose home directory is `home`.
    pub open spec fn is_plan_for(&self, first: Option<InboundModel>, home: Option<Seq<char>>) -> bool {
        &&& self.program@ == program_spec(first)
        &&& option_string_view(self.cwd) == home
        &&& self.env@.len() == env_spec().len()
        &&& forall|i: int|
            0 <= i < env_spec().len() ==> (#[trigger] self.env@[i]).0@ == env_spec()[i].0
                && self.env@[i].1@ == env_spec()[i].1
    }
}

/// Decides what to start for a session: the first inbound message selects
/// the command only when it is text, and is consumed either way.
pub fn launch_plan(first: Option<Inbound>, home: Option<String>) -> (r: LaunchPlan)
    ensures
        r.is_plan_for(option_inbound_view(first), option_string_view(home)),
{
    let program = match first {
        Some(Inbound::Text(cmd)) => cmd,
        _ => "/usr/bin/bash".to_owned(),
    };
    let mut env: Vec<(String, String)> = Vec::with_capacity(2);
    env.push(("COLORTERM".to_owned(), "truecolor".to_owned()));
    env.push(("TERM".to_owned(), "xterm-256color".to_owned()));
    LaunchPlan { program, cwd: home, env }
}

/// The state of one session.
#[derive(Clone, Copy, Debug, PartialEq, Eq, Structural)]
pub struct Session {
    pub phase: Phase,
    pub stop_signals: u64,
}

impl Session {
    pub open spec fn phase_spec(&self) -> Phase {
        self.phase
    }

    /// How many times the process has been told to stop.
    pub open spec fn stop_signals_spec(&self) -> nat {
        self.stop_signals as nat
    }

    /// The process is told to stop once, on leaving `Running`, and never
    /// before.
    pub open spec fn wf(&self) -> bool {
        &&& self.stop_signals <= 1
        &&& (self.phase == Phase::Bootstrapping || self.phase == Phase::Running) ==> self.stop_signals
            == 0
        &&& self.phase == Phase::Terminating ==> self.stop_signals == 1
    }

    /// The session after `_which` ended, and whether the process must be
    /// told to stop now. Every activity ends the session the same way.
    pub open spec fn ended(self, _which: Activity) -> (Session, bool) {
        if self.phase == Phase::Running {
            (Session { phase: Phase::Terminating, stop_signals: (self.stop_signals + 1) as u64 }, true)
        } else {
            (self, false)
        }
    }

    /// The session once released.
    pub open spec fn closed(self) -> Session {
        Session { phase: Phase::Closed, ..self }
    }

    /// A session waiting for its first message.
    pub fn new() -> (r: Session)
        ensures
            r.wf(),
            r.phase_spec() == Phase::Bootstrapping,
            r.stop_signals_spec() == 0,
    {
        Session { phase: Phase::Bootstrapping, stop_signals: 0 }
    }

    pub fn phase(&self) -> (r: Phase)
        ensures
            r == self.phase_spec(),
    {
        self.phase
    }

    pub fn stop_signals(&self) -> (r: u64)
        ensures
            r == self.stop_signals_spec(),
    {
        self.stop_signals
    }

    /// Consumes the first inbound message (or its absence) and returns what
    /// to start; the session is then running.
    pub fn bootstrap(&mut self, first: Option<Inbound>, home: Option<String>) -> (r: LaunchPlan)
        requires
            old(self).wf(),
            old(self).phase_spec() == Phase::Bootstrapping,
        ensures
            final(self).wf(),
            final(self).phase_spec() == Phase::Running,
            final(self).stop_signals_spec() == old(self).stop_signals_spec(),
            r.is_plan_for(option_inbound_view(first), option_string_view(home)),
    {
        let plan = launch_plan(first, home);
        self.phase = Phase::Running;
        plan
    }

    /// Records that `which` ended. Returns whether the process must be told
    /// to stop now: only the first end of a running session does so.
    pub fn end_activity(&mut self, which: Activity) -> (signal: bool)
        requires
            old(self).wf(),
        ensures
            final(self).wf(),
            (*final(self), signal) == old(self).ended(which),
    {
        if self.phase == Phase::Running {
            self.phase = Phase::Terminating;
            self.stop_signals = self.stop_signals + 1;
            true
        } else {
            false
        }
    }

    /// Releases the session: after a failed start, or once terminating.
    pub fn close(&mut self)
        requires
            old(self).wf(),
        ensures
            final(self).wf(),
            *final(self) == old(self).closed(),
    {
        self.phase = Phase::Closed;
    }
}

/// When the inbound stream of a running session ends, the session reaches
/// `Closed` with the process told to stop exactly once; no activity that
/// ends afterwards tells it again.
pub proof fn lemma_inbound_end_stops_once(s: Session)
    requires
        s.wf(),
        s.phase_spec() == Phase::Running,
    ensures
        s.ended(Activity::ClientToProcess).1,
        s.ended(Activity::ClientToProcess).0.closed().phase_spec() == Phase::Closed,
        s.ended(Activity::ClientToProcess).0.closed().stop_signals_spec() == 1,
        forall|a: Activity| !(#[trigger] s.ended(Activity::ClientToProcess).0.ended(a).1),
        forall|a: Activity| !(#[trigger] s.ended(Activity::ClientToProcess).0.closed().ended(a).1),
{
}

/// A first message that is not text starts the default shell, and the
/// session starts exactly as if no message had come: a binary frame sent
/// first never reaches the process.
pub proof fn lemma_first_binary_frame_is_dropped(raw: Seq<u8>, home: Option<Seq<char>>, plan: LaunchPlan)
    requires
        plan.is_plan_for(Some(InboundModel::Binary(raw)), home),
    ensures
        plan.program@ == default_program(),
        plan.is_plan_for(None, home),
{
}

} // verus!
