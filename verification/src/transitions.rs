//! Device state transitions: each high-level operation is a fixed sequence
//! of device commands, executed one at a time through a session that stops
//! at the first failure and propagates it unchanged.

use vstd::prelude::*;
use crate::command::{DeviceCommand, FailureDetail, spec_cmd_args};
use crate::text::dec_rep;

verus! {

/// One high-level operation against the device.
#[derive(Clone, Copy, PartialEq, Eq, Debug)]
pub enum Operation {
    /// Plain off.
    TurnOff,
    /// Plain on, with auto-off disabled.
    TurnOnPlain,
    /// On, then auto-off after the given number of minutes.
    TurnOnTimed(u32),
    /// Reconfigure auto-off alone: optionally set the minutes first, then
    /// enable or disable the feature.
    SetAutoOff(bool, Option<u32>),
}

/// The commands that reconfigure auto-off: the minutes first when given,
/// then the enable/disable switch.
pub open spec fn auto_off_cmds(enabled: bool, minutes: Option<u32>) -> Seq<DeviceCommand> {
    (match minutes {
        Some(m) => seq![DeviceCommand::SetAutoOffMinutes(m)],
        None => Seq::<DeviceCommand>::empty(),
    }) + seq![DeviceCommand::SetAutoOffEnabled(enabled)]
}

/// The full command sequence of an operation, in issue order.
pub open spec fn spec_plan(op: Operation) -> Seq<DeviceCommand> {
    match op {
        Operation::TurnOff => seq![DeviceCommand::Off],
        Operation::TurnOnPlain => seq![DeviceCommand::On] + auto_off_cmds(false, None),
        Operation::TurnOnTimed(m) => seq![DeviceCommand::On] + auto_off_cmds(true, Some(m)),
        Operation::SetAutoOff(enabled, minutes) => auto_off_cmds(enabled, minutes),
    }
}

/// The argument vectors an operation issues, in order.
pub open spec fn spec_op_tokens(op: Operation) -> Seq<Seq<Seq<char>>> {
    spec_plan(op).map_values(|c: DeviceCommand| spec_cmd_args(c))
}

/// Builds the command sequence of an operation.
pub fn plan(op: &Operation) -> (r: Vec<DeviceCommand>)
    ensures
        r@ == spec_plan(*op),
{
    let mut r: Vec<DeviceCommand> = Vec::new();
    match op {
        Operation::TurnOff => {
            r.push(DeviceCommand::Off);
        },
        Operation::TurnOnPlain => {
            r.push(DeviceCommand::On);
            r.push(DeviceCommand::SetAutoOffEnabled(false));
        },
        Operation::TurnOnTimed(m) => {
            r.push(DeviceCommand::On);
            r.push(DeviceCommand::SetAutoOffMinutes(*m));
            r.push(DeviceCommand::SetAutoOffEnabled(true));
        },
        Operation::SetAutoOff(enabled, minutes) => {
            if let Some(m) = minutes {
                r.push(DeviceCommand::SetAutoOffMinutes(*m));
            }
            r.push(DeviceCommand::SetAutoOffEnabled(*enabled));
        },
    }
    proof {
        assert(r@ =~= spec_plan(*op));
    }
    r
}

/// A timed turn-on issues exactly: on, then the minutes, then the enable —
/// in that order.
pub proof fn lemma_turn_on_timed_plan(m: u32)
    ensures
        spec_plan(Operation::TurnOnTimed(m)) =~= seq![
            DeviceCommand::On,
            DeviceCommand::SetAutoOffMinutes(m),
            DeviceCommand::SetAutoOffEnabled(true),
        ],
        spec_op_tokens(Operation::TurnOnTimed(m)) =~~= seq![
            seq!["on"@],
            seq!["feature"@, "auto_off_minutes"@, dec_rep(m as int)],
            seq!["feature"@, "auto_off_enabled"@, "True"@],
        ],
{
}

/// A plain turn-on issues exactly: on, then the auto-off disable; a plain
/// turn-off issues the single off command.
pub proof fn lemma_plain_plans()
    ensures
        spec_plan(Operation::TurnOnPlain) =~= seq![
            DeviceCommand::On,
            DeviceCommand::SetAutoOffEnabled(false),
        ],
        spec_op_tokens(Operation::TurnOnPlain) =~~= seq![
            seq!["on"@],
            seq!["feature"@, "auto_off_enabled"@, "False"@],
        ],
        spec_plan(Operation::TurnOff) =~= seq![DeviceCommand::Off],
        spec_op_tokens(Operation::TurnOff) =~~= seq![seq!["off"@]],
{
}

/// One run of an operation: commands are handed out one at a time, each
/// result is recorded, and the first failure ends the run with every later
/// command left unissued.
pub struct OpSession {
    plan: Vec<DeviceCommand>,
    next: usize,
    failure: Option<FailureDetail>,
    results: Ghost<Seq<bool>>,
}

impl OpSession {
    /// The command sequence this session works through.
    pub closed spec fn planned(self) -> Seq<DeviceCommand> {
        self.plan@
    }

    /// How many commands have been attempted so far.
    pub closed spec fn attempted(self) -> int {
        self.next as int
    }

    /// The recorded failure, if any step has failed.
    pub closed spec fn failed(self) -> Option<FailureDetail> {
        self.failure
    }

    /// The success/failure of every attempted command, in issue order.
    pub closed spec fn outcomes(self) -> Seq<bool> {
        self.results@
    }

    /// Internal consistency: one recorded outcome per attempted command,
    /// attempts never pass the plan's end, every outcome before the last
    /// is a success, and the run has failed exactly when the last outcome
    /// is a failure.
    pub closed spec fn wf(self) -> bool {
        &&& self.next <= self.plan@.len()
        &&& self.results@.len() == self.next
        &&& (forall|i: int| 0 <= i < self.results@.len() - 1 ==> self.results@[i])
        &&& ((self.failure is Some) <==> (self.results@.len() > 0 && !self.results@.last()))
    }

    /// The run is over: either a step failed, or every command has been
    /// attempted.
    pub open spec fn done(self) -> bool {
        self.failed() is Some || self.attempted() == self.planned().len()
    }

    /// Starts a run of the given operation.
    pub fn new(op: &Operation) -> (s: Self)
        ensures
            s.wf(),
            s.planned() == spec_plan(*op),
            s.attempted() == 0,
            s.failed() is None,
            s.outcomes() == Seq::<bool>::empty(),
    {
        OpSession { plan: plan(op), next: 0, failure: None, results: Ghost(Seq::empty()) }
    }

    /// The next command to issue, or `None` once the run is over. After a
    /// failure no command is ever offered again.
    pub fn next_command(&self) -> (c: Option<DeviceCommand>)
        requires
            self.wf(),
        ensures
            match c {
                Some(cmd) => !self.done() && cmd == self.planned()[self.attempted()],
                None => self.done(),
            },
    {
        if self.failure.is_some() || self.next == self.plan.len() {
            None
        } else {
            Some(self.plan[self.next])
        }
    }

    /// Records the result of the command last handed out. A success moves
    /// on to the next command; a failure is kept verbatim and ends the run.
    pub fn record(&mut self, r: Result<(), FailureDetail>)
        requires
            old(self).wf(),
            !old(self).done(),
        ensures
            final(self).wf(),
            final(self).planned() == old(self).planned(),
            final(self).attempted() == old(self).attempted() + 1,
            final(self).outcomes() == old(self).outcomes().push(r is Ok),
            r is Ok ==> final(self).failed() is None,
            r matches Err(e) ==> final(self).failed() == Some(e),
            r is Err ==> final(self).done(),
    {
        let n = self.plan.len();
        proof {
            assert(self.next < n);
        }
        self.next = self.next + 1;
        let ok = r.is_ok();
        self.results = Ghost(self.results@.push(ok));
        if let Err(e) = r {
            self.failure = Some(e);
        }
    }

    /// Whether the run is over.
    pub fn is_done(&self) -> (b: bool)
        requires
            self.wf(),
        ensures
            b == self.done(),
    {
        self.failure.is_some() || self.next == self.plan.len()
    }

    /// The run's outcome: the first failure verbatim, or success exactly
    /// when every attempted command succeeded.
    pub fn into_outcome(self) -> (r: Result<(), FailureDetail>)
        requires
            self.wf(),
            self.done(),
        ensures
            self.failed() matches Some(e) ==> r == Err::<(), FailureDetail>(e),
            self.failed() is None ==> r == Ok::<(), FailureDetail>(()),
            (r is Ok) <==> self.failed() is None,
            (r is Ok) <==> (forall|i: int| 0 <= i < self.outcomes().len() ==> self.outcomes()[i]),
    {
        proof {
            if self.failure is Some {
                assert(!self.outcomes()[self.outcomes().len() - 1]);
            }
        }
        match self.failure {
            Some(e) => Err(e),
            None => Ok(()),
        }
    }
}

/// Fail-fast, over a whole run: the session attempts one command per
/// recorded outcome and never more than the plan holds; every outcome
/// before the last is a success, so the first failure is always the last
/// command attempted; and a session holds a failure exactly when its last
/// outcome is one, in which case the run is over and no further command is
/// ever issued.
pub proof fn lemma_short_circuit(s: OpSession)
    requires
        s.wf(),
    ensures
        s.attempted() == s.outcomes().len(),
        0 <= s.attempted() <= s.planned().len(),
        forall|i: int| 0 <= i < s.outcomes().len() - 1 ==> s.outcomes()[i],
        (s.failed() is Some) <==> (s.outcomes().len() > 0 && !s.outcomes().last()),
        s.failed() is Some ==> s.done(),
{
}

} // verus!
