//! Ready-made binding routines driven by plain settings, which count the calls they get,
//! and a payload that counts its executions.
use vstd::prelude::*;
use crate::binding::{BindingError, BindingHooks, HookCall, outcome};
use crate::command::{CustomCmd, PayloadCall};
use crate::event_type::Event;
use crate::fsm::TransitionRoutines;
use crate::interaction::InteractionData;

verus! {

/// A payload that counts its mementos and executions; it may run while it is enabled.
pub struct CountingCmd {
    pub enabled: bool,
    mementos: u64,
    runs: u64,
    trace: Ghost<Seq<PayloadCall>>,
}

impl CountingCmd {
    pub fn new(enabled: bool) -> (r: CountingCmd)
        ensures
            r.executable() == enabled,
            r.payload_calls() == Seq::<PayloadCall>::empty(),
    {
        CountingCmd { enabled, mementos: 0, runs: 0, trace: Ghost(Seq::empty()) }
    }

    /// How many mementos were taken, saturated at the largest value.
    pub fn memento_count(&self) -> u64 {
        self.mementos
    }

    /// How many times the payload ran, saturated at the largest value.
    pub fn run_count(&self) -> u64 {
        self.runs
    }
}

impl CustomCmd for CountingCmd {
    closed spec fn executable(&self) -> bool {
        self.enabled
    }

    closed spec fn payload_calls(&self) -> Seq<PayloadCall> {
        self.trace@
    }

    fn create_memento(&mut self) {
        if self.mementos < u64::MAX {
            self.mementos = self.mementos + 1;
        }
        self.trace = Ghost(self.trace@.push(PayloadCall::Memento));
    }

    fn can_execute(&self) -> (r: bool) {
        self.enabled
    }

    fn execution(&mut self) {
        if self.runs < u64::MAX {
            self.runs = self.runs + 1;
        }
        self.trace = Ghost(self.trace@.push(PayloadCall::Execution));
    }
}

fn bump(n: u64) -> (r: u64)
    ensures
        r == if n < u64::MAX { n + 1 } else { n as int },
{
    if n < u64::MAX {
        n + 1
    } else {
        n
    }
}

/// Routines that answer from their settings and count how often each one ran.
pub struct RecordingHooks {
    /// The answers of the `when` predicates, in order.
    pub whens: Vec<bool>,
    /// When set, `produce` raises this code.
    pub produce_fails: Option<u64>,
    /// When set, `first` raises this code.
    pub first_fails: Option<u64>,
    /// Whether the produced payloads may run.
    pub command_enabled: bool,
    pub firsts: u64,
    pub produced: u64,
    pub ends: u64,
    pub effects: u64,
    pub no_effects: u64,
    pub cannot: u64,
    /// The errors received by `catch`, in order.
    pub caught: Vec<BindingError>,
    calls: Ghost<Seq<HookCall>>,
}

impl RecordingHooks {
    /// Routines with no predicate that never raise and produce enabled payloads.
    pub fn new() -> (r: RecordingHooks)
        ensures
            r.trace() == Seq::<HookCall>::empty(),
    {
        RecordingHooks {
            whens: Vec::new(),
            produce_fails: None,
            first_fails: None,
            command_enabled: true,
            firsts: 0,
            produced: 0,
            ends: 0,
            effects: 0,
            no_effects: 0,
            cannot: 0,
            caught: Vec::new(),
            calls: Ghost(Seq::empty()),
        }
    }
}

impl BindingHooks<CountingCmd, i64> for RecordingHooks {
    closed spec fn trace(&self) -> Seq<HookCall> {
        self.calls@
    }

    fn fresh_accumulator(&mut self) -> (r: i64) {
        self.calls = Ghost(self.calls@.push(HookCall::Fresh));
        0
    }

    fn first(&mut self, data: &InteractionData, acc: &mut i64) -> (r: Result<(), u64>) {
        self.firsts = bump(self.firsts);
        let r = match self.first_fails {
            Some(c) => Err(c),
            None => Ok(()),
        };
        self.calls = Ghost(self.calls@.push(HookCall::First(r)));
        r
    }

    closed spec fn predicates(&self) -> nat {
        self.whens@.len()
    }

    fn when_count(&self) -> (r: usize) {
        self.whens.len()
    }

    fn when(&mut self, i: usize, data: &InteractionData, acc: &i64) -> (r: Result<bool, u64>) {
        let r = if i < self.whens.len() {
            Ok(self.whens[i])
        } else {
            Ok(true)
        };
        self.calls = Ghost(self.calls@.push(HookCall::When(i, r)));
        r
    }

    fn produce(&mut self, data: &InteractionData, acc: &i64) -> (r: Result<CountingCmd, u64>) {
        let r = match self.produce_fails {
            Some(c) => Err(c),
            None => {
                self.produced = bump(self.produced);
                Ok(CountingCmd::new(self.command_enabled))
            },
        };
        self.calls = Ghost(self.calls@.push(HookCall::Produce(outcome(r))));
        r
    }

    fn had_effects(&mut self, cmd: &CountingCmd, data: &InteractionData, acc: &mut i64) -> (r: Result<(), u64>) {
        self.effects = bump(self.effects);
        self.calls = Ghost(self.calls@.push(HookCall::HadEffects(Ok(()))));
        Ok(())
    }

    fn had_no_effect(&mut self, cmd: &CountingCmd, data: &InteractionData, acc: &mut i64) -> (r: Result<(), u64>) {
        self.no_effects = bump(self.no_effects);
        self.calls = Ghost(self.calls@.push(HookCall::HadNoEffect(Ok(()))));
        Ok(())
    }

    fn cannot_execute(&mut self, cmd: &CountingCmd, data: &InteractionData, acc: &mut i64) -> (r: Result<(), u64>) {
        self.cannot = bump(self.cannot);
        self.calls = Ghost(self.calls@.push(HookCall::CannotExecute(Ok(()))));
        Ok(())
    }

    fn end(&mut self, data: &InteractionData, acc: &mut i64) -> (r: Result<(), u64>) {
        self.ends = bump(self.ends);
        self.calls = Ghost(self.calls@.push(HookCall::End(Ok(()))));
        Ok(())
    }

    fn catch(&mut self, err: BindingError) {
        self.caught.push(err);
        self.calls = Ghost(self.calls@.push(HookCall::Catch(err)));
    }
}

/// User guards that answer from a table, and user actions that are listed as they run.
pub struct ScriptedGuards {
    /// The answer of guard `i`; guards beyond the table hold.
    pub answers: Vec<Result<bool, u64>>,
    /// The ids of the actions run, in order.
    pub actions_run: Vec<u64>,
    done: Ghost<Seq<(u64, Event)>>,
}

impl ScriptedGuards {
    pub fn new(answers: Vec<Result<bool, u64>>) -> (r: ScriptedGuards)
        ensures
            r.performed() == Seq::<(u64, Event)>::empty(),
    {
        ScriptedGuards { answers, actions_run: Vec::new(), done: Ghost(Seq::empty()) }
    }
}

impl TransitionRoutines for ScriptedGuards {
    closed spec fn answer(&self, id: u64, e: Event, data: Seq<Event>) -> Result<bool, u64> {
        if id < self.answers@.len() {
            self.answers@[id as int]
        } else {
            Ok(true)
        }
    }

    closed spec fn performed(&self) -> Seq<(u64, Event)> {
        self.done@
    }

    fn guard(&self, id: u64, e: &Event, data: &Vec<Event>) -> (r: Result<bool, u64>) {
        if id < self.answers.len() as u64 {
            self.answers[id as usize]
        } else {
            Ok(true)
        }
    }

    fn action(&mut self, id: u64, e: &Event, data: &Vec<Event>) {
        self.actions_run.push(id);
        self.done = Ghost(self.done@.push((id, *e)));
    }
}

} // verus!
