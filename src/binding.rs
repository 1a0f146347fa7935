//! A binding: it turns the lifecycle of an interaction into the creation, execution,
//! cancellation and completion of commands.
use vstd::prelude::*;
use crate::checker::{RuleName, Severity, severity_in, severity_of};
use crate::command::{Cmd, CmdStatus, CommandFlushed, CustomCmd, PayloadCall};
use crate::event_type::Event;
use crate::fsm::{
    FsmView, Notification, Step, TransitionRoutines, UseAfterUninstall, actions_of, answers_of, after, after_timeout, reset, step_of, timeout_step,
};
use crate::interaction::{Interaction, InteractionData, InteractionView, data_after};
use crate::throttle::{offer_next, offer_out};

verus! {

/// An error reported to the `catch` routine of a binding.
#[derive(PartialEq, Eq, Structural, Clone, Copy, Debug)]
pub enum BindingError {
    /// A guard raised the given code while the machine processed an event.
    GuardEvaluation(u64),
    /// A routine of the binding raised the given code.
    Hook(u64),
}

/// A call of a binding routine, with what it returned.
pub enum HookCall {
    Fresh,
    First(Result<(), u64>),
    When(usize, Result<bool, u64>),
    Produce(Result<(), u64>),
    CannotExecute(Result<(), u64>),
    HadEffects(Result<(), u64>),
    HadNoEffect(Result<(), u64>),
    End(Result<(), u64>),
    Catch(BindingError),
}

/// Whether a routine returned normally, forgetting the value it returned.
pub open spec fn outcome<V>(r: Result<V, u64>) -> Result<(), u64> {
    match r {
        Ok(_) => Ok(()),
        Err(c) => Err(c),
    }
}

/// The routines that a binding runs; `T` is the command payload and `A` the accumulator.
/// Each routine adds its own call to `trace`; the binding is correct whatever they return.
pub trait BindingHooks<T, A> {
    /// The routine calls made so far, in order.
    spec fn trace(&self) -> Seq<HookCall>;

    /// The accumulator at the start of a run.
    fn fresh_accumulator(&mut self) -> (r: A)
        ensures
            final(self).trace() == old(self).trace().push(HookCall::Fresh),
    ;

    /// Runs once when a run starts.
    fn first(&mut self, data: &InteractionData, acc: &mut A) -> (r: Result<(), u64>)
        ensures
            final(self).trace() == old(self).trace().push(HookCall::First(r)),
    ;

    /// The number of `when` predicates.
    spec fn predicates(&self) -> nat;

    fn when_count(&self) -> (r: usize)
        ensures
            r == self.predicates(),
    ;

    /// Predicate `i`: whether the command may be produced or executed at this step.
    fn when(&mut self, i: usize, data: &InteractionData, acc: &A) -> (r: Result<bool, u64>)
        ensures
            final(self).trace() == old(self).trace().push(HookCall::When(i, r)),
    ;

    /// Produces the command payload of the run.
    fn produce(&mut self, data: &InteractionData, acc: &A) -> (r: Result<T, u64>)
        ensures
            final(self).trace() == old(self).trace().push(HookCall::Produce(outcome(r))),
    ;

    /// Runs after the command was executed and marked as done.
    fn had_effects(&mut self, cmd: &T, data: &InteractionData, acc: &mut A) -> (r: Result<(), u64>)
        ensures
            final(self).trace() == old(self).trace().push(HookCall::HadEffects(r)),
    ;

    /// Runs after the command ended without having had an effect.
    fn had_no_effect(&mut self, cmd: &T, data: &InteractionData, acc: &mut A) -> (r: Result<(), u64>)
        ensures
            final(self).trace() == old(self).trace().push(HookCall::HadNoEffect(r)),
    ;

    /// Runs when the command could not be executed or was cancelled.
    fn cannot_execute(&mut self, cmd: &T, data: &InteractionData, acc: &mut A) -> (r: Result<(), u64>)
        ensures
            final(self).trace() == old(self).trace().push(HookCall::CannotExecute(r)),
    ;

    /// Runs at each end of a run.
    fn end(&mut self, data: &InteractionData, acc: &mut A) -> (r: Result<(), u64>)
        ensures
            final(self).trace() == old(self).trace().push(HookCall::End(r)),
    ;

    /// Receives the errors raised during a run.
    fn catch(&mut self, err: BindingError)
        ensures
            final(self).trace() == old(self).trace().push(HookCall::Catch(err)),
    ;
}

/// The answers of the `when` predicates at one step: `count` predicates, evaluated in
/// order until one does not hold.
pub struct WhenRecord {
    pub count: nat,
    pub answers: Seq<Result<bool, u64>>,
}

/// The predicates were asked in order, and the evaluation stopped at the first one that
/// did not answer true.
pub open spec fn evaluated_in_order(w: WhenRecord) -> bool {
    &&& w.answers.len() <= w.count
    &&& forall|i: int| 0 <= i < w.answers.len() - 1 ==> w.answers[i] == Ok::<bool, u64>(true)
    &&& w.answers.len() < w.count ==> w.answers.len() > 0 && w.answers.last() != Ok::<bool, u64>(true)
}

/// What the predicates amount to: true when all of them hold, else the answer of the
/// first that did not.
pub open spec fn conjunction(w: WhenRecord) -> Result<bool, u64> {
    if w.answers.len() == w.count && forall|i: int|
        0 <= i < w.answers.len() ==> w.answers[i] == Ok::<bool, u64>(true) {
        Ok(true)
    } else {
        w.answers.last()
    }
}

/// The routines a binding ran while handling one step, with what each returned.
pub struct Reaction {
    pub notification: Notification,
    pub first: Option<Result<(), u64>>,
    pub whens: Option<WhenRecord>,
    pub produce: Option<Result<(), u64>>,
    pub cannot_execute: Option<Result<(), u64>>,
    pub had_effects: Option<Result<(), u64>>,
    pub had_no_effect: Option<Result<(), u64>>,
    pub end: Option<Result<(), u64>>,
    /// The errors of the routines above handed to `catch`, in order.
    pub caught: Seq<BindingError>,
    /// The guard error handed to `catch` last, if any.
    pub guard_error: Option<u64>,
}

/// A reaction in which no routine ran yet.
pub open spec fn blank(n: Notification) -> Reaction {
    Reaction {
        notification: n,
        first: None,
        whens: None,
        produce: None,
        cannot_execute: None,
        had_effects: None,
        had_no_effect: None,
        end: None,
        caught: Seq::empty(),
        guard_error: None,
    }
}

/// The error that a routine result hands to `catch`, if any.
pub open spec fn catches(r: Option<Result<(), u64>>) -> Seq<BindingError> {
    match r {
        Some(Err(c)) => seq![BindingError::Hook(c)],
        _ => Seq::empty(),
    }
}

/// A routine call followed by the `catch` of its error, if it raised.
pub open spec fn reported(call: HookCall, r: Result<(), u64>) -> Seq<HookCall> {
    match r {
        Ok(()) => seq![call],
        Err(c) => seq![call, HookCall::Catch(BindingError::Hook(c))],
    }
}

/// The `when` calls of a record, then the `catch` of the error that stopped them, if any.
pub open spec fn when_calls(w: WhenRecord) -> Seq<HookCall> {
    Seq::new(w.answers.len(), |i: int| HookCall::When(i as usize, w.answers[i])) + match conjunction(w) {
        Err(c) => seq![HookCall::Catch(BindingError::Hook(c))],
        _ => Seq::<HookCall>::empty(),
    }
}

/// The routine calls that reaction `rx` stands for, in the order the binding makes them:
/// those of the notification, then the `catch` of a guard error.
pub open spec fn calls_of(rx: Reaction) -> Seq<HookCall> {
    stage_calls(rx) + match rx.guard_error {
        Some(c) => seq![HookCall::Catch(BindingError::GuardEvaluation(c))],
        None => Seq::<HookCall>::empty(),
    }
}

/// The routine calls made while handling the notification of reaction `rx`.
pub open spec fn stage_calls(rx: Reaction) -> Seq<HookCall> {
    (match rx.first {
        Some(r) => seq![HookCall::Fresh] + reported(HookCall::First(r), r),
        None => Seq::empty(),
    }) + (match rx.whens {
        Some(w) => when_calls(w),
        None => Seq::empty(),
    }) + (match rx.produce {
        Some(r) => reported(HookCall::Produce(r), r),
        None => Seq::empty(),
    }) + (match rx.cannot_execute {
        Some(r) => reported(HookCall::CannotExecute(r), r),
        None => Seq::empty(),
    }) + (match rx.had_effects {
        Some(r) => reported(HookCall::HadEffects(r), r),
        None => Seq::empty(),
    }) + (match rx.had_no_effect {
        Some(r) => reported(HookCall::HadNoEffect(r), r),
        None => Seq::empty(),
    }) + (match rx.end {
        Some(r) => reported(HookCall::End(r), r),
        None => Seq::empty(),
    })
}

/// The payload calls that finishing command `c0` adds: executing it when `ran`.
pub open spec fn final_calls<T: CustomCmd>(c0: Cmd<T>, ran: bool) -> Seq<PayloadCall> {
    if !ran {
        c0.calls()
    } else if c0.status() == CmdStatus::Created {
        c0.calls() + seq![PayloadCall::Memento, PayloadCall::Execution]
    } else {
        c0.calls().push(PayloadCall::Execution)
    }
}

/// `n + 1`, saturated at the largest counter value.
pub open spec fn bump(n: nat) -> nat {
    if n < usize::MAX {
        n + 1
    } else {
        n
    }
}

/// Between the end or the cancellation of a run and the start of the next one, the
/// interaction is not running and the binding holds no command.
pub proof fn no_command_between_runs<T: CustomCmd, A, H: BindingHooks<T, A>>(b: Binding<T, A, H>)
    requires
        b.wf(),
        !b.interaction_view().fsm.started,
    ensures
        b.command() is None,
{
}

/// The binding of an interaction to the production of commands.
pub struct Binding<T: CustomCmd, A, H: BindingHooks<T, A>> {
    name: String,
    interaction: Interaction,
    hooks: H,
    acc: A,
    cmd: Option<Cmd<T>>,
    continuous: bool,
    times_ended: usize,
    times_cancelled: usize,
    history: Vec<Cmd<T>>,
    linter_rules: Vec<(RuleName, Severity)>,
    reactions: Ghost<Seq<Reaction>>,
    rx: Ghost<Reaction>,
}

impl<T: CustomCmd, A, H: BindingHooks<T, A>> Binding<T, A, H> {
    pub closed spec fn interaction_view(&self) -> InteractionView {
        self.interaction@
    }

    pub closed spec fn label(&self) -> Seq<char> {
        self.name@
    }

    pub closed spec fn acc(&self) -> A {
        self.acc
    }

    pub closed spec fn routines(&self) -> H {
        self.hooks
    }

    /// The command of the run in progress.
    pub closed spec fn command(&self) -> Option<Cmd<T>> {
        self.cmd
    }

    pub closed spec fn ended(&self) -> nat {
        self.times_ended as nat
    }

    pub closed spec fn cancelled(&self) -> nat {
        self.times_cancelled as nat
    }

    /// The commands handed to the undo history.
    pub closed spec fn history(&self) -> Seq<Cmd<T>> {
        self.history@
    }

    pub closed spec fn continuous(&self) -> bool {
        self.continuous
    }

    pub closed spec fn rules(&self) -> Seq<(RuleName, Severity)> {
        self.linter_rules@
    }

    /// The reactions to the steps handled so far, one per step, in order.
    pub closed spec fn reactions(&self) -> Seq<Reaction> {
        self.reactions@
    }

    /// Nothing but the command changed, from `prev`, over interaction `iv`.
    pub open spec fn kept(self, prev: Self, iv: InteractionView) -> bool {
        &&& self.interaction_view() == iv
        &&& self.ended() == prev.ended()
        &&& self.cancelled() == prev.cancelled()
        &&& self.history() == prev.history()
    }

    /// The run was cancelled because a routine raised: the machine is back at its initial
    /// state, the data is cleared, the command dropped, and one more cancellation counted.
    pub open spec fn aborted(self, prev: Self, iv: InteractionView) -> bool {
        &&& self.interaction_view() == (InteractionView { fsm: reset(iv.fsm), data: Seq::empty(), ..iv })
        &&& self.command() is None
        &&& self.ended() == prev.ended()
        &&& self.cancelled() == bump(prev.cancelled())
        &&& self.history() == prev.history()
    }

    /// How the binding stands after reacting, by `rx`, to notification `n`, compared with
    /// `prev`, over interaction `iv` as the step left it.
    pub open spec fn reaction_fits(self, prev: Self, rx: Reaction, n: Notification, iv: InteractionView) -> bool {
        &&& rx.notification == n
        &&& n == Notification::Silent ==> {
            &&& rx == (Reaction { guard_error: rx.guard_error, ..blank(n) })
            &&& self.kept(prev, iv)
            &&& self.command() == prev.command()
        }
        &&& n == Notification::Starting ==> {
            &&& rx.first is Some
            &&& rx == (Reaction { first: rx.first, caught: rx.caught, guard_error: rx.guard_error, ..blank(n) })
            &&& rx.caught == catches(rx.first)
            &&& rx.first == Some(Ok::<(), u64>(())) ==> self.kept(prev, iv) && self.command() is None
            &&& rx.first matches Some(Err(_)) ==> self.aborted(prev, iv)
        }
        &&& n == Notification::Updating ==> {
            &&& rx.first is None && rx.had_effects is None && rx.had_no_effect is None && rx.end is None
            &&& rx.whens matches Some(w) && evaluated_in_order(w)
            &&& rx.whens->Some_0.count == prev.routines().predicates()
            &&& (rx.produce is Some <==> conjunction(rx.whens->Some_0) == Ok::<bool, u64>(true)
                && prev.command() is None)
            &&& conjunction(rx.whens->Some_0) != Ok::<bool, u64>(true) ==> rx.cannot_execute is None
            &&& conjunction(rx.whens->Some_0) matches Err(c) ==> self.aborted(prev, iv) && rx.caught
                == seq![BindingError::Hook(c)]
            &&& conjunction(rx.whens->Some_0) == Ok::<bool, u64>(false) ==> self.kept(prev, iv)
                && self.command() == prev.command() && rx.caught.len() == 0
            &&& rx.produce matches Some(Err(c)) ==> self.aborted(prev, iv) && rx.caught == seq![
                BindingError::Hook(c),
            ] && rx.cannot_execute is None
            &&& (conjunction(rx.whens->Some_0) == Ok::<bool, u64>(true) && !(rx.produce matches Some(
                Err(_),
            ))) ==> {
                &&& !prev.continuous() ==> {
                    &&& self.kept(prev, iv)
                    &&& rx.caught.len() == 0
                    &&& rx.cannot_execute is None
                    &&& prev.command() is Some ==> self.command() == prev.command()
                    &&& prev.command() is None ==> (self.command() matches Some(c1) && c1.fresh())
                }
                &&& prev.continuous() && rx.cannot_execute is None ==> {
                    &&& self.kept(prev, iv)
                    &&& rx.caught.len() == 0
                    &&& self.command() is Some
                    &&& prev.command() matches Some(c0) ==> Cmd::executes(
                        c0,
                        self.command()->Some_0,
                        Ok::<bool, CommandFlushed>(true),
                    )
                    &&& prev.command() is None ==> {
                        &&& self.command()->Some_0.status() == CmdStatus::Executed
                        &&& self.command()->Some_0.mementos() == 1
                        &&& self.command()->Some_0.calls() == seq![PayloadCall::Memento, PayloadCall::Execution]
                    }
                }
                &&& prev.continuous() && rx.cannot_execute is Some ==> {
                    &&& rx.caught == catches(rx.cannot_execute)
                    &&& prev.command() matches Some(c0) ==> !c0.payload().executable()
                    &&& rx.cannot_execute == Some(Ok::<(), u64>(())) ==> {
                        &&& self.kept(prev, iv)
                        &&& prev.command() is Some ==> self.command() == prev.command()
                        &&& prev.command() is None ==> (self.command() matches Some(c1) && c1.fresh()
                            && !c1.payload().executable())
                    }
                    &&& rx.cannot_execute matches Some(Err(_)) ==> self.aborted(prev, iv)
                }
            }
        }
        &&& n == Notification::Terminating ==> {
            &&& rx.first is None && rx.whens is None && rx.produce is None && rx.end is Some
            &&& self.interaction_view() == (InteractionView { data: Seq::empty(), ..iv })
            &&& self.command() is None
            &&& self.ended() == bump(prev.ended())
            &&& self.cancelled() == prev.cancelled()
            &&& prev.command() is None ==> {
                &&& rx.cannot_execute is None && rx.had_effects is None && rx.had_no_effect is None
                &&& self.history() == prev.history()
                &&& rx.caught == catches(rx.end)
            }
            &&& prev.command() matches Some(c0) ==> {
                let ran = !prev.continuous() || c0.status() == CmdStatus::Created;
                let ok = !ran || c0.payload().executable();
                &&& (rx.cannot_execute is Some <==> !ok)
                &&& (rx.had_effects is Some <==> ok)
                &&& (rx.had_no_effect is Some <==> !ok)
                &&& rx.caught == catches(rx.cannot_execute) + catches(rx.had_effects) + catches(
                    rx.had_no_effect,
                ) + catches(rx.end)
                &&& ok ==> {
                    &&& self.history().len() == prev.history().len() + 1
                    &&& self.history().drop_last() == prev.history()
                    &&& self.history().last().status() == CmdStatus::Flushed
                    &&& self.history().last().calls() == final_calls(c0, ran)
                }
                &&& !ok ==> self.history() == prev.history()
            }
        }
        &&& n == Notification::Cancelling ==> {
            &&& rx.first is None && rx.whens is None && rx.produce is None
            &&& rx.had_effects is None && rx.had_no_effect is None && rx.end is None
            &&& (rx.cannot_execute is Some <==> prev.command() is Some)
            &&& rx.caught == catches(rx.cannot_execute)
            &&& self.interaction_view() == (InteractionView { data: Seq::empty(), ..iv })
            &&& self.command() is None
            &&& self.cancelled() == bump(prev.cancelled())
            &&& self.ended() == prev.ended()
            &&& self.history() == prev.history()
        }
    }

    /// A command is held only while the interaction runs, and it is then live; the
    /// history holds flushed commands that had an effect.
    pub closed spec fn wf(&self) -> bool {
        &&& self.interaction.wf()
        &&& self.cmd matches Some(c) ==> {
            &&& self.interaction@.fsm.started
            &&& c.wf()
            &&& c.live()
        }
        &&& forall|i: int|
            0 <= i < self.history@.len() ==> (#[trigger] self.history@[i]).status()
                == CmdStatus::Flushed
    }

    pub fn new(
        name: String,
        interaction: Interaction,
        hooks: H,
        continuous: bool,
        linter_rules: Vec<(RuleName, Severity)>,
    ) -> (r: Self)
        requires
            interaction.wf(),
        ensures
            r.wf(),
            r.label() == name@,
            r.interaction_view() == interaction@,
            r.command() is None,
            r.ended() == 0,
            r.cancelled() == 0,
            r.history().len() == 0,
            r.continuous() == continuous,
            r.rules() == linter_rules@,
            r.reactions().len() == 0,
            r.routines().trace() == hooks.trace().push(HookCall::Fresh),
    {
        let mut hooks = hooks;
        let acc = hooks.fresh_accumulator();
        Binding {
            name,
            interaction,
            hooks,
            acc,
            cmd: None,
            continuous,
            times_ended: 0,
            times_cancelled: 0,
            history: Vec::new(),
            linter_rules,
            reactions: Ghost(Seq::empty()),
            rx: Ghost(blank(Notification::Silent)),
        }
    }

    pub fn name(&self) -> (r: &String)
        ensures
            r@ == self.label(),
    {
        &self.name
    }

    pub fn interaction(&self) -> (r: &Interaction)
        ensures
            r@ == self.interaction_view(),
    {
        &self.interaction
    }

    pub fn accumulator(&self) -> (r: &A)
        ensures
            *r == self.acc(),
    {
        &self.acc
    }

    pub fn hooks(&self) -> (r: &H)
        ensures
            *r == self.routines(),
    {
        &self.hooks
    }

    pub fn command_status(&self) -> (r: Option<CmdStatus>)
        ensures
            r == match self.command() {
                Some(c) => Some(c.status()),
                None => None::<CmdStatus>,
            },
    {
        match &self.cmd {
            Some(c) => Some(c.get_status()),
            None => None,
        }
    }

    pub fn times_ended(&self) -> (r: usize)
        ensures
            r == self.ended(),
    {
        self.times_ended
    }

    pub fn times_cancelled(&self) -> (r: usize)
        ensures
            r == self.cancelled(),
    {
        self.times_cancelled
    }

    pub fn history_len(&self) -> (r: usize)
        ensures
            r == self.history().len(),
    {
        self.history.len()
    }

    pub fn running(&self) -> (r: bool)
        ensures
            r == self.interaction_view().fsm.started,
    {
        self.interaction.is_running()
    }

    pub fn activated(&self) -> (r: bool)
        ensures
            r == self.interaction_view().activated,
    {
        self.interaction.is_activated()
    }

    pub fn continuous_cmd_execution(&self) -> (r: bool)
        ensures
            r == self.continuous(),
    {
        self.continuous
    }

    /// Whether the binding has a `when` predicate.
    pub fn is_when_defined(&self) -> (r: bool)
        ensures
            r == (self.routines().predicates() > 0),
    {
        self.hooks.when_count() > 0
    }

    /// The severity that the binding gives to a linter rule.
    pub fn linter_rule(&self, rule: RuleName) -> (r: Option<Severity>)
        ensures
            r == severity_in(self.rules(), rule),
    {
        severity_of(&self.linter_rules, rule)
    }

    fn bump_ended(&mut self)
        ensures
            final(self).times_ended == bump(old(self).times_ended as nat),
            final(self).times_cancelled == old(self).times_cancelled,
            final(self).interaction == old(self).interaction,
            final(self).cmd == old(self).cmd,
            final(self).history == old(self).history,
            final(self).reactions == old(self).reactions,
            final(self).rx == old(self).rx,
            final(self).continuous == old(self).continuous,
            final(self).hooks == old(self).hooks,
    {
        if self.times_ended < usize::MAX {
            self.times_ended = self.times_ended + 1;
        }
    }

    fn bump_cancelled(&mut self)
        ensures
            final(self).times_cancelled == bump(old(self).times_cancelled as nat),
            final(self).times_ended == old(self).times_ended,
            final(self).interaction == old(self).interaction,
            final(self).cmd == old(self).cmd,
            final(self).history == old(self).history,
            final(self).reactions == old(self).reactions,
            final(self).rx == old(self).rx,
            final(self).continuous == old(self).continuous,
            final(self).hooks == old(self).hooks,
    {
        if self.times_cancelled < usize::MAX {
            self.times_cancelled = self.times_cancelled + 1;
        }
    }

    /// Hands the error of a routine to `catch`.
    fn report(&mut self, code: u64)
        ensures
            final(self).rx@ == (Reaction { caught: old(self).rx@.caught.push(BindingError::Hook(code)), ..old(self).rx@ }),
            final(self).times_ended == old(self).times_ended,
            final(self).times_cancelled == old(self).times_cancelled,
            final(self).interaction == old(self).interaction,
            final(self).cmd == old(self).cmd,
            final(self).history == old(self).history,
            final(self).reactions == old(self).reactions,
            final(self).continuous == old(self).continuous,
            final(self).hooks.trace() == old(self).hooks.trace().push(HookCall::Catch(BindingError::Hook(code))),
    {
        self.hooks.catch(BindingError::Hook(code));
        self.rx = Ghost(Reaction { caught: self.rx@.caught.push(BindingError::Hook(code)), ..self.rx@ });
    }

    /// Cancels the run in progress after a routine raised `code`: the command, if any, is
    /// cancelled and flushed, the interaction is reinitialised and `catch` receives the error.
    fn abort_run(&mut self, code: u64)
        requires
            old(self).interaction.wf(),
            old(self).cmd matches Some(c) ==> c.wf() && c.live(),
            forall|i: int|
                0 <= i < old(self).history@.len() ==> (#[trigger] old(self).history@[i]).status()
                    == CmdStatus::Flushed,
        ensures
            final(self).wf(),
            final(self).reactions == old(self).reactions,
            final(self).continuous == old(self).continuous,
            final(self).aborted(*old(self), old(self).interaction@),
            final(self).rx@ == (Reaction { caught: old(self).rx@.caught.push(BindingError::Hook(code)), ..old(self).rx@ }),
            final(self).hooks.trace() == old(self).hooks.trace().push(HookCall::Catch(BindingError::Hook(code))),
    {
        let taken = self.cmd.take();
        match taken {
            Some(mut c) => {
                let _ = c.cancel();
                let _ = c.flush();
            },
            None => {},
        }
        self.interaction.reinit();
        self.bump_cancelled();
        self.report(code);
    }

    /// A run starts: a fresh accumulator, then the `first` routine.
    fn on_starting(&mut self)
        requires
            old(self).interaction.wf(),
            old(self).cmd matches Some(c) ==> c.wf() && c.live(),
            forall|i: int|
                0 <= i < old(self).history@.len() ==> (#[trigger] old(self).history@[i]).status()
                    == CmdStatus::Flushed,
            old(self).cmd is None,
            old(self).interaction@.fsm.started,
            old(self).rx@ == blank(Notification::Starting),
        ensures
            final(self).wf(),
            final(self).reactions == old(self).reactions,
            final(self).continuous == old(self).continuous,
            final(self).reaction_fits(*old(self), final(self).rx@, Notification::Starting, old(self).interaction@),
            final(self).hooks.trace() == old(self).hooks.trace() + calls_of(final(self).rx@),
            final(self).rx@.guard_error is None,
    {
        self.acc = self.hooks.fresh_accumulator();
        let r = self.hooks.first(self.interaction.data(), &mut self.acc);
        self.rx = Ghost(Reaction { first: Some(r), ..self.rx@ });
        match r {
            Ok(()) => {},
            Err(c) => self.abort_run(c),
        }
    }

    /// Asks the `when` predicates in order until one does not answer true.
    fn when_holds(&mut self) -> (r: Result<bool, u64>)
        ensures
            final(self).rx@ == (Reaction { whens: final(self).rx@.whens, ..old(self).rx@ }),
            final(self).rx@.whens matches Some(w) && evaluated_in_order(w) && r == conjunction(w),
            final(self).rx@.whens->Some_0.count == old(self).hooks.predicates(),
            final(self).times_ended == old(self).times_ended,
            final(self).times_cancelled == old(self).times_cancelled,
            final(self).interaction == old(self).interaction,
            final(self).cmd == old(self).cmd,
            final(self).history == old(self).history,
            final(self).reactions == old(self).reactions,
            final(self).continuous == old(self).continuous,
            final(self).hooks.trace() == old(self).hooks.trace() + Seq::new(
                final(self).rx@.whens->Some_0.answers.len(),
                |i: int| HookCall::When(i as usize, final(self).rx@.whens->Some_0.answers[i]),
            ),
    {
        let n = self.hooks.when_count();
        let ghost t0 = self.hooks.trace();
        let ghost mut answers: Seq<Result<bool, u64>> = Seq::empty();
        let mut i: usize = 0;
        while i < n
            invariant
                0 <= i <= n,
                answers.len() == i,
                forall|k: int| 0 <= k < i ==> answers[k] == Ok::<bool, u64>(true),
                t0 == old(self).hooks.trace(),
                n == old(self).hooks.predicates(),
                self.hooks.trace() == t0 + Seq::new(answers.len(), |k: int| HookCall::When(k as usize, answers[k])),
                self.interaction == old(self).interaction,
                self.cmd == old(self).cmd,
                self.times_ended == old(self).times_ended,
                self.times_cancelled == old(self).times_cancelled,
                self.history == old(self).history,
                self.reactions == old(self).reactions,
                self.rx == old(self).rx,
                self.continuous == old(self).continuous,
            decreases n - i,
        {
            let ghost before = answers;
            let a = self.hooks.when(i, self.interaction.data(), &self.acc);
            proof {
                answers = answers.push(a);
                assert(Seq::new(answers.len(), |k: int| HookCall::When(k as usize, answers[k])) =~= Seq::new(
                    before.len(),
                    |k: int| HookCall::When(k as usize, before[k]),
                ).push(HookCall::When(i, a)));
            }
            match a {
                Ok(true) => {},
                _ => {
                    let ghost w = WhenRecord { count: n as nat, answers };
                    self.rx = Ghost(Reaction { whens: Some(w), ..self.rx@ });
                    proof {
                        assert(answers.last() == a);
                        assert(self.hooks.trace() =~= old(self).hooks.trace() + Seq::new(
                            self.rx@.whens->Some_0.answers.len(),
                            |k: int| HookCall::When(k as usize, self.rx@.whens->Some_0.answers[k]),
                        ));
                    }
                    return a;
                },
            }
            i = i + 1;
        }
        let ghost w = WhenRecord { count: n as nat, answers };
        self.rx = Ghost(Reaction { whens: Some(w), ..self.rx@ });
        proof {
            assert(self.hooks.trace() =~= old(self).hooks.trace() + Seq::new(
                self.rx@.whens->Some_0.answers.len(),
                |k: int| HookCall::When(k as usize, self.rx@.whens->Some_0.answers[k]),
            ));
        }
        Ok(true)
    }

    /// A run makes progress: when the `when` predicates hold, the command is produced if
    /// there is none yet, and executed in continuous mode.
    fn on_updating(&mut self)
        requires
            old(self).interaction.wf(),
            old(self).cmd matches Some(c) ==> c.wf() && c.live(),
            forall|i: int|
                0 <= i < old(self).history@.len() ==> (#[trigger] old(self).history@[i]).status()
                    == CmdStatus::Flushed,
            old(self).interaction@.fsm.started,
            old(self).rx@ == blank(Notification::Updating),
        ensures
            final(self).wf(),
            final(self).reactions == old(self).reactions,
            final(self).continuous == old(self).continuous,
            final(self).reaction_fits(*old(self), final(self).rx@, Notification::Updating, old(self).interaction@),
            final(self).hooks.trace() == old(self).hooks.trace() + calls_of(final(self).rx@),
            final(self).rx@.guard_error is None,
    {
        match self.when_holds() {
            Err(c) => {
                self.abort_run(c);
                return ;
            },
            Ok(false) => {
                return ;
            },
            Ok(true) => {},
        }
        if self.cmd.is_none() {
            let p = self.hooks.produce(self.interaction.data(), &self.acc);
            match p {
                Ok(t) => {
                    self.rx = Ghost(Reaction { produce: Some(Ok(())), ..self.rx@ });
                    self.cmd = Some(Cmd::new(t));
                },
                Err(c) => {
                    self.rx = Ghost(Reaction { produce: Some(Err(c)), ..self.rx@ });
                    self.abort_run(c);
                    return ;
                },
            }
        }
        if self.continuous {
            let taken = self.cmd.take();
            match taken {
                Some(mut c) => {
                    let ok = match c.execute() {
                        Ok(b) => b,
                        Err(_) => false,
                    };
                    if !ok {
                        let r = self.hooks.cannot_execute(c.child(), self.interaction.data(), &mut self.acc);
                        self.rx = Ghost(Reaction { cannot_execute: Some(r), ..self.rx@ });
                        self.cmd = Some(c);
                        if let Err(code) = r {
                            self.abort_run(code);
                        }
                    } else {
                        self.cmd = Some(c);
                    }
                },
                None => {},
            }
        }
    }

    /// A run ends: the command is executed unless continuous execution already ran it,
    /// marked as done, and handed to the history when it had an effect.
    #[verifier::rlimit(60)]
    fn on_terminating(&mut self)
        requires
            old(self).interaction.wf(),
            old(self).cmd matches Some(c) ==> c.wf() && c.live(),
            forall|i: int|
                0 <= i < old(self).history@.len() ==> (#[trigger] old(self).history@[i]).status()
                    == CmdStatus::Flushed,
            !old(self).interaction@.fsm.started,
            old(self).rx@ == blank(Notification::Terminating),
        ensures
            final(self).wf(),
            final(self).reactions == old(self).reactions,
            final(self).continuous == old(self).continuous,
            final(self).reaction_fits(*old(self), final(self).rx@, Notification::Terminating, old(self).interaction@),
            final(self).hooks.trace() == old(self).hooks.trace() + calls_of(final(self).rx@),
            final(self).rx@.guard_error is None,
    {
        let ghost prev = *self;
        let taken = self.cmd.take();
        match taken {
            Some(mut c) => {
                let ghost c0 = c;
                let must_run = !self.continuous || c.get_status() == CmdStatus::Created;
                let ok = if must_run {
                    match c.execute() {
                        Ok(b) => b,
                        Err(_) => false,
                    }
                } else {
                    true
                };
                if ok {
                    let _ = c.done();
                } else {
                    let r = self.hooks.cannot_execute(c.child(), self.interaction.data(), &mut self.acc);
                    self.rx = Ghost(Reaction { cannot_execute: Some(r), ..self.rx@ });
                    if let Err(code) = r {
                        self.report(code);
                    }
                }
                proof {
                    assert(self.rx@.caught =~= catches(self.rx@.cannot_execute));
                    if ok {
                        assert(c.calls() == final_calls(c0, must_run));
                    }
                }
                let effect = c.had_effect();
                if effect {
                    let r = self.hooks.had_effects(c.child(), self.interaction.data(), &mut self.acc);
                    self.rx = Ghost(Reaction { had_effects: Some(r), ..self.rx@ });
                    if let Err(code) = r {
                        self.report(code);
                    }
                } else {
                    let r = self.hooks.had_no_effect(c.child(), self.interaction.data(), &mut self.acc);
                    self.rx = Ghost(Reaction { had_no_effect: Some(r), ..self.rx@ });
                    if let Err(code) = r {
                        self.report(code);
                    }
                }
                proof {
                    assert(self.rx@.caught =~= catches(self.rx@.cannot_execute) + catches(self.rx@.had_effects)
                        + catches(self.rx@.had_no_effect));
                }
                let _ = c.flush();
                if effect {
                    self.history.push(c);
                    proof {
                        assert(self.history@.drop_last() =~= prev.history@);
                    }
                }
            },
            None => {},
        }
        let ghost before_end = self.rx@.caught;
        let r = self.hooks.end(self.interaction.data(), &mut self.acc);
        self.rx = Ghost(Reaction { end: Some(r), ..self.rx@ });
        if let Err(code) = r {
            self.report(code);
        }
        proof {
            assert(self.rx@.caught =~= before_end + catches(self.rx@.end));
        }
        self.bump_ended();
        self.interaction.reinit_data();
    }

    /// A run is cancelled: the command, if any, is cancelled, reported and flushed.
    fn on_cancelling(&mut self)
        requires
            old(self).interaction.wf(),
            old(self).cmd matches Some(c) ==> c.wf() && c.live(),
            forall|i: int|
                0 <= i < old(self).history@.len() ==> (#[trigger] old(self).history@[i]).status()
                    == CmdStatus::Flushed,
            !old(self).interaction@.fsm.started,
            old(self).rx@ == blank(Notification::Cancelling),
        ensures
            final(self).wf(),
            final(self).reactions == old(self).reactions,
            final(self).continuous == old(self).continuous,
            final(self).reaction_fits(*old(self), final(self).rx@, Notification::Cancelling, old(self).interaction@),
            final(self).hooks.trace() == old(self).hooks.trace() + calls_of(final(self).rx@),
            final(self).rx@.guard_error is None,
    {
        let taken = self.cmd.take();
        match taken {
            Some(mut c) => {
                let _ = c.cancel();
                let r = self.hooks.cannot_execute(c.child(), self.interaction.data(), &mut self.acc);
                self.rx = Ghost(Reaction { cannot_execute: Some(r), ..self.rx@ });
                if let Err(code) = r {
                    self.report(code);
                }
                let _ = c.flush();
            },
            None => {},
        }
        self.bump_cancelled();
        self.interaction.reinit_data();
    }

    /// Handles the notification of a step, completely, then hands a guard error to `catch`,
    /// and records the reaction.
    fn dispatch(&mut self, step: Step)
        requires
            old(self).interaction.wf(),
            old(self).cmd matches Some(c) ==> c.wf() && c.live(),
            forall|i: int|
                0 <= i < old(self).history@.len() ==> (#[trigger] old(self).history@[i]).status()
                    == CmdStatus::Flushed,
            step.notification == Notification::Starting ==> old(self).cmd is None
                && old(self).interaction@.fsm.started,
            step.notification == Notification::Updating ==> old(self).interaction@.fsm.started,
            step.notification == Notification::Terminating || step.notification
                == Notification::Cancelling ==> !old(self).interaction@.fsm.started,
            step.notification == Notification::Silent ==> (old(self).cmd is Some
                ==> old(self).interaction@.fsm.started),
        ensures
            final(self).wf(),
            final(self).continuous == old(self).continuous,
            final(self).reactions@ == old(self).reactions@.push(final(self).reactions@.last()),
            final(self).reactions@.last().guard_error == step.error,
            final(self).reaction_fits(*old(self), final(self).reactions@.last(), step.notification, old(self).interaction@),
            final(self).hooks.trace() == old(self).hooks.trace() + calls_of(final(self).reactions@.last()),
    {
        self.rx = Ghost(blank(step.notification));
        match step.notification {
            Notification::Starting => self.on_starting(),
            Notification::Updating => self.on_updating(),
            Notification::Terminating => self.on_terminating(),
            Notification::Cancelling => self.on_cancelling(),
            Notification::Silent => {},
        }
        let ghost mid = self.rx@;
        match step.error {
            Some(c) => self.hooks.catch(BindingError::GuardEvaluation(c)),
            None => {},
        }
        self.rx = Ghost(Reaction { guard_error: step.error, ..mid });
        proof {
            assert(mid.guard_error is None);
            assert(stage_calls(self.rx@) == stage_calls(mid));
            assert(calls_of(mid) =~= stage_calls(mid));
        }
        self.reactions = Ghost(self.reactions@.push(self.rx@));
    }

    /// Uninstalls the binding: the command in progress, if any, is cancelled and flushed,
    /// and the interaction is uninstalled, so that every later event is refused.
    pub fn uninstall_binding(&mut self)
        requires
            old(self).wf(),
        ensures
            final(self).wf(),
            final(self).interaction_view().fsm.uninstalled,
            final(self).command() is None,
            final(self).ended() == old(self).ended(),
            final(self).cancelled() == old(self).cancelled(),
            final(self).history() == old(self).history(),
            final(self).reactions() == old(self).reactions(),
            final(self).routines() == old(self).routines(),
    {
        let taken = self.cmd.take();
        match taken {
            Some(mut c) => {
                let _ = c.cancel();
                let _ = c.flush();
            },
            None => {},
        }
        self.interaction.uninstall();
    }

    /// Passes a raw event arrived at `now` through the interaction's throttle; the events
    /// returned are to be processed now, in order, with `process_event`.
    pub fn throttle_event(&mut self, e: Event, now: u64) -> (r: Result<Vec<Event>, UseAfterUninstall>)
        requires
            old(self).wf(),
        ensures
            final(self).wf(),
            old(self).interaction_view().fsm.uninstalled ==> r is Err && final(self).interaction_view() == old(self).interaction_view(),
            !old(self).interaction_view().fsm.uninstalled ==> r is Ok && r->Ok_0@ == offer_out(old(self).interaction_view().throttle, e, now)
                && final(self).interaction_view() == (InteractionView {
                throttle: offer_next(old(self).interaction_view().throttle, e, now),
                ..old(self).interaction_view()
            }),
            final(self).command() == old(self).command(),
            final(self).ended() == old(self).ended(),
            final(self).cancelled() == old(self).cancelled(),
            final(self).history() == old(self).history(),
            final(self).reactions() == old(self).reactions(),
            final(self).routines() == old(self).routines(),
    {
        self.interaction.throttle_event(e, now)
    }

    /// Passes a change in the children of an observed node on to the interaction.
    pub fn on_children_changed(&mut self, node: u64, added: &Vec<u64>, removed: &Vec<u64>) -> (r: Result<
        (),
        UseAfterUninstall,
    >)
        requires
            old(self).wf(),
        ensures
            final(self).wf(),
            old(self).interaction_view().fsm.uninstalled <==> r is Err,
            (old(self).interaction_view().fsm.uninstalled || !old(self).interaction_view().observed.contains(node)) ==> final(self).interaction_view()
                == old(self).interaction_view(),
            !old(self).interaction_view().fsm.uninstalled && old(self).interaction_view().observed.contains(node) ==> {
                &&& final(self).interaction_view() == (InteractionView {
                    registered: final(self).interaction_view().registered,
                    ..old(self).interaction_view()
                })
                &&& forall|x: u64|
                    final(self).interaction_view().registered.contains(x) <==> (old(
                        self,
                    ).interaction_view().registered.contains(x) || added@.contains(x))
                        && !removed@.contains(x)
            },
            final(self).command() == old(self).command(),
            final(self).ended() == old(self).ended(),
            final(self).cancelled() == old(self).cancelled(),
            final(self).history() == old(self).history(),
            final(self).reactions() == old(self).reactions(),
            final(self).routines() == old(self).routines(),
    {
        self.interaction.on_children_changed(node, added, removed)
    }

    /// Delivers one event: the interaction processes it, then the binding handles the
    /// lifecycle notification it raised, completely, before returning. A guard error is
    /// handed to `catch`. Returns whether a transition fired.
    pub fn process_event<G: TransitionRoutines>(&mut self, e: &Event, g: &mut G) -> (r: Result<
        bool,
        UseAfterUninstall,
    >)
        requires
            old(self).wf(),
        ensures
            final(self).wf(),
            old(self).interaction_view().fsm.uninstalled ==> {
                &&& r is Err
                &&& final(self).interaction_view() == old(self).interaction_view()
                &&& final(self).command() == old(self).command()
                &&& final(self).ended() == old(self).ended()
                &&& final(self).cancelled() == old(self).cancelled()
                &&& final(self).history() == old(self).history()
                &&& final(self).reactions() == old(self).reactions()
                &&& final(self).routines() == old(self).routines()
                &&& final(g).performed() == old(g).performed()
            },
            !old(self).interaction_view().fsm.uninstalled ==> {
                let ans = answers_of(*old(g), *e, old(self).interaction_view().data);
                let st = step_of(old(self).interaction_view().fsm, *e, ans);
                let iv = InteractionView {
                    fsm: after(old(self).interaction_view().fsm, *e, ans),
                    data: data_after(old(self).interaction_view(), *e, ans),
                    ..old(self).interaction_view()
                };
                let rx = final(self).reactions().last();
                &&& r == Ok::<bool, UseAfterUninstall>(st.fired is Some)
                &&& final(self).reactions() == old(self).reactions().push(rx)
                &&& rx.guard_error == st.error
                &&& final(self).reaction_fits(*old(self), rx, st.notification, iv)
                &&& final(self).routines().trace() == old(self).routines().trace() + calls_of(rx)
                &&& final(g).performed() == old(g).performed() + actions_of(
                    old(self).interaction_view().fsm,
                    *e,
                    ans,
                )
            },
    {
        let step = match self.interaction.process_event(e, g) {
            Ok(s) => s,
            Err(u) => {
                return Err(u);
            },
        };
        self.dispatch(step);
        Ok(step.fired.is_some())
    }

    /// Fires the timeout transition of the current state, if any, then handles the
    /// notification it raised like `process_event`. Returns whether a transition fired.
    pub fn on_timeout(&mut self) -> (r: Result<bool, UseAfterUninstall>)
        requires
            old(self).wf(),
        ensures
            final(self).wf(),
            old(self).interaction_view().fsm.uninstalled ==> {
                &&& r is Err
                &&& final(self).interaction_view() == old(self).interaction_view()
                &&& final(self).command() == old(self).command()
                &&& final(self).ended() == old(self).ended()
                &&& final(self).cancelled() == old(self).cancelled()
                &&& final(self).history() == old(self).history()
                &&& final(self).reactions() == old(self).reactions()
                &&& final(self).routines() == old(self).routines()
            },
            !old(self).interaction_view().fsm.uninstalled ==> {
                let st = timeout_step(old(self).interaction_view().fsm);
                let iv = InteractionView {
                    fsm: after_timeout(old(self).interaction_view().fsm),
                    ..old(self).interaction_view()
                };
                let rx = final(self).reactions().last();
                &&& r == Ok::<bool, UseAfterUninstall>(st.fired is Some)
                &&& final(self).reactions() == old(self).reactions().push(rx)
                &&& rx.guard_error == st.error
                &&& final(self).reaction_fits(*old(self), rx, st.notification, iv)
                &&& final(self).routines().trace() == old(self).routines().trace() + calls_of(rx)
            },
    {
        let step = match self.interaction.on_timeout() {
            Ok(s) => s,
            Err(u) => {
                return Err(u);
            },
        };
        self.dispatch(step);
        Ok(step.fired.is_some())
    }
}

} // verus!
