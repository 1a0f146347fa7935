//! The state/transition graph and the engine that runs it.
//!
//! All states and transitions live in arenas owned by the machine; transitions name
//! their source and target states by index. State `0` is the initial state.
use vstd::prelude::*;
use crate::event_type::{Event, EventType, KeyEventType};

verus! {

/// What a state does when it is entered.
#[derive(PartialEq, Eq, Structural, Clone, Copy, Debug)]
pub enum StateKind {
    /// An intermediate state: it can be entered, hold transitions and be left.
    Standard,
    /// Entering it ends the run successfully.
    Terminal,
    /// Entering it cancels the run.
    Cancelling,
}

/// A named state of a machine.
pub struct State {
    pub name: String,
    pub kind: StateKind,
}

/// Signal raised while entering a state when the run must be cancelled.
#[derive(PartialEq, Eq, Structural, Clone, Copy, Debug)]
pub struct CancelFSMException;

/// Raised by any operation on an uninstalled machine.
#[derive(PartialEq, Eq, Structural, Clone, Copy, Debug)]
pub struct UseAfterUninstall;

/// A guard over the processed event: a built-in test of its value, or a user guard that
/// reads the event and the data of the run.
#[derive(PartialEq, Eq, Structural, Clone, Copy, Debug)]
pub enum Guard {
    Always,
    AtLeast(i64),
    AtMost(i64),
    /// The user guard of the given id, answered by the machine's routines.
    Routine(u64),
}

/// The user routines behind `Guard::Routine` and `Action::Routine`. A guard answers from
/// the event and the data of the run; an action is recorded in `performed`.
pub trait TransitionRoutines {
    /// What guard `id` answers for event `e` over data `data`; an `Err` is a raised error.
    spec fn answer(&self, id: u64, e: Event, data: Seq<Event>) -> Result<bool, u64>;

    /// The actions run so far, in order, with their events.
    spec fn performed(&self) -> Seq<(u64, Event)>;

    fn guard(&self, id: u64, e: &Event, data: &Vec<Event>) -> (r: Result<bool, u64>)
        ensures
            r == self.answer(id, *e, data@),
    ;

    fn action(&mut self, id: u64, e: &Event, data: &Vec<Event>)
        ensures
            final(self).performed() == old(self).performed().push((id, *e)),
    ;
}

/// The answers of the user guards to event `e` over data `data`.
pub open spec fn answers_of<G: TransitionRoutines>(g: G, e: Event, data: Seq<Event>) -> spec_fn(u64) -> Result<bool, u64> {
    |id: u64| g.answer(id, e, data)
}

impl Guard {
    /// What the guard answers for `e`, where `ans` gives the answers of the user guards.
    pub open spec fn outcome(self, e: Event, ans: spec_fn(u64) -> Result<bool, u64>) -> Result<bool, u64> {
        match self {
            Guard::Always => Ok(true),
            Guard::AtLeast(v) => Ok(e.value >= v),
            Guard::AtMost(v) => Ok(e.value <= v),
            Guard::Routine(id) => ans(id),
        }
    }

    pub fn check<G: TransitionRoutines>(&self, e: &Event, data: &Vec<Event>, g: &G) -> (r: Result<bool, u64>)
        ensures
            r == self.outcome(*e, answers_of(*g, *e, data@)),
    {
        match *self {
            Guard::Always => Ok(true),
            Guard::AtLeast(v) => Ok(e.value >= v),
            Guard::AtMost(v) => Ok(e.value <= v),
            Guard::Routine(id) => g.guard(id, e, data),
        }
    }
}

/// What a transition does with the event when it fires.
#[derive(PartialEq, Eq, Structural, Clone, Copy, Debug)]
pub enum Action {
    /// Nothing.
    Skip,
    /// Appends the event to the interaction data.
    Record,
    /// Runs the user action of the given id.
    Routine(u64),
}

/// The lifecycle notification that a processed event gives rise to.
#[derive(PartialEq, Eq, Structural, Clone, Copy, Debug)]
pub enum Notification {
    Silent,
    Starting,
    Updating,
    Cancelling,
    Terminating,
}

/// A transition from `src` to `tgt`, fired by an event whose kind is accepted and
/// whose guard holds.
pub struct TransitionBase {
    pub src: usize,
    pub tgt: usize,
    pub accepted: Vec<EventType>,
    pub guard: Guard,
    pub action: Action,
}

impl TransitionBase {
    pub open spec fn accepts(&self, e: Event) -> bool {
        self.accepted@.contains(e.kind)
    }

    /// A transition with the given accepted kinds; no action and an always-true guard
    /// unless given.
    pub fn new(
        src_state: usize,
        tgt_state: usize,
        accepted: Vec<EventType>,
        action: Option<Action>,
        guard: Option<Guard>,
    ) -> (r: TransitionBase)
        ensures
            r.src == src_state,
            r.tgt == tgt_state,
            r.accepted@ == accepted@,
            r.action == (match action {
                Some(a) => a,
                None => Action::Skip,
            }),
            r.guard == (match guard {
                Some(g) => g,
                None => Guard::Always,
            }),
    {
        let action_fn = match action {
            Some(a) => a,
            None => Action::Skip,
        };
        let guard_fn = match guard {
            Some(g) => g,
            None => Guard::Always,
        };
        TransitionBase { src: src_state, tgt: tgt_state, accepted, guard: guard_fn, action: action_fn }
    }

    /// A transition fired by key events of the given kind.
    pub fn key(
        src_state: usize,
        tgt_state: usize,
        key_type: KeyEventType,
        action: Option<Action>,
        guard: Option<Guard>,
    ) -> (r: TransitionBase)
        ensures
            r.src == src_state,
            r.tgt == tgt_state,
            r.accepted@ == seq![EventType::Key(key_type)],
            r.action == (match action {
                Some(a) => a,
                None => Action::Skip,
            }),
            r.guard == (match guard {
                Some(g) => g,
                None => Guard::Always,
            }),
    {
        let mut accepted: Vec<EventType> = Vec::new();
        accepted.push(EventType::Key(key_type));
        proof {
            assert(accepted@ =~= seq![EventType::Key(key_type)]);
        }
        TransitionBase::new(src_state, tgt_state, accepted, action, guard)
    }

    /// A transition fired by wheel events.
    pub fn wheel(src_state: usize, tgt_state: usize, action: Option<Action>, guard: Option<Guard>) -> (r:
        TransitionBase)
        ensures
            r.src == src_state,
            r.tgt == tgt_state,
            r.accepted@ == seq![EventType::Wheel],
            r.action == (match action {
                Some(a) => a,
                None => Action::Skip,
            }),
            r.guard == (match guard {
                Some(g) => g,
                None => Guard::Always,
            }),
    {
        let mut accepted: Vec<EventType> = Vec::new();
        accepted.push(EventType::Wheel);
        proof {
            assert(accepted@ =~= seq![EventType::Wheel]);
        }
        TransitionBase::new(src_state, tgt_state, accepted, action, guard)
    }

    /// Whether the kind of the event is one that the transition accepts.
    pub fn accept(&self, e: &Event) -> (r: bool)
        ensures
            r == self.accepts(*e),
    {
        let mut i: usize = 0;
        while i < self.accepted.len()
            invariant
                0 <= i <= self.accepted.len(),
                forall|k: int| 0 <= k < i ==> self.accepted@[k] != e.kind,
            decreases self.accepted.len() - i,
        {
            if self.accepted[i] == e.kind {
                return true;
            }
            i = i + 1;
        }
        false
    }

    pub fn guard<G: TransitionRoutines>(&self, e: &Event, data: &Vec<Event>, g: &G) -> (r: Result<bool, u64>)
        ensures
            r == self.guard.outcome(*e, answers_of(*g, *e, data@)),
    {
        self.guard.check(e, data, g)
    }

    pub fn target(&self) -> (r: usize)
        ensures
            r == self.tgt,
    {
        self.tgt
    }

    pub fn get_accepted_events(&self) -> (r: &Vec<EventType>)
        ensures
            r@ == self.accepted@,
    {
        &self.accepted
    }
}

/// A transition that fires by itself once its source state has been current for
/// `duration` milliseconds without another transition firing. The timer runs outside
/// the machine, which only says which duration to arm and fires on request.
#[derive(PartialEq, Eq, Structural, Clone, Copy, Debug)]
pub struct TimeoutTransition {
    pub src: usize,
    pub tgt: usize,
    pub duration: u64,
}

/// The first timeout transition from index `from` on that leaves state `cur`.
pub open spec fn timeout_scan(tos: Seq<TimeoutTransition>, cur: int, from: int) -> Option<int>
    decreases tos.len() - from,
{
    if from < 0 || from >= tos.len() {
        None
    } else if tos[from].src == cur {
        Some(from)
    } else {
        timeout_scan(tos, cur, from + 1)
    }
}

proof fn lemma_timeout_scan(tos: Seq<TimeoutTransition>, cur: int, from: int)
    requires
        0 <= from,
    ensures
        match timeout_scan(tos, cur, from) {
            Some(k) => from <= k < tos.len() && tos[k].src == cur,
            None => forall|k: int| from <= k < tos.len() ==> (#[trigger] tos[k]).src != cur,
        },
    decreases tos.len() - from,
{
    if from < tos.len() && tos[from].src != cur {
        lemma_timeout_scan(tos, cur, from + 1);
    }
}

/// Whether transition `t` is a candidate for event `e` in state `cur`: it leaves `cur`,
/// accepts the event, and its guard does not answer false (it holds or it raises).
pub open spec fn triggers(t: TransitionBase, cur: int, e: Event, ans: spec_fn(u64) -> Result<bool, u64>) -> bool {
    &&& t.src == cur
    &&& t.accepts(e)
    &&& t.guard.outcome(e, ans) != Ok::<bool, u64>(false)
}

/// The first transition from index `from` on that is a candidate for `e` in state `cur`.
pub open spec fn scan(
    trs: Seq<TransitionBase>,
    cur: int,
    e: Event,
    ans: spec_fn(u64) -> Result<bool, u64>,
    from: int,
) -> Option<int>
    decreases trs.len() - from,
{
    if from < 0 || from >= trs.len() {
        None
    } else if triggers(trs[from], cur, e, ans) {
        Some(from)
    } else {
        scan(trs, cur, e, ans, from + 1)
    }
}

proof fn lemma_scan_from(
    trs: Seq<TransitionBase>,
    cur: int,
    e: Event,
    ans: spec_fn(u64) -> Result<bool, u64>,
    from: int,
)
    requires
        0 <= from,
    ensures
        match scan(trs, cur, e, ans, from) {
            Some(j) => {
                &&& from <= j < trs.len()
                &&& triggers(trs[j], cur, e, ans)
                &&& forall|k: int| from <= k < j ==> !triggers(#[trigger] trs[k], cur, e, ans)
            },
            None => forall|k: int| from <= k < trs.len() ==> !triggers(#[trigger] trs[k], cur, e, ans),
        },
    decreases trs.len() - from,
{
    if from < trs.len() && !triggers(trs[from], cur, e, ans) {
        lemma_scan_from(trs, cur, e, ans, from + 1);
    }
}

/// Single firing: for an event in state `cur`, the transition chosen is the first one, in
/// order of declaration, that leaves `cur`, accepts the event and whose guard does not
/// answer false; when there is none, no transition is chosen.
pub proof fn single_fire(trs: Seq<TransitionBase>, cur: int, e: Event, ans: spec_fn(u64) -> Result<bool, u64>)
    ensures
        match scan(trs, cur, e, ans, 0) {
            Some(j) => {
                &&& 0 <= j < trs.len()
                &&& triggers(trs[j], cur, e, ans)
                &&& forall|k: int| 0 <= k < j ==> !triggers(#[trigger] trs[k], cur, e, ans)
            },
            None => forall|k: int| 0 <= k < trs.len() ==> !triggers(#[trigger] trs[k], cur, e, ans),
        },
{
    lemma_scan_from(trs, cur, e, ans, 0);
}

/// The mathematical content of a machine.
pub struct FsmView {
    pub kinds: Seq<StateKind>,
    pub transitions: Seq<TransitionBase>,
    pub timeouts: Seq<TimeoutTransition>,
    pub starting: int,
    pub current: int,
    pub started: bool,
    pub inner: bool,
    pub uninstalled: bool,
}

/// What processing one event reports.
#[derive(PartialEq, Eq, Structural, Clone, Copy, Debug)]
pub struct Step {
    /// The index of the transition that fired, if any.
    pub fired: Option<usize>,
    /// The lifecycle notification raised.
    pub notification: Notification,
    /// The error code raised by a guard, if any.
    pub error: Option<u64>,
}

/// Whether moving from `src` to `tgt` makes the run start: the machine had not started
/// and it leaves or reaches the starting state.
pub open spec fn starts_on(v: FsmView, src: int, tgt: int) -> bool {
    !v.started && (tgt == v.starting || src == v.starting)
}

/// The notification raised by moving from `src` to `tgt`.
pub open spec fn entry_notification(v: FsmView, src: int, tgt: int) -> Notification {
    match v.kinds[tgt] {
        StateKind::Cancelling => if v.started {
            Notification::Cancelling
        } else {
            Notification::Silent
        },
        StateKind::Terminal => if v.started || starts_on(v, src, tgt) {
            Notification::Terminating
        } else {
            Notification::Silent
        },
        StateKind::Standard => if starts_on(v, src, tgt) {
            Notification::Starting
        } else if v.started {
            Notification::Updating
        } else {
            Notification::Silent
        },
    }
}

/// The machine after moving from `src` to `tgt`: an intermediate target becomes the
/// current state; reaching a terminal or cancelling state ends the run.
pub open spec fn entered(v: FsmView, src: int, tgt: int) -> FsmView {
    match v.kinds[tgt] {
        StateKind::Standard => FsmView { current: tgt, started: v.started || starts_on(v, src, tgt), ..v },
        _ => reset(v),
    }
}

/// The machine back at its initial state, not started.
pub open spec fn reset(v: FsmView) -> FsmView {
    FsmView { current: 0, started: false, ..v }
}

/// What `process` reports for event `e`.
pub open spec fn step_of(v: FsmView, e: Event, ans: spec_fn(u64) -> Result<bool, u64>) -> Step {
    match scan(v.transitions, v.current, e, ans, 0) {
        None => Step { fired: None, notification: Notification::Silent, error: None },
        Some(j) => match v.transitions[j].guard.outcome(e, ans) {
            Err(c) => Step {
                fired: None,
                notification: if v.started {
                    Notification::Cancelling
                } else {
                    Notification::Silent
                },
                error: Some(c),
            },
            Ok(_) => Step {
                fired: Some(j as usize),
                notification: entry_notification(
                    v,
                    v.transitions[j].src as int,
                    v.transitions[j].tgt as int,
                ),
                error: None,
            },
        },
    }
}

/// The user actions that `process` runs for event `e`: the one of the transition that fired.
pub open spec fn actions_of(v: FsmView, e: Event, ans: spec_fn(u64) -> Result<bool, u64>) -> Seq<(u64, Event)> {
    match step_of(v, e, ans).fired {
        Some(j) => match v.transitions[j as int].action {
            Action::Routine(id) => seq![(id, e)],
            _ => Seq::empty(),
        },
        None => Seq::empty(),
    }
}

/// The machine after `process` handled event `e`.
pub open spec fn after(v: FsmView, e: Event, ans: spec_fn(u64) -> Result<bool, u64>) -> FsmView {
    match scan(v.transitions, v.current, e, ans, 0) {
        None => v,
        Some(j) => match v.transitions[j].guard.outcome(e, ans) {
            Err(_) => reset(v),
            Ok(_) => entered(v, v.transitions[j].src as int, v.transitions[j].tgt as int),
        },
    }
}

/// A finite state machine that defines the behaviour of a user interaction.
pub struct FSM {
    states: Vec<State>,
    transitions: Vec<TransitionBase>,
    timeouts: Vec<TimeoutTransition>,
    starting: usize,
    current: usize,
    started: bool,
    inner: bool,
    uninstalled: bool,
}

impl View for FSM {
    type V = FsmView;

    closed spec fn view(&self) -> FsmView {
        FsmView {
            kinds: self.states@.map_values(|s: State| s.kind),
            transitions: self.transitions@,
            timeouts: self.timeouts@,
            starting: self.starting as int,
            current: self.current as int,
            started: self.started,
            inner: self.inner,
            uninstalled: self.uninstalled,
        }
    }
}

/// The graph is closed and the current state can hold transitions.
pub open spec fn graph_wf(v: FsmView) -> bool {
    &&& v.kinds.len() > 0
    &&& v.kinds[0] == StateKind::Standard
    &&& 0 <= v.starting < v.kinds.len()
    &&& 0 <= v.current < v.kinds.len()
    &&& v.kinds[v.current] == StateKind::Standard
    &&& forall|i: int|
        0 <= i < v.transitions.len() ==> {
            &&& v.transitions[i].src < v.kinds.len()
            &&& v.transitions[i].tgt < v.kinds.len()
            &&& v.kinds[v.transitions[i].src as int] == StateKind::Standard
        }
    &&& forall|i: int|
        0 <= i < v.timeouts.len() ==> {
            &&& v.timeouts[i].src < v.kinds.len()
            &&& v.timeouts[i].tgt < v.kinds.len()
            &&& v.kinds[v.timeouts[i].src as int] == StateKind::Standard
        }
}

/// What `on_timeout` reports.
pub open spec fn timeout_step(v: FsmView) -> Step {
    match timeout_scan(v.timeouts, v.current, 0) {
        None => Step { fired: None, notification: Notification::Silent, error: None },
        Some(k) => Step {
            fired: Some(k as usize),
            notification: entry_notification(v, v.timeouts[k].src as int, v.timeouts[k].tgt as int),
            error: None,
        },
    }
}

/// The machine after `on_timeout`.
pub open spec fn after_timeout(v: FsmView) -> FsmView {
    match timeout_scan(v.timeouts, v.current, 0) {
        None => v,
        Some(k) => entered(v, v.timeouts[k].src as int, v.timeouts[k].tgt as int),
    }
}

impl FSM {
    pub open spec fn wf(&self) -> bool {
        graph_wf(self@)
    }

    /// A machine with a single initial state, which is also its starting state.
    pub fn new(init_name: String) -> (r: FSM)
        ensures
            r.wf(),
            r@.kinds == seq![StateKind::Standard],
            r@.transitions.len() == 0,
            r@.timeouts.len() == 0,
            r@.starting == 0,
            r@.current == 0,
            !r@.started,
            !r@.inner,
            !r@.uninstalled,
    {
        let mut states: Vec<State> = Vec::new();
        states.push(State { name: init_name, kind: StateKind::Standard });
        let r = FSM {
            states,
            transitions: Vec::new(),
            timeouts: Vec::new(),
            starting: 0,
            current: 0,
            started: false,
            inner: false,
            uninstalled: false,
        };
        proof {
            assert(r@.kinds =~= seq![StateKind::Standard]);
        }
        r
    }

    /// Adds a state and returns its index.
    pub fn add_state(&mut self, name: String, kind: StateKind) -> (r: Result<usize, UseAfterUninstall>)
        requires
            old(self).wf(),
        ensures
            final(self).wf(),
            old(self)@.uninstalled ==> r is Err && final(self)@ == old(self)@,
            !old(self)@.uninstalled ==> r == Ok::<usize, UseAfterUninstall>(old(self)@.kinds.len() as usize)
                && final(self)@ == (FsmView { kinds: old(self)@.kinds.push(kind), ..old(self)@ }),
    {
        if self.uninstalled {
            return Err(UseAfterUninstall);
        }
        let r = self.states.len();
        self.states.push(State { name, kind });
        proof {
            assert(self@.kinds =~= old(self)@.kinds.push(kind));
        }
        Ok(r)
    }

    /// Adds a transition leaving an intermediate state and returns its index. Transitions
    /// leaving one state are tried in the order in which they were added.
    pub fn add_transition(&mut self, t: TransitionBase) -> (r: Result<usize, UseAfterUninstall>)
        requires
            old(self).wf(),
            t.src < old(self)@.kinds.len(),
            t.tgt < old(self)@.kinds.len(),
            old(self)@.kinds[t.src as int] == StateKind::Standard,
        ensures
            final(self).wf(),
            old(self)@.uninstalled ==> r is Err && final(self)@ == old(self)@,
            !old(self)@.uninstalled ==> r == Ok::<usize, UseAfterUninstall>(old(self)@.transitions.len() as usize)
                && final(self)@ == (FsmView { transitions: old(self)@.transitions.push(t), ..old(self)@ }),
    {
        if self.uninstalled {
            return Err(UseAfterUninstall);
        }
        let r = self.transitions.len();
        self.transitions.push(t);
        proof {
            assert(self@.kinds =~= old(self)@.kinds);
        }
        Ok(r)
    }

    /// Adds a timeout transition leaving an intermediate state and returns its index.
    pub fn add_timeout_transition(&mut self, t: TimeoutTransition) -> (r: Result<usize, UseAfterUninstall>)
        requires
            old(self).wf(),
            t.src < old(self)@.kinds.len(),
            t.tgt < old(self)@.kinds.len(),
            old(self)@.kinds[t.src as int] == StateKind::Standard,
        ensures
            final(self).wf(),
            old(self)@.uninstalled ==> r is Err && final(self)@ == old(self)@,
            !old(self)@.uninstalled ==> r == Ok::<usize, UseAfterUninstall>(old(self)@.timeouts.len() as usize)
                && final(self)@ == (FsmView { timeouts: old(self)@.timeouts.push(t), ..old(self)@ }),
    {
        if self.uninstalled {
            return Err(UseAfterUninstall);
        }
        let r = self.timeouts.len();
        self.timeouts.push(t);
        proof {
            assert(self@.kinds =~= old(self)@.kinds);
        }
        Ok(r)
    }

    /// The first timeout transition of the current state.
    fn find_timeout(&self) -> (r: Option<usize>)
        requires
            self.wf(),
        ensures
            r matches Some(k) ==> timeout_scan(self@.timeouts, self@.current, 0) == Some(k as int),
            r is None ==> timeout_scan(self@.timeouts, self@.current, 0) is None,
    {
        let mut i: usize = 0;
        while i < self.timeouts.len()
            invariant
                0 <= i <= self.timeouts.len(),
                self.timeouts@ == self@.timeouts,
                timeout_scan(self@.timeouts, self@.current, 0) == timeout_scan(
                    self@.timeouts,
                    self@.current,
                    i as int,
                ),
            decreases self.timeouts.len() - i,
        {
            if self.timeouts[i].src == self.current {
                return Some(i);
            }
            i = i + 1;
        }
        None
    }

    /// The duration after which the current state times out, if it has a timeout
    /// transition; the caller arms its timer with it after each step.
    pub fn current_timeout(&self) -> (r: Option<u64>)
        requires
            self.wf(),
        ensures
            match timeout_scan(self@.timeouts, self@.current, 0) {
                Some(k) => r == Some(self@.timeouts[k].duration),
                None => r is None,
            },
    {
        proof {
            lemma_timeout_scan(self@.timeouts, self@.current, 0);
        }
        match self.find_timeout() {
            Some(k) => Some(self.timeouts[k].duration),
            None => None,
        }
    }

    /// Fires the timeout transition of the current state, if there is one. Called on the
    /// machine's own thread once the timer armed with `current_timeout` ran out.
    pub fn on_timeout(&mut self) -> (r: Result<Step, UseAfterUninstall>)
        requires
            old(self).wf(),
        ensures
            final(self).wf(),
            old(self)@.uninstalled ==> r is Err && final(self)@ == old(self)@,
            !old(self)@.uninstalled ==> r == Ok::<Step, UseAfterUninstall>(timeout_step(old(self)@))
                && final(self)@ == after_timeout(old(self)@),
    {
        if self.uninstalled {
            return Err(UseAfterUninstall);
        }
        proof {
            lemma_timeout_scan(self@.timeouts, self@.current, 0);
        }
        match self.find_timeout() {
            None => Ok(Step { fired: None, notification: Notification::Silent, error: None }),
            Some(k) => {
                let src = self.timeouts[k].src;
                let tgt = self.timeouts[k].tgt;
                let n = self.fire(src, tgt);
                Ok(Step { fired: Some(k), notification: n, error: None })
            },
        }
    }

    /// Designates the state whose reaching starts a run.
    pub fn set_starting_state(&mut self, s: usize) -> (r: Result<(), UseAfterUninstall>)
        requires
            old(self).wf(),
            s < old(self)@.kinds.len(),
        ensures
            final(self).wf(),
            old(self)@.uninstalled ==> r is Err && final(self)@ == old(self)@,
            !old(self)@.uninstalled ==> r is Ok && final(self)@ == (FsmView { starting: s as int, ..old(self)@ }),
    {
        if self.uninstalled {
            return Err(UseAfterUninstall);
        }
        self.starting = s;
        proof {
            assert(self@.kinds =~= old(self)@.kinds);
        }
        Ok(())
    }

    /// Marks the machine as a sub-machine of another one.
    pub fn set_inner(&mut self, inner: bool) -> (r: Result<(), UseAfterUninstall>)
        requires
            old(self).wf(),
        ensures
            final(self).wf(),
            old(self)@.uninstalled ==> r is Err && final(self)@ == old(self)@,
            !old(self)@.uninstalled ==> r is Ok && final(self)@ == (FsmView { inner, ..old(self)@ }),
    {
        if self.uninstalled {
            return Err(UseAfterUninstall);
        }
        self.inner = inner;
        proof {
            assert(self@.kinds =~= old(self)@.kinds);
        }
        Ok(())
    }

    pub fn current_state(&self) -> (r: usize)
        ensures
            r == self@.current,
    {
        self.current
    }

    pub fn init_state(&self) -> (r: usize)
        ensures
            r == 0,
    {
        0
    }

    pub fn starting_state(&self) -> (r: usize)
        ensures
            r == self@.starting,
    {
        self.starting
    }

    pub fn started(&self) -> (r: bool)
        ensures
            r == self@.started,
    {
        self.started
    }

    pub fn is_inner(&self) -> (r: bool)
        ensures
            r == self@.inner,
    {
        self.inner
    }

    pub fn is_uninstalled(&self) -> (r: bool)
        ensures
            r == self@.uninstalled,
    {
        self.uninstalled
    }

    pub fn states_len(&self) -> (r: usize)
        ensures
            r == self@.kinds.len(),
    {
        self.states.len()
    }

    /// Whether state `s` is an intermediate state.
    pub fn state_kind_is_standard(&self, s: usize) -> (r: bool)
        requires
            s < self@.kinds.len(),
        ensures
            r == (self@.kinds[s as int] == StateKind::Standard),
    {
        match self.states[s].kind {
            StateKind::Standard => true,
            _ => false,
        }
    }

    pub fn transition(&self, i: usize) -> (r: &TransitionBase)
        requires
            i < self@.transitions.len(),
        ensures
            *r == self@.transitions[i as int],
    {
        &self.transitions[i]
    }

    /// The first transition, in order of addition, that is a candidate for `e` in the
    /// current state.
    fn find_trigger<G: TransitionRoutines>(&self, e: &Event, data: &Vec<Event>, g: &G) -> (r: Option<usize>)
        requires
            self.wf(),
        ensures
            r matches Some(j) ==> scan(self@.transitions, self@.current, *e, answers_of(*g, *e, data@), 0) == Some(j as int),
            r is None ==> scan(self@.transitions, self@.current, *e, answers_of(*g, *e, data@), 0) is None,
    {
        let mut i: usize = 0;
        while i < self.transitions.len()
            invariant
                0 <= i <= self.transitions.len(),
                self.transitions@ == self@.transitions,
                scan(self@.transitions, self@.current, *e, answers_of(*g, *e, data@), 0) == scan(
                    self@.transitions,
                    self@.current,
                    *e,
                    answers_of(*g, *e, data@),
                    i as int,
                ),
            decreases self.transitions.len() - i,
        {
            let t = &self.transitions[i];
            if t.src == self.current && t.accept(e) {
                match t.guard(e, data, g) {
                    Ok(false) => {},
                    _ => {
                        return Some(i);
                    },
                }
            }
            i = i + 1;
        }
        None
    }

    /// Enters state `s`; entering a cancelling state raises the cancel signal.
    fn enter(&self, s: usize) -> (r: Result<(), CancelFSMException>)
        requires
            s < self@.kinds.len(),
        ensures
            r is Err <==> self@.kinds[s as int] == StateKind::Cancelling,
    {
        match self.states[s].kind {
            StateKind::Cancelling => Err(CancelFSMException),
            _ => Ok(()),
        }
    }

    /// Puts the machine back at its initial state, not started.
    pub fn reinit(&mut self)
        requires
            old(self).wf(),
        ensures
            final(self).wf(),
            final(self)@ == reset(old(self)@),
    {
        self.current = 0;
        self.started = false;
        proof {
            assert(self@.kinds =~= old(self)@.kinds);
        }
    }

    /// Releases the transitions; every later call of `process` fails.
    pub fn uninstall(&mut self)
        requires
            old(self).wf(),
        ensures
            final(self).wf(),
            final(self)@ == (FsmView {
                transitions: Seq::empty(),
                timeouts: Seq::empty(),
                uninstalled: true,
                ..reset(old(self)@)
            }),
    {
        self.transitions = Vec::new();
        self.timeouts = Vec::new();
        self.uninstalled = true;
        self.current = 0;
        self.started = false;
        proof {
            assert(self@.kinds =~= old(self)@.kinds);
            assert(self@.transitions =~= Seq::<TransitionBase>::empty());
            assert(self@.timeouts =~= Seq::<TimeoutTransition>::empty());
        }
    }

    /// Moves from `src` to `tgt` and gives the notification that this raises.
    fn fire(&mut self, src: usize, tgt: usize) -> (n: Notification)
        requires
            old(self).wf(),
            src < old(self)@.kinds.len(),
            tgt < old(self)@.kinds.len(),
        ensures
            final(self).wf(),
            final(self)@ == entered(old(self)@, src as int, tgt as int),
            n == entry_notification(old(self)@, src as int, tgt as int),
    {
        let ghost v = self@;
        let starts = !self.started && (tgt == self.starting || src == self.starting);
        proof {
            assert(self.states@[tgt as int].kind == v.kinds[tgt as int]);
        }
        match self.enter(tgt) {
            Err(CancelFSMException) => {
                let n = if self.started {
                    Notification::Cancelling
                } else {
                    Notification::Silent
                };
                self.reinit();
                n
            },
            Ok(()) => {
                match self.states[tgt].kind {
                    StateKind::Terminal => {
                        let n = if self.started || starts {
                            Notification::Terminating
                        } else {
                            Notification::Silent
                        };
                        self.reinit();
                        n
                    },
                    _ => {
                        let n = if starts {
                            Notification::Starting
                        } else if self.started {
                            Notification::Updating
                        } else {
                            Notification::Silent
                        };
                        self.current = tgt;
                        self.started = self.started || starts;
                        proof {
                            assert(self@.kinds =~= v.kinds);
                        }
                        n
                    },
                }
            },
        }
    }

    /// Processes one event over the data `data` of the run: the first candidate transition
    /// of the current state fires, after running its user action if it has one, unless its
    /// guard raises, in which case the run is cancelled.
    pub fn process<G: TransitionRoutines>(&mut self, e: &Event, data: &Vec<Event>, g: &mut G) -> (r: Result<
        Step,
        UseAfterUninstall,
    >)
        requires
            old(self).wf(),
        ensures
            final(self).wf(),
            old(self)@.uninstalled ==> r is Err && final(self)@ == old(self)@ && final(g).performed()
                == old(g).performed(),
            !old(self)@.uninstalled ==> {
                let ans = answers_of(*old(g), *e, data@);
                &&& r == Ok::<Step, UseAfterUninstall>(step_of(old(self)@, *e, ans))
                &&& final(self)@ == after(old(self)@, *e, ans)
                &&& final(g).performed() == old(g).performed() + actions_of(old(self)@, *e, ans)
            },
    {
        if self.uninstalled {
            return Err(UseAfterUninstall);
        }
        let ghost v = self@;
        let ghost ans = answers_of(*g, *e, data@);
        proof {
            single_fire(v.transitions, v.current, *e, ans);
        }
        match self.find_trigger(e, data, g) {
            None => {
                proof {
                    assert(g.performed() =~= g.performed() + actions_of(v, *e, ans));
                }
                Ok(Step { fired: None, notification: Notification::Silent, error: None })
            },
            Some(j) => {
                let src = self.transitions[j].src;
                let tgt = self.transitions[j].tgt;
                match self.transitions[j].guard(e, data, g) {
                    Err(c) => {
                        let n = if self.started {
                            Notification::Cancelling
                        } else {
                            Notification::Silent
                        };
                        self.reinit();
                        proof {
                            assert(g.performed() =~= g.performed() + actions_of(v, *e, ans));
                        }
                        Ok(Step { fired: None, notification: n, error: Some(c) })
                    },
                    Ok(_) => {
                        let ghost p0 = g.performed();
                        match self.transitions[j].action {
                            Action::Routine(id) => g.action(id, e, data),
                            _ => {},
                        }
                        proof {
                            assert(g.performed() =~= p0 + actions_of(v, *e, ans));
                        }
                        let n = self.fire(src, tgt);
                        Ok(Step { fired: Some(j), notification: n, error: None })
                    },
                }
            },
        }
    }
}

} // verus!
