//! An interaction: one state machine, the data of the current run, and the nodes it
//! listens to.
use vstd::prelude::*;
use crate::event_type::Event;
use crate::throttle::{Throttle, ThrottleView, offer_next, offer_out, window_over};
use crate::fsm::{
    Action, FSM, FsmView, Notification, StateKind, Step, TransitionRoutines, UseAfterUninstall, actions_of, answers_of, after, after_timeout, reset, single_fire, step_of,
    timeout_step,
};

verus! {

/// The data gathered during one run: the events recorded by the transitions that fired.
pub struct InteractionData {
    events: Vec<Event>,
}

impl View for InteractionData {
    type V = Seq<Event>;

    closed spec fn view(&self) -> Seq<Event> {
        self.events@
    }
}

impl InteractionData {
    pub fn new() -> (r: InteractionData)
        ensures
            r@ == Seq::<Event>::empty(),
    {
        InteractionData { events: Vec::new() }
    }

    pub fn events(&self) -> (r: &Vec<Event>)
        ensures
            r@ == self@,
    {
        &self.events
    }

    pub fn len(&self) -> (r: usize)
        ensures
            r == self@.len(),
    {
        self.events.len()
    }
}

/// The mathematical content of an interaction.
pub struct InteractionView {
    pub fsm: FsmView,
    pub data: Seq<Event>,
    pub registered: Seq<u64>,
    pub observed: Seq<u64>,
    pub activated: bool,
    pub stop_propagation: bool,
    pub prevent_default: bool,
    pub throttle: ThrottleView,
}

/// Whether processing `e` ends the run of the machine without any notification: a guard
/// raised, or a terminal or cancelling state was reached, before the run started.
pub open spec fn ends_silently(v: FsmView, e: Event, ans: spec_fn(u64) -> Result<bool, u64>) -> bool {
    let st = step_of(v, e, ans);
    &&& st.notification == Notification::Silent
    &&& (st.error is Some || (st.fired matches Some(j) && v.kinds[v.transitions[j as int].tgt as int]
        != StateKind::Standard))
}

/// The data after the machine processed `e`: cleared when the run ended silently, else
/// with the event recorded when the transition that fired asks for it.
pub open spec fn data_after(v: InteractionView, e: Event, ans: spec_fn(u64) -> Result<bool, u64>) -> Seq<Event> {
    if ends_silently(v.fsm, e, ans) {
        Seq::empty()
    } else {
        match step_of(v.fsm, e, ans).fired {
        Some(j) => if v.fsm.transitions[j as int].action == Action::Record {
            v.data.push(e)
        } else {
            v.data
        },
        None => v.data,
        }
    }
}

/// Whether `x` occurs in `v`.
fn holds_node(v: &Vec<u64>, x: u64) -> (r: bool)
    ensures
        r == v@.contains(x),
{
    let mut i: usize = 0;
    while i < v.len()
        invariant
            0 <= i <= v.len(),
            forall|k: int| 0 <= k < i ==> v@[k] != x,
        decreases v.len() - i,
    {
        if v[i] == x {
            proof {
                assert(v@[i as int] == x);
            }
            return true;
        }
        i = i + 1;
    }
    false
}

/// Adds `x` to `v` unless it already occurs there.
fn insert_node(v: &mut Vec<u64>, x: u64)
    ensures
        forall|y: u64| final(v)@.contains(y) <==> old(v)@.contains(y) || y == x,
        old(v)@.no_duplicates() ==> final(v)@.no_duplicates(),
{
    if !holds_node(v, x) {
        let ghost before = v@;
        v.push(x);
        proof {
            if before.no_duplicates() {
                assert forall|i: int, j: int| 0 <= i < v@.len() && 0 <= j < v@.len() && i != j implies v@[i]
                    != v@[j] by {
                    if i == before.len() as int {
                        assert(before[j] == v@[j]);
                    } else if j == before.len() as int {
                        assert(before[i] == v@[i]);
                    }
                }
            }
            assert forall|y: u64| v@.contains(y) <==> before.contains(y) || y == x by {
                if v@.contains(y) {
                    let m = choose|m: int| 0 <= m < v@.len() && v@[m] == y;
                    if m < before.len() {
                        assert(before[m] == y);
                    }
                }
                if before.contains(y) {
                    let m = choose|m: int| 0 <= m < before.len() && before[m] == y;
                    assert(v@[m] == y);
                }
                if y == x {
                    assert(v@[v@.len() - 1] == y);
                }
            }
        }
    }
}

/// Adds to `v` the nodes of `b` that it lacks.
fn insert_all(v: &mut Vec<u64>, b: &Vec<u64>)
    ensures
        forall|x: u64| #[trigger] final(v)@.contains(x) <==> old(v)@.contains(x) || b@.contains(x),
        old(v)@.no_duplicates() ==> final(v)@.no_duplicates(),
{
    let ghost v0 = v@;
    let mut j: usize = 0;
    while j < b.len()
        invariant
            0 <= j <= b.len(),
            forall|x: u64| v@.contains(x) <==> v0.contains(x) || b@.subrange(0, j as int).contains(x),
            v0 == old(v)@,
            v0.no_duplicates() ==> v@.no_duplicates(),
        decreases b.len() - j,
    {
        let x = b[j];
        insert_node(v, x);
        let next: usize = j + 1;
        proof {
            let bj = b@.subrange(0, j as int);
            let bn = b@.subrange(0, next as int);
            assert(bn =~= bj.push(x));
            assert forall|y: u64| bn.contains(y) <==> bj.contains(y) || y == x by {
                if bn.contains(y) {
                    let m = choose|m: int| 0 <= m < bn.len() && bn[m] == y;
                    if m < bj.len() {
                        assert(bj[m] == y);
                    }
                }
                if bj.contains(y) {
                    let m = choose|m: int| 0 <= m < bj.len() && bj[m] == y;
                    assert(bn[m] == y);
                }
                if y == x {
                    assert(bn[bn.len() - 1] == y);
                }
            }
        }
        j = next;
    }
    proof {
        assert(b@.subrange(0, b@.len() as int) =~= b@);
    }
}

/// The nodes of `a` and `b`, each once.
fn union_nodes(a: &Vec<u64>, b: &Vec<u64>) -> (r: Vec<u64>)
    ensures
        forall|x: u64| r@.contains(x) <==> a@.contains(x) || b@.contains(x),
        r@.no_duplicates(),
{
    let mut r: Vec<u64> = Vec::new();
    let ghost r0 = r@;
    insert_all(&mut r, a);
    let ghost r1 = r@;
    insert_all(&mut r, b);
    proof {
        assert forall|x: u64| r@.contains(x) <==> a@.contains(x) || b@.contains(x) by {
            if r0.contains(x) {
                let m = choose|m: int| 0 <= m < r0.len() && r0[m] == x;
            }
            assert(r@.contains(x) <==> r1.contains(x) || b@.contains(x));
            assert(r1.contains(x) <==> r0.contains(x) || a@.contains(x));
        }
    }
    r
}

/// The nodes of `a` that are not in `removed`.
fn filter_nodes(a: &Vec<u64>, removed: &Vec<u64>) -> (r: Vec<u64>)
    ensures
        forall|x: u64| r@.contains(x) <==> a@.contains(x) && !removed@.contains(x),
        r@.no_duplicates(),
{
    let mut r: Vec<u64> = Vec::new();
    let mut i: usize = 0;
    while i < a.len()
        invariant
            0 <= i <= a.len(),
            forall|x: u64|
                r@.contains(x) <==> a@.subrange(0, i as int).contains(x) && !removed@.contains(x),
            r@.no_duplicates(),
        decreases a.len() - i,
    {
        let x = a[i];
        if !holds_node(removed, x) {
            insert_node(&mut r, x);
        }
        let next: usize = i + 1;
        proof {
            let ai = a@.subrange(0, i as int);
            let an = a@.subrange(0, next as int);
            assert(an =~= ai.push(x));
            assert forall|y: u64| an.contains(y) <==> ai.contains(y) || y == x by {
                if an.contains(y) {
                    let m = choose|m: int| 0 <= m < an.len() && an[m] == y;
                    if m < ai.len() {
                        assert(ai[m] == y);
                    }
                }
                if ai.contains(y) {
                    let m = choose|m: int| 0 <= m < ai.len() && ai[m] == y;
                    assert(an[m] == y);
                }
                if y == x {
                    assert(an[an.len() - 1] == y);
                }
            }
        }
        i = next;
    }
    proof {
        assert(a@.subrange(0, a@.len() as int) =~= a@);
    }
    r
}

/// A user interaction.
pub struct Interaction {
    fsm: FSM,
    data: InteractionData,
    registered: Vec<u64>,
    observed: Vec<u64>,
    activated: bool,
    stop_propagation: bool,
    prevent_default: bool,
    throttle: Throttle,
}

impl View for Interaction {
    type V = InteractionView;

    closed spec fn view(&self) -> InteractionView {
        InteractionView {
            fsm: self.fsm@,
            data: self.data@,
            registered: self.registered@,
            observed: self.observed@,
            activated: self.activated,
            stop_propagation: self.stop_propagation,
            prevent_default: self.prevent_default,
            throttle: self.throttle@,
        }
    }
}

impl Interaction {
    /// The machine is well formed, and each node is registered or observed once.
    pub closed spec fn wf(&self) -> bool {
        &&& self.fsm.wf()
        &&& self.registered@.no_duplicates()
        &&& self.observed@.no_duplicates()
    }

    /// An activated interaction around `fsm`, with empty data and no nodes.
    pub fn new(fsm: FSM) -> (r: Interaction)
        requires
            fsm.wf(),
        ensures
            r.wf(),
            r@ == (InteractionView {
                fsm: fsm@,
                data: Seq::empty(),
                registered: Seq::empty(),
                observed: Seq::empty(),
                activated: true,
                stop_propagation: false,
                prevent_default: false,
                throttle: ThrottleView { timeout: 0, pending: None, last: None },
            }),
    {
        Interaction {
            fsm,
            data: InteractionData::new(),
            registered: Vec::new(),
            observed: Vec::new(),
            activated: true,
            stop_propagation: false,
            prevent_default: false,
            throttle: Throttle::new(0),
        }
    }

    pub fn fsm(&self) -> (r: &FSM)
        ensures
            r@ == self@.fsm,
            self.wf() ==> r.wf(),
    {
        &self.fsm
    }

    pub fn data(&self) -> (r: &InteractionData)
        ensures
            r@ == self@.data,
    {
        &self.data
    }

    pub fn registered_nodes(&self) -> (r: &Vec<u64>)
        ensures
            r@ == self@.registered,
    {
        &self.registered
    }

    pub fn dynamic_registered_nodes(&self) -> (r: &Vec<u64>)
        ensures
            r@ == self@.observed,
    {
        &self.observed
    }

    pub fn is_running(&self) -> (r: bool)
        ensures
            r == self@.fsm.started,
    {
        self.fsm.started()
    }

    pub fn is_activated(&self) -> (r: bool)
        ensures
            r == self@.activated,
    {
        self.activated
    }

    pub fn set_activated(&mut self, activated: bool)
        requires
            old(self).wf(),
        ensures
            final(self).wf(),
            final(self)@ == (InteractionView { activated, ..old(self)@ }),
    {
        self.activated = activated;
    }

    pub fn set_stop_immediate_propagation(&mut self, stop: bool)
        requires
            old(self).wf(),
        ensures
            final(self).wf(),
            final(self)@ == (InteractionView { stop_propagation: stop, ..old(self)@ }),
    {
        self.stop_propagation = stop;
    }

    pub fn set_prevent_default(&mut self, prevent: bool)
        requires
            old(self).wf(),
        ensures
            final(self).wf(),
            final(self)@ == (InteractionView { prevent_default: prevent, ..old(self)@ }),
    {
        self.prevent_default = prevent;
    }

    pub fn set_throttle_timeout(&mut self, timeout: u64) -> (r: Result<(), UseAfterUninstall>)
        requires
            old(self).wf(),
        ensures
            final(self).wf(),
            old(self)@.fsm.uninstalled ==> r is Err && final(self)@ == old(self)@,
            !old(self)@.fsm.uninstalled ==> r is Ok && final(self)@ == (InteractionView {
                throttle: ThrottleView { timeout, pending: None, last: None },
                ..old(self)@
            }),
    {
        if self.fsm.is_uninstalled() {
            return Err(UseAfterUninstall);
        }
        self.throttle = Throttle::new(timeout);
        Ok(())
    }

    /// Takes a raw event arrived at `now` and gives the events to process now, in order.
    pub fn throttle_event(&mut self, e: Event, now: u64) -> (r: Result<Vec<Event>, UseAfterUninstall>)
        requires
            old(self).wf(),
        ensures
            final(self).wf(),
            old(self)@.fsm.uninstalled ==> r is Err && final(self)@ == old(self)@,
            !old(self)@.fsm.uninstalled ==> r is Ok && r->Ok_0@ == offer_out(old(self)@.throttle, e, now)
                && final(self)@ == (InteractionView {
                throttle: offer_next(old(self)@.throttle, e, now),
                ..old(self)@
            }),
    {
        if self.fsm.is_uninstalled() {
            return Err(UseAfterUninstall);
        }
        Ok(self.throttle.offer(e, now))
    }

    /// Releases the held-back event once its throttling window is over.
    pub fn expire_throttle(&mut self, now: u64) -> (r: Result<Option<Event>, UseAfterUninstall>)
        requires
            old(self).wf(),
        ensures
            final(self).wf(),
            old(self)@.fsm.uninstalled ==> r is Err && final(self)@ == old(self)@,
            !old(self)@.fsm.uninstalled ==> {
                &&& r is Ok
                &&& final(self)@ == (InteractionView { throttle: final(self)@.throttle, ..old(self)@ })
                &&& old(self)@.throttle.pending is Some && window_over(
                    old(self)@.throttle.last,
                    now,
                    old(self)@.throttle.timeout,
                ) ==> r->Ok_0 == old(self)@.throttle.pending && final(self)@.throttle == (ThrottleView {
                    pending: None,
                    last: Some(now),
                    ..old(self)@.throttle
                })
                &&& !(old(self)@.throttle.pending is Some && window_over(
                    old(self)@.throttle.last,
                    now,
                    old(self)@.throttle.timeout,
                )) ==> r->Ok_0 is None && final(self)@ == old(self)@
            },
    {
        if self.fsm.is_uninstalled() {
            return Err(UseAfterUninstall);
        }
        Ok(self.throttle.expire(now))
    }

    pub fn stops_propagation(&self) -> (r: bool)
        ensures
            r == self@.stop_propagation,
    {
        self.stop_propagation
    }

    pub fn prevents_default(&self) -> (r: bool)
        ensures
            r == self@.prevent_default,
    {
        self.prevent_default
    }

    /// Registers the interaction to the given nodes, in place of the former ones.
    pub fn register_to_nodes(&mut self, nodes: Vec<u64>) -> (r: Result<(), UseAfterUninstall>)
        requires
            old(self).wf(),
        ensures
            final(self).wf(),
            old(self)@.fsm.uninstalled ==> r is Err && final(self)@ == old(self)@,
            !old(self)@.fsm.uninstalled ==> r is Ok && final(self)@ == (InteractionView {
                registered: final(self)@.registered,
                ..old(self)@
            }) && forall|x: u64| final(self)@.registered.contains(x) <==> nodes@.contains(x),
    {
        if self.fsm.is_uninstalled() {
            return Err(UseAfterUninstall);
        }
        self.registered = union_nodes(&Vec::new(), &nodes);
        Ok(())
    }

    /// Starts observing the children of `node`: the children reported by
    /// `on_children_changed` are added to or removed from the registered nodes.
    pub fn register_to_node_children(&mut self, node: u64) -> (r: Result<(), UseAfterUninstall>)
        requires
            old(self).wf(),
        ensures
            final(self).wf(),
            old(self)@.fsm.uninstalled ==> r is Err && final(self)@ == old(self)@,
            !old(self)@.fsm.uninstalled ==> r is Ok && final(self)@ == (InteractionView {
                observed: final(self)@.observed,
                ..old(self)@
            }) && forall|x: u64| final(self)@.observed.contains(x) <==> old(self)@.observed.contains(x) || x == node,
    {
        if self.fsm.is_uninstalled() {
            return Err(UseAfterUninstall);
        }
        insert_node(&mut self.observed, node);
        Ok(())
    }

    /// Reacts to a change in the children of `node`: when `node` is observed, the added
    /// children become registered nodes and the removed ones stop being so.
    pub fn on_children_changed(&mut self, node: u64, added: &Vec<u64>, removed: &Vec<u64>) -> (r: Result<
        (),
        UseAfterUninstall,
    >)
        requires
            old(self).wf(),
        ensures
            final(self).wf(),
            old(self)@.fsm.uninstalled ==> r is Err && final(self)@ == old(self)@,
            !old(self)@.fsm.uninstalled ==> r is Ok,
            !old(self)@.fsm.uninstalled && !old(self)@.observed.contains(node) ==> final(self)@ == old(self)@,
            !old(self)@.fsm.uninstalled && old(self)@.observed.contains(node) ==> {
                &&& final(self)@ == (InteractionView { registered: final(self)@.registered, ..old(self)@ })
                &&& forall|x: u64|
                    final(self)@.registered.contains(x) <==> (old(self)@.registered.contains(x)
                        || added@.contains(x)) && !removed@.contains(x)
            },
    {
        if self.fsm.is_uninstalled() {
            return Err(UseAfterUninstall);
        }
        if !holds_node(&self.observed, node) {
            return Ok(());
        }
        let all = union_nodes(&self.registered, added);
        let kept = filter_nodes(&all, removed);
        self.registered = kept;
        Ok(())
    }

    /// Sends the event to the machine, with the user routines `g`, and records it in the
    /// data when the transition that fired asks for it; the data is cleared when the run
    /// ended without notification. The propagation flags do not gate the processing.
    pub fn process_event<G: TransitionRoutines>(&mut self, e: &Event, g: &mut G) -> (r: Result<
        Step,
        UseAfterUninstall,
    >)
        requires
            old(self).wf(),
        ensures
            final(self).wf(),
            old(self)@.fsm.uninstalled ==> r is Err && final(self)@ == old(self)@ && final(g).performed()
                == old(g).performed(),
            !old(self)@.fsm.uninstalled ==> {
                let ans = answers_of(*old(g), *e, old(self)@.data);
                &&& r == Ok::<Step, UseAfterUninstall>(step_of(old(self)@.fsm, *e, ans))
                &&& final(self)@ == (InteractionView {
                    fsm: after(old(self)@.fsm, *e, ans),
                    data: data_after(old(self)@, *e, ans),
                    ..old(self)@
                })
                &&& final(g).performed() == old(g).performed() + actions_of(old(self)@.fsm, *e, ans)
            },
    {
        let ghost v = self@;
        let ghost ans = answers_of(*g, *e, self.data@);
        proof {
            single_fire(v.fsm.transitions, v.fsm.current, *e, ans);
        }
        let r = self.fsm.process(e, &self.data.events, g);
        match r {
            Ok(step) => {
                let silent_end = match step.notification {
                    Notification::Silent => match step.error {
                        Some(_) => true,
                        None => match step.fired {
                            Some(j) => !self.fsm.state_kind_is_standard(self.fsm.transition(j).tgt),
                            None => false,
                        },
                    },
                    _ => false,
                };
                if silent_end {
                    self.data = InteractionData::new();
                } else {
                    match step.fired {
                        Some(j) => {
                            if self.fsm.transition(j).action == Action::Record {
                                self.data.events.push(*e);
                            }
                        },
                        None => {},
                    }
                }
                Ok(step)
            },
            Err(u) => Err(u),
        }
    }

    /// Fires the timeout transition of the current state, if any; the data is kept.
    pub fn on_timeout(&mut self) -> (r: Result<Step, UseAfterUninstall>)
        requires
            old(self).wf(),
        ensures
            final(self).wf(),
            old(self)@.fsm.uninstalled ==> r is Err && final(self)@ == old(self)@,
            !old(self)@.fsm.uninstalled ==> r == Ok::<Step, UseAfterUninstall>(timeout_step(old(self)@.fsm))
                && final(self)@ == (InteractionView { fsm: after_timeout(old(self)@.fsm), ..old(self)@ }),
    {
        self.fsm.on_timeout()
    }

    /// Clears the data of the run.
    pub fn reinit_data(&mut self)
        requires
            old(self).wf(),
        ensures
            final(self).wf(),
            final(self)@ == (InteractionView { data: Seq::empty(), ..old(self)@ }),
    {
        self.data = InteractionData::new();
    }

    /// Puts the machine back at its initial state and clears the data.
    pub fn reinit(&mut self)
        requires
            old(self).wf(),
        ensures
            final(self).wf(),
            final(self)@ == (InteractionView {
                fsm: reset(old(self)@.fsm),
                data: Seq::empty(),
                ..old(self)@
            }),
    {
        self.fsm.reinit();
        self.data = InteractionData::new();
    }

    /// Like `reinit`, and also discards the event held back by the throttle.
    pub fn full_reinit(&mut self)
        requires
            old(self).wf(),
        ensures
            final(self).wf(),
            final(self)@ == (InteractionView {
                fsm: reset(old(self)@.fsm),
                data: Seq::empty(),
                throttle: ThrottleView { timeout: old(self)@.throttle.timeout, pending: None, last: None },
                ..old(self)@
            }),
    {
        self.reinit();
        let timeout = self.throttle.timeout();
        self.throttle = Throttle::new(timeout);
    }

    /// Uninstalls the machine and forgets the nodes; later events are refused.
    pub fn uninstall(&mut self)
        requires
            old(self).wf(),
        ensures
            final(self).wf(),
            final(self)@ == (InteractionView {
                fsm: final(self)@.fsm,
                data: Seq::empty(),
                registered: Seq::empty(),
                observed: Seq::empty(),
                ..old(self)@
            }),
            final(self)@.fsm.uninstalled,
    {
        self.fsm.uninstall();
        self.data = InteractionData::new();
        self.registered = Vec::new();
        self.observed = Vec::new();
    }
}

} // verus!
