//! Coalescing of high-frequency events: within a time window, only the latest event of a
//! throttled kind is forwarded to the machine.
use vstd::prelude::*;
use crate::event_type::{Event, EventType, MouseEventType, TouchEventType};

verus! {

/// The kinds whose events are coalesced.
pub open spec fn is_throttled(k: EventType) -> bool {
    k == EventType::Mouse(MouseEventType::Mousemove) || k == EventType::Touch(TouchEventType::Touchmove)
        || k == EventType::Wheel || k == EventType::Scroll
}

pub fn throttled_kind(k: EventType) -> (r: bool)
    ensures
        r == is_throttled(k),
{
    match k {
        EventType::Mouse(MouseEventType::Mousemove) => true,
        EventType::Touch(TouchEventType::Touchmove) => true,
        EventType::Wheel => true,
        EventType::Scroll => true,
        _ => false,
    }
}

/// The mathematical content of a throttle.
pub struct ThrottleView {
    /// The window in milliseconds; 0 disables throttling.
    pub timeout: u64,
    /// The latest throttled event held back.
    pub pending: Option<Event>,
    /// When the last throttled event was forwarded.
    pub last: Option<u64>,
}

/// Whether the window opened at `last` is over at `now`.
pub open spec fn window_over(last: Option<u64>, now: u64, timeout: u64) -> bool {
    match last {
        None => true,
        Some(t) => now >= t && now - t >= timeout,
    }
}

/// The events forwarded when `e` arrives at `now`, in order.
pub open spec fn offer_out(v: ThrottleView, e: Event, now: u64) -> Seq<Event> {
    if v.timeout == 0 || !is_throttled(e.kind) {
        match v.pending {
            Some(p) => seq![p, e],
            None => seq![e],
        }
    } else if window_over(v.last, now, v.timeout) {
        match v.pending {
            Some(p) => if p.kind != e.kind {
                seq![p, e]
            } else {
                seq![e]
            },
            None => seq![e],
        }
    } else {
        match v.pending {
            Some(p) => if p.kind != e.kind {
                seq![p]
            } else {
                Seq::empty()
            },
            None => Seq::empty(),
        }
    }
}

/// The throttle after `e` arrived at `now`.
pub open spec fn offer_next(v: ThrottleView, e: Event, now: u64) -> ThrottleView {
    if v.timeout == 0 || !is_throttled(e.kind) {
        ThrottleView { pending: None, ..v }
    } else if window_over(v.last, now, v.timeout) {
        ThrottleView { pending: None, last: Some(now), ..v }
    } else {
        ThrottleView { pending: Some(e), ..v }
    }
}

/// Holds back throttled events that arrive within the window of the previous one.
pub struct Throttle {
    timeout: u64,
    pending: Option<Event>,
    last: Option<u64>,
}

impl View for Throttle {
    type V = ThrottleView;

    closed spec fn view(&self) -> ThrottleView {
        ThrottleView { timeout: self.timeout, pending: self.pending, last: self.last }
    }
}

impl Throttle {
    pub fn new(timeout: u64) -> (r: Throttle)
        ensures
            r@ == (ThrottleView { timeout, pending: None, last: None }),
    {
        Throttle { timeout, pending: None, last: None }
    }

    pub fn timeout(&self) -> (r: u64)
        ensures
            r == self@.timeout,
    {
        self.timeout
    }

    /// Takes event `e`, arrived at `now`, and gives the events to forward now, in order.
    /// An event is never lost silently: it is forwarded, or held back until a later event
    /// of its kind replaces it or `expire` releases it; a held-back event of another kind
    /// is forwarded first.
    pub fn offer(&mut self, e: Event, now: u64) -> (r: Vec<Event>)
        ensures
            r@ == offer_out(old(self)@, e, now),
            final(self)@ == offer_next(old(self)@, e, now),
            r@.contains(e) || final(self)@.pending == Some(e),
            old(self)@.pending matches Some(p) ==> r@.contains(p) || p.kind == e.kind,
    {
        let mut out: Vec<Event> = Vec::new();
        if self.timeout == 0 || !throttled_kind(e.kind) {
            match self.pending {
                Some(p) => out.push(p),
                None => {},
            }
            out.push(e);
            self.pending = None;
        } else if self.window_over(now) {
            match self.pending {
                Some(p) => {
                    if p.kind != e.kind {
                        out.push(p);
                    }
                },
                None => {},
            }
            out.push(e);
            self.pending = None;
            self.last = Some(now);
        } else {
            match self.pending {
                Some(p) => {
                    if p.kind != e.kind {
                        out.push(p);
                    }
                },
                None => {},
            }
            self.pending = Some(e);
        }
        proof {
            assert(out@ =~= offer_out(old(self)@, e, now));
            if out@.len() > 0 && out@.last() == e {
                assert(out@[out@.len() - 1] == e);
            }
            if out@.len() > 0 {
                assert(out@[0] == out@.first());
            }
        }
        out
    }

    fn window_over(&self, now: u64) -> (r: bool)
        ensures
            r == window_over(self@.last, now, self@.timeout),
    {
        match self.last {
            None => true,
            Some(t) => now >= t && now - t >= self.timeout,
        }
    }

    /// Releases the held-back event once its window is over.
    pub fn expire(&mut self, now: u64) -> (r: Option<Event>)
        ensures
            old(self)@.pending is Some && window_over(old(self)@.last, now, old(self)@.timeout) ==> {
                &&& r == old(self)@.pending
                &&& final(self)@ == (ThrottleView { pending: None, last: Some(now), ..old(self)@ })
            },
            !(old(self)@.pending is Some && window_over(old(self)@.last, now, old(self)@.timeout))
                ==> r is None && final(self)@ == old(self)@,
    {
        match self.pending {
            Some(p) => {
                if self.window_over(now) {
                    self.pending = None;
                    self.last = Some(now);
                    Some(p)
                } else {
                    None
                }
            },
            None => None,
        }
    }
}

} // verus!
