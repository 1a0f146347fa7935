//! The configuration of a binding, built step by step, then turned into a binding.
use vstd::prelude::*;
use crate::binding::{Binding, BindingHooks};
use crate::checker::{RuleName, Severity};
use crate::command::CustomCmd;
use crate::fsm::FSM;
use crate::interaction::{Interaction, InteractionView};
use crate::throttle::ThrottleView;

verus! {

/// A reference to a native element, identified by its node id.
#[derive(PartialEq, Eq, Structural, Clone, Copy, Debug)]
pub struct EltRef {
    pub native_element: u64,
}

/// A widget a binding operates on: a reference to an element, or the element itself.
#[derive(PartialEq, Eq, Structural, Clone, Copy, Debug)]
pub enum Widget {
    EltRef(EltRef),
    Target(u64),
}

impl Widget {
    /// The node that the widget designates.
    pub open spec fn node(self) -> u64 {
        match self {
            Widget::EltRef(r) => r.native_element,
            Widget::Target(n) => n,
        }
    }

    pub fn node_id(&self) -> (r: u64)
        ensures
            r == self.node(),
    {
        match *self {
            Widget::EltRef(r) => r.native_element,
            Widget::Target(n) => n,
        }
    }
}

/// Whether the widget is given through an element reference.
pub fn is_elt_ref(obj: &Widget) -> (r: bool)
    ensures
        r == (*obj is EltRef),
{
    match obj {
        Widget::EltRef(_) => true,
        Widget::Target(_) => false,
    }
}

/// What a binding logs.
#[derive(PartialEq, Eq, Structural, Clone, Copy, Debug)]
pub enum LogLevel {
    Interaction,
    Binding,
    Command,
    Usage,
}

/// The mathematical content of a binder.
pub struct BinderView {
    pub widgets: Seq<Widget>,
    pub dynamic_nodes: Seq<Widget>,
    pub log_levels: Seq<LogLevel>,
    pub stop_propagation: bool,
    pub prev_default: bool,
    pub name: Option<Seq<char>>,
    pub rules: Seq<(RuleName, Severity)>,
    pub continuous: bool,
}

/// The node ids of a sequence of widgets.
pub open spec fn nodes_of(ws: Seq<Widget>) -> Seq<u64> {
    ws.map_values(|w: Widget| w.node())
}

/// The configuration of a binding.
pub struct Binder {
    widgets: Vec<Widget>,
    dynamic_nodes: Vec<Widget>,
    log_levels: Vec<LogLevel>,
    stop_propagation: bool,
    prev_default: bool,
    binding_name: Option<String>,
    linter_rules: Vec<(RuleName, Severity)>,
    continuous: bool,
}

impl View for Binder {
    type V = BinderView;

    closed spec fn view(&self) -> BinderView {
        BinderView {
            widgets: self.widgets@,
            dynamic_nodes: self.dynamic_nodes@,
            log_levels: self.log_levels@,
            stop_propagation: self.stop_propagation,
            prev_default: self.prev_default,
            name: match self.binding_name {
                Some(n) => Some(n@),
                None => None,
            },
            rules: self.linter_rules@,
            continuous: self.continuous,
        }
    }
}

/// Appends `extra` to `v`, in order.
fn extend<T: Copy>(v: &mut Vec<T>, extra: &Vec<T>)
    ensures
        final(v)@ == old(v)@ + extra@,
{
    let mut i: usize = 0;
    while i < extra.len()
        invariant
            0 <= i <= extra.len(),
            v@ == old(v)@ + extra@.subrange(0, i as int),
        decreases extra.len() - i,
    {
        v.push(extra[i]);
        i = i + 1;
        proof {
            assert(extra@.subrange(0, i as int) =~= extra@.subrange(0, i - 1).push(extra@[i - 1]));
        }
    }
    proof {
        assert(extra@.subrange(0, extra@.len() as int) =~= extra@);
    }
}

impl Binder {
    /// An empty configuration, or one that takes over the widgets, nodes, log levels,
    /// name, rules and execution mode of `binder`. The propagation flags start unset.
    pub fn new(binder: Option<Binder>) -> (r: Binder)
        ensures
            !r@.stop_propagation,
            !r@.prev_default,
            binder is None ==> r@ == (BinderView {
                widgets: Seq::empty(),
                dynamic_nodes: Seq::empty(),
                log_levels: Seq::empty(),
                stop_propagation: false,
                prev_default: false,
                name: None,
                rules: Seq::empty(),
                continuous: false,
            }),
            binder matches Some(b) ==> r@ == (BinderView {
                stop_propagation: false,
                prev_default: false,
                ..b@
            }),
    {
        let mut instance = Binder {
            widgets: Vec::new(),
            dynamic_nodes: Vec::new(),
            log_levels: Vec::new(),
            stop_propagation: false,
            prev_default: false,
            binding_name: None,
            linter_rules: Vec::new(),
            continuous: false,
        };
        match binder {
            Some(b) => {
                instance.widgets = b.widgets;
                instance.dynamic_nodes = b.dynamic_nodes;
                instance.log_levels = b.log_levels;
                instance.binding_name = b.binding_name;
                instance.linter_rules = b.linter_rules;
                instance.continuous = b.continuous;
            },
            None => {},
        }
        instance
    }

    /// Adds widgets the binding will operate on.
    pub fn on(self, widgets: Vec<Widget>) -> (r: Binder)
        ensures
            r@ == (BinderView { widgets: self@.widgets + widgets@, ..self@ }),
    {
        let mut b = self;
        extend(&mut b.widgets, &widgets);
        b
    }

    /// Adds a node whose children the binding will observe.
    pub fn on_dynamic(self, node: Widget) -> (r: Binder)
        ensures
            r@ == (BinderView { dynamic_nodes: self@.dynamic_nodes.push(node), ..self@ }),
    {
        let mut b = self;
        b.dynamic_nodes.push(node);
        b
    }

    pub fn log(self, levels: Vec<LogLevel>) -> (r: Binder)
        ensures
            r@ == (BinderView { log_levels: self@.log_levels + levels@, ..self@ }),
    {
        let mut b = self;
        extend(&mut b.log_levels, &levels);
        b
    }

    pub fn stop_immediate_propagation(self) -> (r: Binder)
        ensures
            r@ == (BinderView { stop_propagation: true, ..self@ }),
    {
        let mut b = self;
        b.stop_propagation = true;
        b
    }

    pub fn prevent_default(self) -> (r: Binder)
        ensures
            r@ == (BinderView { prev_default: true, ..self@ }),
    {
        let mut b = self;
        b.prev_default = true;
        b
    }

    pub fn name(self, name: String) -> (r: Binder)
        ensures
            r@ == (BinderView { name: Some(name@), ..self@ }),
    {
        let mut b = self;
        b.binding_name = Some(name);
        b
    }

    /// Gives `severity` to `rule_name` for this binding; a later setting wins.
    pub fn configure_rules(self, rule_name: RuleName, severity: Severity) -> (r: Binder)
        ensures
            r@ == (BinderView { rules: self@.rules.push((rule_name, severity)), ..self@ }),
    {
        let mut b = self;
        b.linter_rules.push((rule_name, severity));
        b
    }

    /// Executes the command at every step of the interaction, not only at its end.
    pub fn continuous_execution(self) -> (r: Binder)
        ensures
            r@ == (BinderView { continuous: true, ..self@ }),
    {
        let mut b = self;
        b.continuous = true;
        b
    }

    fn node_ids(ws: &Vec<Widget>) -> (r: Vec<u64>)
        ensures
            r@ == nodes_of(ws@),
    {
        let mut r: Vec<u64> = Vec::new();
        let mut i: usize = 0;
        while i < ws.len()
            invariant
                0 <= i <= ws.len(),
                r@ == nodes_of(ws@.subrange(0, i as int)),
            decreases ws.len() - i,
        {
            let n = ws[i].node_id();
            r.push(n);
            i = i + 1;
            proof {
                assert(nodes_of(ws@.subrange(0, i as int)) =~= nodes_of(ws@.subrange(0, i - 1)).push(n));
            }
        }
        proof {
            assert(ws@.subrange(0, ws@.len() as int) =~= ws@);
        }
        r
    }

    /// Builds the binding: an interaction around `fsm`, registered to the widgets' nodes,
    /// observing the dynamic nodes, with the configured flags, rules and execution mode.
    pub fn bind<T: CustomCmd, A, H: BindingHooks<T, A>>(self, fsm: FSM, hooks: H) -> (r: Binding<T, A, H>)
        requires
            fsm.wf(),
            !fsm@.uninstalled,
        ensures
            r.wf(),
            r.interaction_view() == (InteractionView {
                fsm: fsm@,
                data: Seq::empty(),
                registered: r.interaction_view().registered,
                observed: r.interaction_view().observed,
                activated: true,
                stop_propagation: self@.stop_propagation,
                prevent_default: self@.prev_default,
                throttle: ThrottleView { timeout: 0, pending: None, last: None },
            }),
            forall|x: u64| r.interaction_view().registered.contains(x) <==> nodes_of(self@.widgets).contains(x),
            forall|x: u64| r.interaction_view().observed.contains(x) <==> nodes_of(self@.dynamic_nodes).contains(x),
            r.label() == match self@.name {
                Some(n) => n,
                None => Seq::<char>::empty(),
            },
            r.command() is None,
            r.ended() == 0,
            r.cancelled() == 0,
            r.history().len() == 0,
            r.continuous() == self@.continuous,
            r.rules() == self@.rules,
            r.reactions().len() == 0,
    {
        let mut interaction = Interaction::new(fsm);
        interaction.set_stop_immediate_propagation(self.stop_propagation);
        interaction.set_prevent_default(self.prev_default);
        let _ = interaction.register_to_nodes(Binder::node_ids(&self.widgets));
        let observed = Binder::node_ids(&self.dynamic_nodes);
        let mut i: usize = 0;
        proof {
            assert(observed@.subrange(0, 0) =~= Seq::<u64>::empty());
            assert forall|x: u64| !interaction@.observed.contains(x) by {
                if interaction@.observed.contains(x) {
                    let m = choose|m: int| 0 <= m < interaction@.observed.len() && interaction@.observed[m] == x;
                }
            }
        }
        while i < observed.len()
            invariant
                0 <= i <= observed.len(),
                interaction.wf(),
                !fsm@.uninstalled,
                forall|x: u64| interaction@.registered.contains(x) <==> nodes_of(self@.widgets).contains(x),
                forall|x: u64|
                    interaction@.observed.contains(x) <==> observed@.subrange(0, i as int).contains(x),
                interaction@ == (InteractionView {
                    fsm: fsm@,
                    data: Seq::empty(),
                    registered: interaction@.registered,
                    observed: interaction@.observed,
                    activated: true,
                    stop_propagation: self@.stop_propagation,
                    prevent_default: self@.prev_default,
                    throttle: ThrottleView { timeout: 0, pending: None, last: None },
                }),
            decreases observed.len() - i,
        {
            let x = observed[i];
            let _ = interaction.register_to_node_children(x);
            let next: usize = i + 1;
            proof {
                let oi = observed@.subrange(0, i as int);
                let on = observed@.subrange(0, next as int);
                assert(on =~= oi.push(x));
                assert forall|y: u64| on.contains(y) <==> oi.contains(y) || y == x by {
                    if on.contains(y) {
                        let m = choose|m: int| 0 <= m < on.len() && on[m] == y;
                        if m < oi.len() {
                            assert(oi[m] == y);
                        }
                    }
                    if oi.contains(y) {
                        let m = choose|m: int| 0 <= m < oi.len() && oi[m] == y;
                        assert(on[m] == y);
                    }
                    if y == x {
                        assert(on[on.len() - 1] == y);
                    }
                }
            }
            i = next;
        }
        proof {
            assert(observed@.subrange(0, observed@.len() as int) =~= observed@);
        }
        let name = match self.binding_name {
            Some(n) => n,
            None => String::new(),
        };
        Binding::new(name, interaction, hooks, self.continuous, self.linter_rules)
    }
}

} // verus!
