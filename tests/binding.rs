use interacto::binder::{is_elt_ref, Binder, EltRef, Widget};
use interacto::binding::{Binding, BindingError};
use interacto::routines::{CountingCmd, RecordingHooks, ScriptedGuards};
use interacto::checker::{RuleName, Severity};
use interacto::command::CmdStatus;
use interacto::event_type::{Event, EventType, KeyEventType, MouseEventType};
use interacto::throttle::Throttle;
use interacto::fsm::{Action, Guard, Notification, StateKind, TimeoutTransition, TransitionBase, UseAfterUninstall, FSM};

type TestCmd = CountingCmd;
type Hooks = RecordingHooks;

fn no_guards() -> ScriptedGuards {
    ScriptedGuards::new(vec![])
}

fn press() -> Event {
    Event::new(EventType::Mouse(MouseEventType::Mousedown), 0)
}

fn release() -> Event {
    Event::new(EventType::Mouse(MouseEventType::Mouseup), 0)
}

fn moved(x: i64) -> Event {
    Event::new(EventType::Mouse(MouseEventType::Mousemove), x)
}

fn scroll() -> Event {
    Event::new(EventType::Scroll, 0)
}

/// Init --press--> Mid --release--> Term, with the given guard on the second transition.
fn press_release(guard: Option<Guard>) -> (FSM, usize, usize) {
    let mut fsm = FSM::new("init".to_string());
    let mid = fsm.add_state("mid".to_string(), StateKind::Standard).unwrap();
    let term = fsm.add_state("term".to_string(), StateKind::Terminal).unwrap();
    fsm.add_transition(TransitionBase::new(0, mid, vec![EventType::Mouse(MouseEventType::Mousedown)], None, Some(Guard::Always))).unwrap();
    fsm.add_transition(TransitionBase::new(mid, term, vec![EventType::Mouse(MouseEventType::Mouseup)], None, guard)).unwrap();
    (fsm, mid, term)
}

/// Init --press--> Mid --move--> Mid --release--> Term.
fn drag() -> (FSM, usize) {
    let mut fsm = FSM::new("init".to_string());
    let mid = fsm.add_state("mid".to_string(), StateKind::Standard).unwrap();
    let term = fsm.add_state("term".to_string(), StateKind::Terminal).unwrap();
    fsm.add_transition(TransitionBase::new(0, mid, vec![EventType::Mouse(MouseEventType::Mousedown)], Some(Action::Record), None)).unwrap();
    fsm.add_transition(TransitionBase::new(mid, mid, vec![EventType::Mouse(MouseEventType::Mousemove)], Some(Action::Record), None)).unwrap();
    fsm.add_transition(TransitionBase::new(mid, term, vec![EventType::Mouse(MouseEventType::Mouseup)], None, None)).unwrap();
    (fsm, mid)
}

fn bind(fsm: FSM, hooks: Hooks) -> Binding<TestCmd, i64, Hooks> {
    Binder::new(None).bind(fsm, hooks)
}

#[test]
fn press_release_fsm_steps() {
    let (mut fsm, mid, term) = press_release(None);
    let s1 = fsm.process(&press(), &vec![], &mut no_guards()).unwrap();
    assert_eq!(s1.fired, Some(0));
    assert_eq!(s1.notification, Notification::Starting);
    assert_eq!(fsm.current_state(), mid);
    assert!(fsm.started());
    let s2 = fsm.process(&release(), &vec![], &mut no_guards()).unwrap();
    assert_eq!(s2.fired, Some(1));
    assert_eq!(fsm.transition(1).target(), term);
    assert_eq!(s2.notification, Notification::Terminating);
    assert_eq!(fsm.current_state(), fsm.init_state());
    assert!(!fsm.started());
}

#[test]
fn press_release_binding_ends_once() {
    let (fsm, mid, _) = press_release(None);
    let mut b = bind(fsm, Hooks::new());
    assert_eq!(b.process_event(&press(), &mut no_guards()), Ok(true));
    assert_eq!(b.interaction().fsm().current_state(), mid);
    assert!(b.running());
    assert_eq!(b.process_event(&release(), &mut no_guards()), Ok(true));
    assert_eq!(b.times_ended(), 1);
    assert_eq!(b.times_cancelled(), 0);
    assert_eq!(b.hooks().firsts, 1);
    assert_eq!(b.hooks().ends, 1);
    assert!(!b.running());
    assert_eq!(b.command_status(), None);
}

#[test]
fn unrelated_event_changes_nothing() {
    let (mut fsm, mid, _) = press_release(None);
    fsm.process(&press(), &vec![], &mut no_guards()).unwrap();
    let s = fsm.process(&scroll(), &vec![], &mut no_guards()).unwrap();
    assert_eq!(s.fired, None);
    assert_eq!(s.notification, Notification::Silent);
    assert_eq!(s.error, None);
    assert_eq!(fsm.current_state(), mid);

    let (fsm2, mid2, _) = press_release(None);
    let mut b = bind(fsm2, Hooks::new());
    assert_eq!(b.process_event(&press(), &mut no_guards()), Ok(true));
    assert_eq!(b.process_event(&scroll(), &mut no_guards()), Ok(false));
    assert_eq!(b.interaction().fsm().current_state(), mid2);
    assert_eq!(b.hooks().firsts, 1);
    assert_eq!(b.times_ended(), 0);
    assert_eq!(b.times_cancelled(), 0);
}

#[test]
fn raising_guard_cancels_the_run() {
    let (fsm, _, _) = press_release(Some(Guard::Routine(0)));
    let mut b = bind(fsm, Hooks::new());
    let mut guards = ScriptedGuards::new(vec![Err(7)]);
    assert_eq!(b.process_event(&press(), &mut guards), Ok(true));
    assert_eq!(b.process_event(&release(), &mut guards), Ok(false));
    assert_eq!(b.times_cancelled(), 1);
    assert_eq!(b.times_ended(), 0);
    assert_eq!(b.hooks().caught, vec![BindingError::GuardEvaluation(7)]);
    assert_eq!(b.interaction().fsm().current_state(), 0);
    assert!(!b.running());
}

#[test]
fn first_declared_transition_wins() {
    let mut fsm = FSM::new("init".to_string());
    let a = fsm.add_state("a".to_string(), StateKind::Standard).unwrap();
    let c = fsm.add_state("c".to_string(), StateKind::Standard).unwrap();
    fsm.add_transition(TransitionBase::new(0, a, vec![EventType::Scroll], None, Some(Guard::AtLeast(10)))).unwrap();
    fsm.add_transition(TransitionBase::new(0, c, vec![EventType::Scroll], None, None)).unwrap();
    let mut low = FSM::new("init".to_string());
    low.add_state("a".to_string(), StateKind::Standard).unwrap();
    low.add_state("c".to_string(), StateKind::Standard).unwrap();
    low.add_transition(TransitionBase::new(0, a, vec![EventType::Scroll], None, Some(Guard::AtLeast(10)))).unwrap();
    low.add_transition(TransitionBase::new(0, c, vec![EventType::Scroll], None, None)).unwrap();
    assert_eq!(fsm.process(&Event::new(EventType::Scroll, 12), &vec![], &mut no_guards()).unwrap().fired, Some(0));
    assert_eq!(fsm.current_state(), a);
    assert_eq!(low.process(&Event::new(EventType::Scroll, 3), &vec![], &mut no_guards()).unwrap().fired, Some(1));
    assert_eq!(low.current_state(), c);
}

#[test]
fn continuous_execution_runs_at_each_update() {
    let (fsm, _) = drag();
    let mut b: Binding<TestCmd, i64, Hooks> = Binder::new(None).continuous_execution().bind(fsm, Hooks::new());
    b.process_event(&press(), &mut no_guards()).unwrap();
    assert_eq!(b.command_status(), None);
    b.process_event(&moved(3), &mut no_guards()).unwrap();
    assert_eq!(b.command_status(), Some(CmdStatus::Executed));
    b.process_event(&moved(4), &mut no_guards()).unwrap();
    assert_eq!(b.hooks().produced, 1);
    assert_eq!(b.interaction().data().len(), 3);
    b.process_event(&release(), &mut no_guards()).unwrap();
    assert_eq!(b.command_status(), None);
    assert_eq!(b.history_len(), 1);
    assert_eq!(b.hooks().effects, 1);
    assert_eq!(b.times_ended(), 1);
    assert_eq!(b.interaction().data().len(), 0);
}

#[test]
fn final_execution_waits_for_the_end() {
    let (fsm, _) = drag();
    let mut b = bind(fsm, Hooks::new());
    b.process_event(&press(), &mut no_guards()).unwrap();
    b.process_event(&moved(1), &mut no_guards()).unwrap();
    assert_eq!(b.command_status(), Some(CmdStatus::Created));
    b.process_event(&release(), &mut no_guards()).unwrap();
    assert_eq!(b.history_len(), 1);
    assert_eq!(b.hooks().effects, 1);
    assert_eq!(b.hooks().no_effects, 0);
}

#[test]
fn command_that_cannot_run_has_no_effect() {
    let (fsm, _) = drag();
    let mut hooks = Hooks::new();
    hooks.command_enabled = false;
    let mut b = bind(fsm, hooks);
    b.process_event(&press(), &mut no_guards()).unwrap();
    b.process_event(&moved(1), &mut no_guards()).unwrap();
    b.process_event(&release(), &mut no_guards()).unwrap();
    assert_eq!(b.history_len(), 0);
    assert_eq!(b.hooks().cannot, 1);
    assert_eq!(b.hooks().no_effects, 1);
    assert_eq!(b.times_ended(), 1);
}

#[test]
fn failing_when_produces_nothing() {
    let (fsm, _) = drag();
    let mut hooks = Hooks::new();
    hooks.whens = vec![true, false];
    let mut b = bind(fsm, hooks);
    b.process_event(&press(), &mut no_guards()).unwrap();
    b.process_event(&moved(1), &mut no_guards()).unwrap();
    assert_eq!(b.command_status(), None);
    b.process_event(&release(), &mut no_guards()).unwrap();
    assert_eq!(b.hooks().produced, 0);
    assert_eq!(b.history_len(), 0);
    assert_eq!(b.times_ended(), 1);
}

#[test]
fn failing_produce_is_caught_and_cancels() {
    let (fsm, _) = drag();
    let mut hooks = Hooks::new();
    hooks.produce_fails = Some(3);
    let mut b = bind(fsm, hooks);
    b.process_event(&press(), &mut no_guards()).unwrap();
    b.process_event(&moved(1), &mut no_guards()).unwrap();
    assert_eq!(b.hooks().caught, vec![BindingError::Hook(3)]);
    assert_eq!(b.times_cancelled(), 1);
    assert!(!b.running());
    assert_eq!(b.command_status(), None);
    assert_eq!(b.process_event(&press(), &mut no_guards()), Ok(true));
    assert_eq!(b.hooks().firsts, 2);
}

#[test]
fn cancelling_state_discards_the_command() {
    let mut fsm = FSM::new("init".to_string());
    let mid = fsm.add_state("mid".to_string(), StateKind::Standard).unwrap();
    let cancel = fsm.add_state("cancel".to_string(), StateKind::Cancelling).unwrap();
    fsm.add_transition(TransitionBase::new(0, mid, vec![EventType::Mouse(MouseEventType::Mousedown)], None, None)).unwrap();
    fsm.add_transition(TransitionBase::new(mid, mid, vec![EventType::Mouse(MouseEventType::Mousemove)], None, None)).unwrap();
    fsm.add_transition(TransitionBase::key(mid, cancel, KeyEventType::Keydown, None, None)).unwrap();
    let mut b = bind(fsm, Hooks::new());
    b.process_event(&press(), &mut no_guards()).unwrap();
    b.process_event(&moved(2), &mut no_guards()).unwrap();
    assert_eq!(b.command_status(), Some(CmdStatus::Created));
    assert_eq!(b.process_event(&Event::new(EventType::Key(KeyEventType::Keydown), 27), &mut no_guards()), Ok(true));
    assert_eq!(b.command_status(), None);
    assert_eq!(b.times_cancelled(), 1);
    assert_eq!(b.history_len(), 0);
    assert_eq!(b.hooks().cannot, 1);
}

#[test]
fn later_starting_state() {
    let mut fsm = FSM::new("init".to_string());
    let pressed = fsm.add_state("pressed".to_string(), StateKind::Standard).unwrap();
    let dragged = fsm.add_state("dragged".to_string(), StateKind::Standard).unwrap();
    fsm.add_transition(TransitionBase::new(0, pressed, vec![EventType::Mouse(MouseEventType::Mousedown)], None, None)).unwrap();
    fsm.add_transition(TransitionBase::new(pressed, dragged, vec![EventType::Mouse(MouseEventType::Mousemove)], None, None)).unwrap();
    fsm.set_starting_state(dragged).unwrap();
    assert_eq!(fsm.process(&press(), &vec![], &mut no_guards()).unwrap().notification, Notification::Silent);
    assert!(!fsm.started());
    assert_eq!(fsm.process(&moved(1), &vec![], &mut no_guards()).unwrap().notification, Notification::Starting);
    assert!(fsm.started());
}

#[test]
fn wheel_and_key_transitions_accept_their_kinds() {
    let w = TransitionBase::wheel(0, 0, None, None);
    assert!(w.accept(&Event::new(EventType::Wheel, 5)));
    assert!(!w.accept(&scroll()));
    assert_eq!(w.get_accepted_events(), &vec![EventType::Wheel]);
    let k = TransitionBase::key(0, 0, KeyEventType::Keyup, None, None);
    assert!(k.accept(&Event::new(EventType::Key(KeyEventType::Keyup), 1)));
    assert!(!k.accept(&Event::new(EventType::Key(KeyEventType::Keydown), 1)));
    assert_eq!(k.guard(&scroll(), &vec![], &no_guards()), Ok(true));
}

#[test]
fn uninstalled_fsm_refuses_events() {
    let (mut fsm, _, _) = press_release(None);
    fsm.uninstall();
    assert_eq!(fsm.process(&press(), &vec![], &mut no_guards()), Err(UseAfterUninstall));
}

#[test]
fn binder_configuration_reaches_the_binding() {
    let binder = Binder::new(None)
        .on(vec![Widget::EltRef(EltRef { native_element: 4 }), Widget::Target(9)])
        .on_dynamic(Widget::Target(11))
        .stop_immediate_propagation()
        .prevent_default()
        .name("drag".to_string())
        .configure_rules(RuleName::SameData, Severity::Warn)
        .configure_rules(RuleName::SameData, Severity::Error);
    let (fsm, _, _) = press_release(None);
    let b: Binding<TestCmd, i64, Hooks> = binder.bind(fsm, Hooks::new());
    assert!(b.interaction().stops_propagation());
    assert!(b.interaction().prevents_default());
    assert_eq!(b.name(), "drag");
    assert_eq!(b.linter_rule(RuleName::SameData), Some(Severity::Error));
    assert_eq!(b.linter_rule(RuleName::Included), None);
}

#[test]
fn copied_binder_resets_propagation_flags() {
    let first = Binder::new(None).stop_immediate_propagation().continuous_execution();
    let copy = Binder::new(Some(first));
    let (fsm, _, _) = press_release(None);
    let b: Binding<TestCmd, i64, Hooks> = copy.bind(fsm, Hooks::new());
    assert!(!b.interaction().stops_propagation());
    assert!(b.continuous_cmd_execution());
}

#[test]
fn elt_ref_widgets() {
    assert!(is_elt_ref(&Widget::EltRef(EltRef { native_element: 1 })));
    assert!(!is_elt_ref(&Widget::Target(1)));
    assert_eq!(Widget::EltRef(EltRef { native_element: 5 }).node_id(), 5);
}

/// Init --press--> Pressed, which times out to a terminal state after 300 ms.
fn long_press() -> (FSM, usize) {
    let mut fsm = FSM::new("init".to_string());
    let pressed = fsm.add_state("pressed".to_string(), StateKind::Standard).unwrap();
    let done = fsm.add_state("done".to_string(), StateKind::Terminal).unwrap();
    let cancelled = fsm.add_state("cancelled".to_string(), StateKind::Cancelling).unwrap();
    fsm.add_transition(TransitionBase::new(0, pressed, vec![EventType::Mouse(MouseEventType::Mousedown)], None, None)).unwrap();
    fsm.add_transition(TransitionBase::new(pressed, cancelled, vec![EventType::Mouse(MouseEventType::Mouseup)], None, None)).unwrap();
    fsm.add_timeout_transition(TimeoutTransition { src: pressed, tgt: done, duration: 300 }).unwrap();
    (fsm, pressed)
}

#[test]
fn timeout_ends_the_run() {
    let (mut fsm, pressed) = long_press();
    assert_eq!(fsm.current_timeout(), None);
    assert_eq!(fsm.on_timeout().unwrap().fired, None);
    fsm.process(&press(), &vec![], &mut no_guards()).unwrap();
    assert_eq!(fsm.current_state(), pressed);
    assert_eq!(fsm.current_timeout(), Some(300));
    let s = fsm.on_timeout().unwrap();
    assert_eq!(s.fired, Some(0));
    assert_eq!(s.notification, Notification::Terminating);
    assert_eq!(fsm.current_state(), 0);

    let (fsm2, _) = long_press();
    let mut b = bind(fsm2, Hooks::new());
    assert_eq!(b.on_timeout(), Ok(false));
    b.process_event(&press(), &mut no_guards()).unwrap();
    assert_eq!(b.on_timeout(), Ok(true));
    assert_eq!(b.times_ended(), 1);
    b.process_event(&press(), &mut no_guards()).unwrap();
    b.process_event(&release(), &mut no_guards()).unwrap();
    assert_eq!(b.times_cancelled(), 1);
    assert_eq!(b.times_ended(), 1);
}

#[test]
fn observed_children_update_registered_nodes() {
    let (fsm, _, _) = press_release(None);
    let mut b: Binding<TestCmd, i64, Hooks> = Binder::new(None)
        .on(vec![Widget::Target(1), Widget::Target(2)])
        .on_dynamic(Widget::Target(50))
        .bind(fsm, Hooks::new());
    assert_eq!(b.interaction().registered_nodes(), &vec![1, 2]);
    assert_eq!(b.interaction().dynamic_registered_nodes(), &vec![50]);
    b.on_children_changed(50, &vec![3, 4, 3], &vec![2]).unwrap();
    let mut nodes = b.interaction().registered_nodes().clone();
    nodes.sort();
    assert_eq!(nodes, vec![1, 3, 4]);
    b.on_children_changed(99, &vec![7], &vec![1]).unwrap();
    let mut same = b.interaction().registered_nodes().clone();
    same.sort();
    assert_eq!(same, vec![1, 3, 4]);
}

#[test]
fn recorded_events_form_the_data() {
    let (mut fsm, _) = drag();
    fsm.set_inner(true).unwrap();
    assert!(fsm.is_inner());
    let mut i = interacto::interaction::Interaction::new(fsm);
    i.process_event(&press(), &mut no_guards()).unwrap();
    i.process_event(&moved(8), &mut no_guards()).unwrap();
    i.process_event(&scroll(), &mut no_guards()).unwrap();
    assert_eq!(i.data().events(), &vec![press(), moved(8)]);
    i.reinit();
    assert_eq!(i.data().len(), 0);
    assert!(!i.is_running());
}

#[test]
fn throttle_keeps_the_latest_move() {
    let mut t = Throttle::new(100);
    assert_eq!(t.offer(moved(1), 1000), vec![moved(1)]);
    assert_eq!(t.offer(moved(2), 1010), vec![]);
    assert_eq!(t.offer(moved(3), 1020), vec![]);
    assert_eq!(t.expire(1050), None);
    assert_eq!(t.expire(1100), Some(moved(3)));
    assert_eq!(t.expire(1300), None);
    assert_eq!(t.offer(moved(4), 1150), vec![]);
    assert_eq!(t.offer(release(), 1160), vec![moved(4), release()]);
    assert_eq!(t.offer(Event::new(EventType::Wheel, 1), 1170), vec![]);
    assert_eq!(t.offer(moved(5), 1180), vec![Event::new(EventType::Wheel, 1)]);
}

#[test]
fn zero_window_forwards_everything() {
    let mut t = Throttle::new(0);
    assert_eq!(t.offer(moved(1), 5), vec![moved(1)]);
    assert_eq!(t.offer(moved(2), 5), vec![moved(2)]);
    assert_eq!(t.timeout(), 0);
}

#[test]
fn binding_throttles_raw_events() {
    let (fsm, _) = drag();
    let mut i = interacto::interaction::Interaction::new(fsm);
    i.set_throttle_timeout(50).unwrap();
    let mut b: Binding<TestCmd, i64, Hooks> = Binding::new("b".to_string(), i, Hooks::new(), false, vec![]);
    for e in b.throttle_event(press(), 0).unwrap() {
        b.process_event(&e, &mut no_guards()).unwrap();
    }
    assert_eq!(b.throttle_event(moved(1), 10).unwrap(), vec![moved(1)]);
    assert_eq!(b.throttle_event(moved(2), 20).unwrap(), vec![]);
    assert_eq!(b.throttle_event(release(), 30).unwrap(), vec![moved(2), release()]);
}

#[test]
fn full_reinit_discards_held_back_event() {
    let (fsm, _) = drag();
    let mut i = interacto::interaction::Interaction::new(fsm);
    i.set_throttle_timeout(100).unwrap();
    i.process_event(&press(), &mut no_guards()).unwrap();
    assert_eq!(i.throttle_event(moved(1), 0).unwrap(), vec![moved(1)]);
    assert_eq!(i.throttle_event(moved(2), 10).unwrap(), vec![]);
    i.full_reinit();
    assert!(!i.is_running());
    assert_eq!(i.expire_throttle(500).unwrap(), None);
    assert_eq!(i.throttle_event(moved(3), 20).unwrap(), vec![moved(3)]);
}

#[test]
fn throttle_forwards_held_back_event_of_another_kind() {
    let mut t = Throttle::new(100);
    assert_eq!(t.offer(moved(1), 0), vec![moved(1)]);
    assert_eq!(t.offer(moved(2), 10), vec![]);
    let wheel = Event::new(EventType::Wheel, 4);
    assert_eq!(t.offer(wheel, 200), vec![moved(2), wheel]);
    assert_eq!(t.offer(moved(3), 210), vec![]);
    assert_eq!(t.offer(moved(4), 400), vec![moved(4)]);
}

#[test]
fn first_raising_cancels_the_run() {
    let (fsm, _, _) = press_release(None);
    let mut hooks = Hooks::new();
    hooks.first_fails = Some(9);
    let mut b = bind(fsm, hooks);
    assert_eq!(b.process_event(&press(), &mut no_guards()), Ok(true));
    assert!(!b.running());
    assert_eq!(b.times_cancelled(), 1);
    assert_eq!(b.hooks().caught, vec![BindingError::Hook(9)]);
    assert_eq!(b.process_event(&release(), &mut no_guards()), Ok(false));
    assert_eq!(b.times_ended(), 0);
}

#[test]
fn counting_payload_runs_once_per_execution() {
    let mut cmd = interacto::command::Cmd::new(CountingCmd::new(true));
    assert_eq!(cmd.execute(), Ok(true));
    assert_eq!(cmd.execute(), Ok(true));
    assert_eq!(cmd.child().memento_count(), 1);
    assert_eq!(cmd.child().run_count(), 2);
}

#[test]
fn user_guard_and_action_decide_the_transition() {
    let mut fsm = FSM::new("init".to_string());
    let a = fsm.add_state("a".to_string(), StateKind::Standard).unwrap();
    fsm.add_transition(TransitionBase::new(0, a, vec![EventType::Scroll], Some(Action::Routine(5)), Some(Guard::Routine(1)))).unwrap();
    let mut guards = ScriptedGuards::new(vec![Ok(true), Ok(false)]);
    assert_eq!(fsm.process(&scroll(), &vec![], &mut guards).unwrap().fired, None);
    assert_eq!(guards.actions_run, Vec::<u64>::new());
    guards.answers[1] = Ok(true);
    assert_eq!(fsm.process(&scroll(), &vec![], &mut guards).unwrap().fired, Some(0));
    assert_eq!(guards.actions_run, vec![5]);
    assert_eq!(fsm.current_state(), a);
}

#[test]
fn silent_end_clears_the_data() {
    let mut fsm = FSM::new("init".to_string());
    let pressed = fsm.add_state("pressed".to_string(), StateKind::Standard).unwrap();
    let dragged = fsm.add_state("dragged".to_string(), StateKind::Standard).unwrap();
    let done = fsm.add_state("done".to_string(), StateKind::Terminal).unwrap();
    fsm.add_transition(TransitionBase::new(0, pressed, vec![EventType::Mouse(MouseEventType::Mousedown)], Some(Action::Record), None)).unwrap();
    fsm.add_transition(TransitionBase::new(pressed, dragged, vec![EventType::Mouse(MouseEventType::Mousemove)], None, None)).unwrap();
    fsm.add_transition(TransitionBase::new(pressed, done, vec![EventType::Mouse(MouseEventType::Mouseup)], None, None)).unwrap();
    fsm.set_starting_state(dragged).unwrap();
    let mut i = interacto::interaction::Interaction::new(fsm);
    assert_eq!(i.process_event(&press(), &mut no_guards()).unwrap().notification, Notification::Silent);
    assert_eq!(i.data().len(), 1);
    assert_eq!(i.process_event(&release(), &mut no_guards()).unwrap().notification, Notification::Silent);
    assert_eq!(i.data().len(), 0);
}

#[test]
fn uninstalled_machine_refuses_every_change() {
    let (mut fsm, mid, _) = press_release(None);
    fsm.uninstall();
    assert_eq!(fsm.add_state("late".to_string(), StateKind::Standard), Err(UseAfterUninstall));
    assert_eq!(fsm.add_transition(TransitionBase::new(0, mid, vec![EventType::Scroll], None, None)), Err(UseAfterUninstall));
    assert_eq!(fsm.set_starting_state(mid), Err(UseAfterUninstall));
    assert_eq!(fsm.set_inner(true), Err(UseAfterUninstall));
    let (fsm2, _, _) = press_release(None);
    let mut b = bind(fsm2, Hooks::new());
    b.uninstall_binding();
    assert_eq!(b.process_event(&press(), &mut no_guards()), Err(UseAfterUninstall));
    assert_eq!(b.throttle_event(press(), 0), Err(UseAfterUninstall));
    assert_eq!(b.on_children_changed(1, &vec![2], &vec![]), Err(UseAfterUninstall));
}
