use std::sync::{Arc, Mutex};

use interacto::command::{AnonCmd, Cmd, CmdStatus, CommandFlushed};

fn noop() {}

#[test]
fn can_do_ok_cmd() {
    assert_eq!(AnonCmd::new(|| {}).as_command().can_execute(), true);
}

#[test]
fn execute() {
    let ok = Arc::new(Mutex::new(false));
    let mut cmd = Cmd::new(AnonCmd::new(|| {
        let mut data = ok.lock().unwrap();
        *data = true;
    }));
    cmd.execute();
    assert_eq!(*ok.lock().unwrap(), true);
}

#[test]
fn had_effect() {
    let mut cmd = Cmd::new(AnonCmd::new(|| {}));
    cmd.execute();
    let _ = cmd.done();
    assert_eq!(cmd.had_effect(), true);
}

#[test]
fn cannot_execute_keeps_created() {
    let mut cmd = Cmd::new(AnonCmd::guarded(noop as fn(), false));
    assert_eq!(cmd.execute(), Ok(false));
    assert_eq!(cmd.get_status(), CmdStatus::Created);
    assert_eq!(cmd.child().memento_count(), 0);
}

#[test]
fn memento_captured_once() {
    let count = Arc::new(Mutex::new(0u32));
    let mut cmd = Cmd::new(AnonCmd::new(|| {
        *count.lock().unwrap() += 1;
    }));
    assert_eq!(cmd.execute(), Ok(true));
    assert_eq!(cmd.execute(), Ok(true));
    assert_eq!(cmd.execute(), Ok(true));
    assert_eq!(cmd.get_status(), CmdStatus::Executed);
    assert_eq!(cmd.child().memento_count(), 1);
    assert_eq!(*count.lock().unwrap(), 3);
}

#[test]
fn executed_but_not_done_has_no_effect() {
    let mut cmd = Cmd::new(AnonCmd::new(noop as fn()));
    assert_eq!(cmd.execute(), Ok(true));
    assert_eq!(cmd.had_effect(), false);
    assert_eq!(cmd.is_done(), false);
}

#[test]
fn cancelled_is_absorbing() {
    let count = Arc::new(Mutex::new(0u32));
    let mut cmd = Cmd::new(AnonCmd::new(|| {
        *count.lock().unwrap() += 1;
    }));
    assert_eq!(cmd.cancel(), Ok(()));
    assert_eq!(cmd.get_status(), CmdStatus::Cancelled);
    assert_eq!(cmd.execute(), Ok(false));
    assert_eq!(cmd.done(), Ok(()));
    assert_eq!(cmd.get_status(), CmdStatus::Cancelled);
    assert_eq!(*count.lock().unwrap(), 0);
    assert_eq!(cmd.child().memento_count(), 0);
}

#[test]
fn flushed_refuses_everything() {
    let mut cmd = Cmd::new(AnonCmd::new(noop as fn()));
    assert_eq!(cmd.execute(), Ok(true));
    assert_eq!(cmd.flush(), Ok(()));
    assert_eq!(cmd.get_status(), CmdStatus::Flushed);
    assert_eq!(cmd.execute(), Err(CommandFlushed));
    assert_eq!(cmd.done(), Err(CommandFlushed));
    assert_eq!(cmd.cancel(), Err(CommandFlushed));
    assert_eq!(cmd.flush(), Err(CommandFlushed));
    assert_eq!(cmd.get_status(), CmdStatus::Flushed);
}

#[test]
fn done_from_created_and_after_done() {
    let mut cmd = Cmd::new(AnonCmd::new(noop as fn()));
    assert_eq!(cmd.done(), Ok(()));
    assert_eq!(cmd.get_status(), CmdStatus::Done);
    assert_eq!(cmd.execute(), Ok(false));
    assert_eq!(cmd.cancel(), Ok(()));
    assert_eq!(cmd.get_status(), CmdStatus::Done);
}
