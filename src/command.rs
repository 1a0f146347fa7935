//! Commands and the status machine that every command obeys.
use vstd::prelude::*;

verus! {

/// The different states of a command.
#[derive(PartialEq, Eq, Structural, Clone, Copy, Debug)]
pub enum CmdStatus {
    /// The command has been cancelled.
    Cancelled,
    /// The command is created but not executed yet.
    Created,
    /// The command has been marked as done.
    Done,
    /// The command has been created and executed at least once.
    Executed,
    /// The command has been flushed and must not be used anymore.
    Flushed,
}

/// Raised by any operation attempted on a flushed command.
#[derive(PartialEq, Eq, Structural, Clone, Copy, Debug)]
pub struct CommandFlushed;

/// A call that a command makes on its payload.
#[derive(PartialEq, Eq, Structural, Clone, Copy, Debug)]
pub enum PayloadCall {
    Memento,
    Execution,
}

/// The user-defined part of a command: what it does and whether it may run.
pub trait CustomCmd: Sized {
    /// Whether the command may currently be executed.
    spec fn executable(&self) -> bool;

    /// The calls made on the payload so far, in order.
    spec fn payload_calls(&self) -> Seq<PayloadCall>;

    /// Captures what is needed to undo the command; called once, before the first execution.
    fn create_memento(&mut self)
        ensures
            final(self).payload_calls() == old(self).payload_calls().push(PayloadCall::Memento),
    ;

    fn can_execute(&self) -> (r: bool)
        ensures
            r == self.executable(),
    ;

    /// The statements of the command; called by `Cmd::execute` only.
    fn execution(&mut self)
        ensures
            final(self).payload_calls() == old(self).payload_calls().push(PayloadCall::Execution),
    ;
}

/// A command produced in reaction to a user interaction.
pub struct Cmd<T: CustomCmd> {
    status: CmdStatus,
    /// How many payload calls preceded the command.
    origin: Ghost<nat>,
    child: T,
}

impl<T: CustomCmd> Cmd<T> {
    pub closed spec fn status(&self) -> CmdStatus {
        self.status
    }

    /// The user-defined payload.
    pub closed spec fn payload(&self) -> T {
        self.child
    }

    /// How many times `create_memento` has been invoked on the payload.
    pub open spec fn mementos(&self) -> nat {
        if self.calls().len() > 0 && self.calls()[0] == PayloadCall::Memento {
            1
        } else {
            0
        }
    }

    /// The calls the command made on its payload, in order.
    pub closed spec fn calls(&self) -> Seq<PayloadCall> {
        self.child.payload_calls().subrange(self.origin@ as int, self.child.payload_calls().len() as int)
    }

    /// A command as `new` makes it.
    pub open spec fn fresh(&self) -> bool {
        &&& self.wf()
        &&& self.status() == CmdStatus::Created
        &&& self.mementos() == 0
        &&& self.calls() == Seq::<PayloadCall>::empty()
    }

    /// What `execute` does, from `before` to `after`, returning `r`: a flushed command
    /// refuses; a live command whose payload allows it takes a memento when it was just
    /// created, then runs its payload, and becomes executed; otherwise nothing changes.
    pub open spec fn executes(before: Self, after: Self, r: Result<bool, CommandFlushed>) -> bool {
        &&& after.wf()
        &&& (r is Err <==> before.status() == CmdStatus::Flushed)
        &&& r is Err ==> after == before
        &&& r == Ok::<bool, CommandFlushed>(true) <==> before.live() && before.payload().executable()
        &&& r == Ok::<bool, CommandFlushed>(false) ==> after == before
        &&& r == Ok::<bool, CommandFlushed>(true) ==> {
            &&& after.status() == CmdStatus::Executed
            &&& before.status() == CmdStatus::Created ==> after.mementos() == before.mementos() + 1
                && after.calls() == before.calls() + seq![PayloadCall::Memento, PayloadCall::Execution]
            &&& before.status() == CmdStatus::Executed ==> after.mementos() == before.mementos()
                && after.calls() == before.calls().push(PayloadCall::Execution)
        }
    }

    pub open spec fn live(&self) -> bool {
        self.status() == CmdStatus::Created || self.status() == CmdStatus::Executed
    }

    /// The payload got one memento, then only executions, and at least one of them once
    /// the command has been executed; a created command made no call yet.
    pub closed spec fn wf(&self) -> bool {
        &&& self.origin@ <= self.child.payload_calls().len()
        &&& self.status == CmdStatus::Created ==> self.calls().len() == 0
        &&& self.status == CmdStatus::Executed ==> self.calls().len() >= 2
        &&& self.calls().len() > 0 ==> {
            &&& self.calls()[0] == PayloadCall::Memento
            &&& forall|i: int| 1 <= i < self.calls().len() ==> self.calls()[i] == PayloadCall::Execution
        }
    }

    pub fn new(child_cmd: T) -> (r: Self)
        ensures
            r.status() == CmdStatus::Created,
            r.mementos() == 0,
            r.calls() == Seq::<PayloadCall>::empty(),
            r.payload() == child_cmd,
            r.wf(),
            r.fresh(),
    {
        Cmd {
            status: CmdStatus::Created,
            origin: Ghost(child_cmd.payload_calls().len()),
            child: child_cmd,
        }
    }

    pub fn child(&self) -> (r: &T)
        ensures
            *r == self.payload(),
    {
        &self.child
    }

    pub fn get_status(&self) -> (r: CmdStatus)
        ensures
            r == self.status(),
    {
        self.status
    }

    pub fn can_execute(&self) -> (r: bool)
        ensures
            r == self.payload().executable(),
    {
        self.child.can_execute()
    }

    /// Runs the command when it is created or executed and its payload allows it.
    /// The memento is captured before the first execution only. A flushed command refuses.
    pub fn execute(&mut self) -> (r: Result<bool, CommandFlushed>)
        requires
            old(self).wf(),
        ensures
            Self::executes(*old(self), *final(self), r),
    {
        let status = self.status;
        if status == CmdStatus::Flushed {
            return Err(CommandFlushed);
        }
        if (status == CmdStatus::Created || status == CmdStatus::Executed) && self.child.can_execute() {
            if status == CmdStatus::Created {
                self.child.create_memento();
            }
            self.child.execution();
            self.status = CmdStatus::Executed;
            proof {
                if status == CmdStatus::Created {
                    assert(self.calls() =~= old(self).calls() + seq![PayloadCall::Memento, PayloadCall::Execution]);
                } else {
                    assert(self.calls() =~= old(self).calls().push(PayloadCall::Execution));
                }
            }
            Ok(true)
        } else {
            Ok(false)
        }
    }

    /// Marks a created or executed command as done; does nothing on a done or cancelled one.
    pub fn done(&mut self) -> (r: Result<(), CommandFlushed>)
        requires
            old(self).wf(),
        ensures
            final(self).wf(),
            r is Err <==> old(self).status() == CmdStatus::Flushed,
            old(self).status() == CmdStatus::Cancelled || old(self).status() == CmdStatus::Flushed
                ==> final(self).status() == old(self).status(),
            final(self).status() == if old(self).live() {
                CmdStatus::Done
            } else {
                old(self).status()
            },
            final(self).mementos() == old(self).mementos(),
            final(self).calls() == old(self).calls(),
            final(self).payload() == old(self).payload(),
    {
        if self.status == CmdStatus::Flushed {
            Err(CommandFlushed)
        } else {
            if self.status == CmdStatus::Created || self.status == CmdStatus::Executed {
                self.status = CmdStatus::Done;
            }
            Ok(())
        }
    }

    /// Flushes the command: it must not be used after that.
    pub fn flush(&mut self) -> (r: Result<(), CommandFlushed>)
        requires
            old(self).wf(),
        ensures
            final(self).wf(),
            r is Err <==> old(self).status() == CmdStatus::Flushed,
            final(self).status() == CmdStatus::Flushed,
            final(self).mementos() == old(self).mementos(),
            final(self).calls() == old(self).calls(),
            final(self).payload() == old(self).payload(),
    {
        if self.status == CmdStatus::Flushed {
            Err(CommandFlushed)
        } else {
            self.status = CmdStatus::Flushed;
            Ok(())
        }
    }

    /// Cancels a created or executed command; does nothing on a done or cancelled one.
    pub fn cancel(&mut self) -> (r: Result<(), CommandFlushed>)
        requires
            old(self).wf(),
        ensures
            final(self).wf(),
            r is Err <==> old(self).status() == CmdStatus::Flushed,
            old(self).status() == CmdStatus::Cancelled || old(self).status() == CmdStatus::Flushed
                ==> final(self).status() == old(self).status(),
            final(self).status() == if old(self).live() {
                CmdStatus::Cancelled
            } else {
                old(self).status()
            },
            final(self).mementos() == old(self).mementos(),
            final(self).calls() == old(self).calls(),
            final(self).payload() == old(self).payload(),
    {
        if self.status == CmdStatus::Flushed {
            Err(CommandFlushed)
        } else {
            if self.status == CmdStatus::Created || self.status == CmdStatus::Executed {
                self.status = CmdStatus::Cancelled;
            }
            Ok(())
        }
    }

    pub fn is_done(&self) -> (r: bool)
        ensures
            r == (self.status() == CmdStatus::Done),
    {
        self.status == CmdStatus::Done
    }

    /// A command had an effect when it was marked as done.
    pub fn had_effect(&self) -> (r: bool)
        ensures
            r == (self.status() == CmdStatus::Done),
    {
        self.is_done()
    }
}

/// A memento is captured at most once in the life of a command: none while it is created,
/// exactly one once it has been executed, and re-executions capture no other.
pub proof fn memento_once<T: CustomCmd>(c: Cmd<T>)
    requires
        c.wf(),
    ensures
        c.mementos() <= 1,
        c.status() == CmdStatus::Created ==> c.mementos() == 0,
        c.status() == CmdStatus::Executed ==> c.mementos() == 1,
{
}

/// A command built from a closure, executable while it is enabled.
pub struct AnonCmd<F: Fn()> {
    body: F,
    enabled: bool,
    mementos: u64,
    trace: Ghost<Seq<PayloadCall>>,
}

impl<F: Fn()> AnonCmd<F> {
    #[verifier::type_invariant]
    spec fn callable(&self) -> bool {
        self.body.requires(())
    }

    pub closed spec fn enabled(&self) -> bool {
        self.enabled
    }

    pub closed spec fn captured(&self) -> u64 {
        self.mementos
    }

    pub fn new(body: F) -> (r: Self)
        requires
            body.requires(()),
        ensures
            r.enabled(),
            r.executable(),
            r.captured() == 0,
            r.payload_calls() == Seq::<PayloadCall>::empty(),
    {
        AnonCmd { body, enabled: true, mementos: 0, trace: Ghost(Seq::empty()) }
    }

    /// A command whose closure may run only when `enabled` holds.
    pub fn guarded(body: F, enabled: bool) -> (r: Self)
        requires
            body.requires(()),
        ensures
            r.enabled() == enabled,
            r.executable() == enabled,
            r.captured() == 0,
            r.payload_calls() == Seq::<PayloadCall>::empty(),
    {
        AnonCmd { body, enabled, mementos: 0, trace: Ghost(Seq::empty()) }
    }

    /// How many mementos were captured for this command.
    pub fn memento_count(&self) -> (r: u64)
        ensures
            r == self.captured(),
    {
        self.mementos
    }

    /// Wraps the closure into a fresh command.
    pub fn as_command(self) -> (r: Cmd<Self>)
        ensures
            r.status() == CmdStatus::Created,
            r.fresh(),
            r.payload() == self,
            r.payload().executable() == self.enabled(),
    {
        Cmd::new(self)
    }
}

impl<F: Fn()> CustomCmd for AnonCmd<F> {
    open spec fn executable(&self) -> bool {
        self.enabled()
    }

    closed spec fn payload_calls(&self) -> Seq<PayloadCall> {
        self.trace@
    }

    fn create_memento(&mut self) {
        proof {
            use_type_invariant(&*self);
        }
        self.trace = Ghost(self.trace@.push(PayloadCall::Memento));
        if self.mementos < u64::MAX {
            self.mementos = self.mementos + 1;
        }
    }

    fn can_execute(&self) -> (r: bool) {
        self.enabled
    }

    fn execution(&mut self) {
        proof {
            use_type_invariant(&*self);
        }
        (self.body)();
        self.trace = Ghost(self.trace@.push(PayloadCall::Execution));
    }
}

} // verus!
