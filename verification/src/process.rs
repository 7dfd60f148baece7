//! The turn that the kernel gives to a process.
//!
//! A process is resumed if there is something for it to do, and the system call
//! that it comes back with is then carried out.

use std::collections::VecDeque;
use vstd::prelude::*;

verus! {

/// The driver that system calls are traced on.
pub const CONSOLE: usize = 1;

/// What a process is up to.
#[derive(Debug, Copy, Clone, PartialEq, Eq, Structural)]
pub enum ProcessState {
    Running,
    /// Waiting for a callback
    Waiting,
}

/// What the kernel keeps of a process. `C` is a callback.
#[derive(Debug)]
pub struct Process<C> {
    pub state: ProcessState,
    pub callbacks: VecDeque<C>,
}

/// The state of a process, and its callbacks with the oldest one first.
#[verifier::ext_equal]
pub struct ProcessView<C> {
    pub state: ProcessState,
    pub callbacks: Seq<C>,
}

/// How to go on with a process.
#[derive(Debug, PartialEq, Eq)]
pub enum Resume<C> {
    /// Go on where it left off.
    SwitchTo,
    /// Start a callback.
    SwitchToCallback(C),
    /// There is nothing for it to do.
    Stay,
}

/// The system calls that are carried out.
#[derive(Debug, Copy, Clone, PartialEq, Eq, Structural)]
pub enum Syscall {
    Wait,
    Subscribe,
    Command,
}

/// What a driver is asked to do.
#[derive(Debug, Copy, Clone, PartialEq, Eq, Structural)]
pub enum Operation {
    Subscribe,
    Command,
}

/// What a system call comes to. `trace` is the letter that goes to the console
/// first.
#[derive(Debug, Copy, Clone, PartialEq, Eq, Structural)]
pub enum SyscallWork {
    Nothing,
    /// Drop the call from the process's stack.
    PopStack { trace: usize },
    /// Call the driver with the two arguments. What `driver_answer` makes of the
    /// driver's answer goes to register 0.
    CallDriver {
        trace: usize,
        driver: usize,
        operation: Operation,
        argument0: usize,
        argument1: usize,
    },
}

impl<C> ProcessView<C> {
    /// A running process goes on; a waiting one starts its oldest callback, and
    /// runs from then on, or waits for one.
    pub open spec fn resume(self) -> (ProcessView<C>, Resume<C>) {
        if self.state == ProcessState::Running {
            (self, Resume::SwitchTo)
        } else if self.callbacks.len() == 0 {
            (self, Resume::Stay)
        } else {
            (
                ProcessView {
                    state: ProcessState::Running,
                    callbacks: self.callbacks.subrange(1, self.callbacks.len() as int),
                },
                Resume::SwitchToCallback(self.callbacks[0]),
            )
        }
    }

    /// Waiting makes a process wait; the other calls go to the driver that register
    /// 0 names.
    pub open spec fn syscall(
        self,
        call: Option<Syscall>,
        r0: usize,
        r1: usize,
        r2: usize,
    ) -> (ProcessView<C>, SyscallWork) {
        match call {
            None => (self, SyscallWork::Nothing),
            Some(Syscall::Wait) => (
                ProcessView { state: ProcessState::Waiting, ..self },
                SyscallWork::PopStack { trace: 'w' as usize },
            ),
            Some(Syscall::Subscribe) => (
                self,
                SyscallWork::CallDriver {
                    trace: 's' as usize,
                    driver: r0,
                    operation: Operation::Subscribe,
                    argument0: r1,
                    argument1: r2,
                },
            ),
            Some(Syscall::Command) => (
                self,
                SyscallWork::CallDriver {
                    trace: 'c' as usize,
                    driver: r0,
                    operation: Operation::Command,
                    argument0: r1,
                    argument1: r2,
                },
            ),
        }
    }
}

impl<C> View for Process<C> {
    type V = ProcessView<C>;

    open spec fn view(&self) -> ProcessView<C> {
        ProcessView { state: self.state, callbacks: self.callbacks@ }
    }
}

impl<C> Process<C> {
    /// Decides how to go on with the process.
    pub fn resume(&mut self) -> (resume: Resume<C>)
        ensures
            (final(self)@, resume) == old(self)@.resume(),
    {
        match self.state {
            ProcessState::Running => Resume::SwitchTo,
            ProcessState::Waiting => match self.callbacks.pop_front() {
                None => Resume::Stay,
                Some(callback) => {
                    self.state = ProcessState::Running;
                    Resume::SwitchToCallback(callback)
                },
            },
        }
    }

    /// Decides what a system call comes to. `call` is `None` if the process did not
    /// make one that is carried out; the other arguments are its registers.
    pub fn syscall(&mut self, call: Option<Syscall>, r0: usize, r1: usize, r2: usize) -> (work:
        SyscallWork)
        ensures
            (final(self)@, work) == old(self)@.syscall(call, r0, r1, r2),
    {
        match call {
            None => SyscallWork::Nothing,
            Some(Syscall::Wait) => {
                self.state = ProcessState::Waiting;
                SyscallWork::PopStack { trace: 'w' as usize }
            },
            Some(Syscall::Subscribe) => SyscallWork::CallDriver {
                trace: 's' as usize,
                driver: r0,
                operation: Operation::Subscribe,
                argument0: r1,
                argument1: r2,
            },
            Some(Syscall::Command) => SyscallWork::CallDriver {
                trace: 'c' as usize,
                driver: r0,
                operation: Operation::Command,
                argument0: r1,
                argument1: r2,
            },
        }
    }
}

/// Returns what a process gets to see of a driver's answer. `None` is the answer
/// of a driver that does not exist.
pub fn driver_answer(answer: Option<isize>) -> (result: isize)
    ensures
        result == match answer {
            Some(value) => value,
            None => -1isize,
        },
{
    match answer {
        Some(value) => value,
        None => -1,
    }
}

/// A process that waits is resumed by its oldest callback, if there is one, and
/// not before. Callbacks start in the order in which they were queued.
pub proof fn wait_ends_with_oldest_callback<C>(
    process: ProcessView<C>,
    r0: usize,
    r1: usize,
    r2: usize,
)
    ensures
        ({
            let waiting = process.syscall(Some(Syscall::Wait), r0, r1, r2).0;
            let (resumed, how) = waiting.resume();
            &&& process.callbacks.len() == 0 ==> resumed == waiting && how == Resume::<C>::Stay
            &&& process.callbacks.len() > 0 ==> {
                &&& how == Resume::SwitchToCallback(process.callbacks[0])
                &&& resumed.state == ProcessState::Running
                &&& seq![process.callbacks[0]] + resumed.callbacks == process.callbacks
            }
        }),
{
    if process.callbacks.len() > 0 {
        let rest = process.callbacks.subrange(1, process.callbacks.len() as int);
        assert(seq![process.callbacks[0]] + rest =~= process.callbacks);
    }
}

/// Only waiting changes a process's state, and no call touches its callbacks.
pub proof fn syscall_keeps_callbacks<C>(
    process: ProcessView<C>,
    call: Option<Syscall>,
    r0: usize,
    r1: usize,
    r2: usize,
)
    ensures
        process.syscall(call, r0, r1, r2).0.callbacks == process.callbacks,
        call != Some(Syscall::Wait) ==> process.syscall(call, r0, r1, r2).0 == process,
{
}

/// A running process always goes on where it left off, whatever callbacks are queued, and
/// keeps them. A waiting process stays if and only if it has none; otherwise the oldest
/// one leaves the queue, the others keep their order, and the process runs.
pub proof fn every_process_gets_its_turn<C>(process: ProcessView<C>, i: int)
    ensures
        ({
            let (after, how) = process.resume();
            let count = process.callbacks.len();
            &&& how is SwitchTo <==> process.state == ProcessState::Running
            &&& how is Stay <==> process.state == ProcessState::Waiting && count == 0
            &&& how is SwitchTo || how is Stay ==> after == process
            &&& process.state == ProcessState::Waiting && count > 0 ==> {
                &&& how matches Resume::SwitchToCallback(callback)
                &&& callback == process.callbacks[0]
                &&& after.state == ProcessState::Running
                &&& after.callbacks.len() == count - 1
                &&& 0 <= i < count - 1 ==> after.callbacks[i] == process.callbacks[i + 1]
            }
        }),
{
}

/// A process that waits is traced as `w`, loses the call from its stack, and waits. One
/// that subscribes or commands is traced as `s` or `c`, and the driver in register 0 is
/// called with registers 1 and 2, in this order. Any other call comes to nothing.
pub proof fn every_syscall_is_carried_out<C>(
    process: ProcessView<C>,
    call: Option<Syscall>,
    r0: usize,
    r1: usize,
    r2: usize,
)
    ensures
        ({
            let (after, work) = process.syscall(call, r0, r1, r2);
            &&& after.callbacks == process.callbacks
            &&& call == Some(Syscall::Wait) ==> {
                &&& after.state == ProcessState::Waiting
                &&& work matches SyscallWork::PopStack { trace }
                &&& trace == 119
            }
            &&& call != Some(Syscall::Wait) ==> after.state == process.state
            &&& call is None ==> work is Nothing
            &&& call == Some(Syscall::Subscribe) || call == Some(Syscall::Command) ==> {
                &&& work matches SyscallWork::CallDriver {
                    trace,
                    driver,
                    operation,
                    argument0,
                    argument1,
                }
                &&& driver == r0
                &&& argument0 == r1
                &&& argument1 == r2
                &&& call == Some(Syscall::Subscribe) ==> trace == 115 && operation
                    == Operation::Subscribe
                &&& call == Some(Syscall::Command) ==> trace == 99 && operation
                    == Operation::Command
            }
        }),
{
}

/// The model of a process is its state and its queue, front first.
pub proof fn process_is_modelled_faithfully<C>(process: Process<C>)
    ensures
        process@.state == process.state,
        process@.callbacks == process.callbacks@,
{
}

} // verus!
