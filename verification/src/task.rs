//! Tasks: execution contexts bound to one address space, with a lifecycle
//! state machine.
//!
//! A task is created in `Ready`, referencing an address-space handle and an
//! entry point — never directly in `Running`. `Ready → Running` dispatches
//! it onto a CPU; `Running → Blocked` records the saved context of a
//! syscall that cannot complete synchronously; `Blocked → Ready` fires when
//! the awaited event arrives; `Running → Dead` on an explicit exit or a
//! fatal fault attributed to user code. `Dead` is terminal.

use vstd::prelude::*;
use crate::address_space::{AddressSpace, CpuState};
use crate::memory::Frame;
use crate::object_map::Handle;

verus! {

/// The processor-flags word installed for the first drop into user mode:
/// interrupts enabled, everything else clear.
pub const USER_FLAGS: u64 = 0x200;

/// Where a task stands in its lifecycle.
#[derive(Clone, Copy, Debug, PartialEq, Eq, Structural)]
pub enum TaskState {
    Ready,
    Running,
    Blocked,
    Dead,
}

/// Which state changes the lifecycle admits.
pub open spec fn transition_allowed(from: TaskState, to: TaskState) -> bool {
    ||| (from is Ready && to is Running)
    ||| (from is Running && to is Blocked)
    ||| (from is Running && to is Dead)
    ||| (from is Blocked && to is Ready)
}

/// A task's saved execution context: where it resumes and on which stack.
#[derive(Clone, Copy, Debug, PartialEq, Eq, Structural)]
pub struct TaskContext {
    pub instruction_pointer: u64,
    pub stack_pointer: u64,
}

/// An execution context bound to one address space.
#[derive(Clone, Copy, Debug, PartialEq, Eq)]
pub struct Task {
    pub state: TaskState,
    /// The handle of the address space the task runs in. That space
    /// may outlive the task while the object map still references it;
    /// killing a task never force-destroys it.
    pub address_space: Handle,
    /// The virtual address the task first enters at.
    pub entry_point: u64,
    /// Where the task resumes when next dispatched.
    pub context: TaskContext,
}

impl Task {
    /// Creates a task in `Ready`, poised to enter at `entry_point` on its
    /// first dispatch.
    pub fn new(address_space: Handle, entry_point: u64) -> (r: Task)
        ensures
            r.state is Ready,
            r.address_space == address_space,
            r.entry_point == entry_point,
            r.context.instruction_pointer == entry_point,
    {
        Task {
            state: TaskState::Ready,
            address_space,
            entry_point,
            context: TaskContext { instruction_pointer: entry_point, stack_pointer: 0 },
        }
    }

    /// `Ready → Running`: the task is dispatched onto a CPU.
    pub fn dispatch(&mut self)
        requires
            old(self).state is Ready,
        ensures
            final(self).state is Running,
            transition_allowed(old(self).state, final(self).state),
            final(self).address_space == old(self).address_space,
            final(self).entry_point == old(self).entry_point,
            final(self).context == old(self).context,
    {
        self.state = TaskState::Running;
    }

    /// `Running → Blocked`: a syscall cannot complete synchronously; the
    /// context to resume from is recorded.
    pub fn block(&mut self, context: TaskContext)
        requires
            old(self).state is Running,
        ensures
            final(self).state is Blocked,
            transition_allowed(old(self).state, final(self).state),
            final(self).context == context,
            final(self).address_space == old(self).address_space,
            final(self).entry_point == old(self).entry_point,
    {
        self.state = TaskState::Blocked;
        self.context = context;
    }

    /// `Blocked → Ready`: the event the task was waiting for arrived.
    pub fn unblock(&mut self)
        requires
            old(self).state is Blocked,
        ensures
            final(self).state is Ready,
            transition_allowed(old(self).state, final(self).state),
            final(self).address_space == old(self).address_space,
            final(self).entry_point == old(self).entry_point,
            final(self).context == old(self).context,
    {
        self.state = TaskState::Ready;
    }

    /// `Running → Dead`: an explicit exit syscall, or a fatal fault
    /// attributed to the task's own user code. Its address-space
    /// handle is kept — the space may still be referenced elsewhere
    /// and is not force-destroyed.
    pub fn kill(&mut self)
        requires
            old(self).state is Running,
        ensures
            final(self).state is Dead,
            transition_allowed(old(self).state, final(self).state),
            final(self).address_space == old(self).address_space,
            final(self).entry_point == old(self).entry_point,
            final(self).context == old(self).context,
    {
        self.state = TaskState::Dead;
    }
}

/// Everything the hardware needs for the one-way drop to user mode: the
/// privilege-level transition never returns to its caller, so these values
/// are computed first and handed to the trap stub whole.
#[derive(Clone, Copy, Debug, PartialEq, Eq, Structural)]
pub struct UsermodeTransition {
    pub page_table_root: Frame,
    pub instruction_pointer: u64,
    pub stack_pointer: u64,
    pub flags: u64,
}

/// Dispatches `task` onto the current CPU: marks it `Running`, installs
/// its address space's root, and computes the register state the
/// privilege-level transition needs. Performing the actual drop is the
/// trap stub's job; it never returns.
pub fn prepare_dispatch(task: &mut Task, space: &AddressSpace, cpu: &mut CpuState) -> (r:
    UsermodeTransition)
    requires
        old(task).state is Ready,
    ensures
        final(task).state is Running,
        final(task).address_space == old(task).address_space,
        final(cpu).active_root == space.page_table_root,
        r.page_table_root == space.page_table_root,
        r.instruction_pointer == old(task).context.instruction_pointer,
        r.stack_pointer == old(task).context.stack_pointer,
        r.flags == USER_FLAGS,
{
    task.dispatch();
    space.activate(cpu);
    UsermodeTransition {
        page_table_root: space.page_table_root,
        instruction_pointer: task.context.instruction_pointer,
        stack_pointer: task.context.stack_pointer,
        flags: USER_FLAGS,
    }
}

} // verus!
