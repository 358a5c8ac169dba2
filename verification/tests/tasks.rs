use kernel_core::{
    AddressSpace, CpuState, Frame, Handle, Task, TaskContext, TaskState,
};

fn space_handle() -> Handle {
    Handle { index: 3, generation: 1 }
}

#[test]
fn tasks_are_created_ready() {
    let task = Task::new(space_handle(), 0x5000);
    assert_eq!(task.state, TaskState::Ready);
    assert_eq!(task.address_space, space_handle());
    assert_eq!(task.entry_point, 0x5000);
    assert_eq!(task.context.instruction_pointer, 0x5000);
}

#[test]
fn lifecycle_walks_the_state_machine() {
    let mut task = Task::new(space_handle(), 0x5000);
    task.dispatch();
    assert_eq!(task.state, TaskState::Running);
    task.block(TaskContext { instruction_pointer: 0x5100, stack_pointer: 0x9000 });
    assert_eq!(task.state, TaskState::Blocked);
    assert_eq!(task.context.instruction_pointer, 0x5100);
    assert_eq!(task.context.stack_pointer, 0x9000);
    task.unblock();
    assert_eq!(task.state, TaskState::Ready);
    task.dispatch();
    task.kill();
    assert_eq!(task.state, TaskState::Dead);
    // The address-space handle survives death.
    assert_eq!(task.address_space, space_handle());
}

#[test]
fn dispatch_prepares_the_usermode_transition() {
    let mut task = Task::new(space_handle(), 0x7000);
    let space = AddressSpace::from_page_table(Frame { number: 0x99 });
    let mut cpu = CpuState { active_root: Frame { number: 0 } };
    let transition = kernel_core::prepare_dispatch(&mut task, &space, &mut cpu);
    assert_eq!(task.state, TaskState::Running);
    assert_eq!(cpu.active_root.number, 0x99);
    assert_eq!(transition.page_table_root.number, 0x99);
    assert_eq!(transition.instruction_pointer, 0x7000);
    assert_eq!(transition.flags, 0x200);
}
