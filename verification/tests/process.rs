use std::collections::VecDeque;

use lpm013m126::process::{
    driver_answer, Operation, Process, ProcessState, Resume, Syscall, SyscallWork, CONSOLE,
};

fn process(state: ProcessState, callbacks: &[u32]) -> Process<u32> {
    Process { state, callbacks: callbacks.iter().copied().collect::<VecDeque<u32>>() }
}

#[test]
fn running_process_goes_on() {
    let mut p = process(ProcessState::Running, &[1, 2]);
    assert_eq!(p.resume(), Resume::SwitchTo);
    assert_eq!(p.state, ProcessState::Running);
    assert_eq!(p.callbacks, [1, 2]);
}

#[test]
fn waiting_process_starts_oldest_callback() {
    let mut p = process(ProcessState::Waiting, &[1, 2]);
    assert_eq!(p.resume(), Resume::SwitchToCallback(1));
    assert_eq!(p.state, ProcessState::Running);
    assert_eq!(p.callbacks, [2]);
}

#[test]
fn waiting_process_without_callback_stays() {
    let mut p = process(ProcessState::Waiting, &[]);
    assert_eq!(p.resume(), Resume::Stay);
    assert_eq!(p.state, ProcessState::Waiting);
}

#[test]
fn wait_is_ended_by_callbacks_in_order() {
    let mut p = process(ProcessState::Running, &[5, 6]);
    for expected in [5, 6] {
        assert_eq!(p.syscall(Some(Syscall::Wait), 9, 9, 9), SyscallWork::PopStack { trace: 119 });
        assert_eq!(p.state, ProcessState::Waiting);
        assert_eq!(p.resume(), Resume::SwitchToCallback(expected));
    }
}

#[test]
fn driver_calls_take_the_registers() {
    let mut p = process(ProcessState::Running, &[5]);
    assert_eq!(
        p.syscall(Some(Syscall::Subscribe), 3, 4, 5),
        SyscallWork::CallDriver {
            trace: 115,
            driver: 3,
            operation: Operation::Subscribe,
            argument0: 4,
            argument1: 5,
        }
    );
    assert_eq!(
        p.syscall(Some(Syscall::Command), 6, 7, 8),
        SyscallWork::CallDriver {
            trace: 99,
            driver: 6,
            operation: Operation::Command,
            argument0: 7,
            argument1: 8,
        }
    );
    assert_eq!(p.syscall(None, 6, 7, 8), SyscallWork::Nothing);
    assert_eq!(p.state, ProcessState::Running);
    assert_eq!(p.callbacks, [5]);
}

#[test]
fn missing_driver_answers_minus_one() {
    assert_eq!(driver_answer(None), -1);
    assert_eq!(driver_answer(Some(0)), 0);
    assert_eq!(driver_answer(Some(-7)), -7);
    assert_eq!(CONSOLE, 1);
}
