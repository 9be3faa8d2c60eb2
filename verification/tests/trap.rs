use hak::cpu::{TrapFrame, CONTEXT_SWITCH_TIME, FREQ};
use hak::plic::{self, Echo, Plic, Reply, Request, Service};
use hak::registers::MTime;
use hak::trap::{
    m_trap, next_deadline, resume, schedule_next_context_switch, Action, Cause, Event, Exception,
    Fallback, Fatal, Interrupt, Report, State, Timer,
};

const ASYNC: u64 = 1 << 63;

/// A scheduler that hands out the frames of its processes in turn.
struct Scheduler {
    /// Address of the frame and process id of each process that may run.
    table: Vec<(u64, u16)>,
    turn: usize,
}

impl Scheduler {
    fn schedule(&mut self) -> u64 {
        if self.table.is_empty() {
            return 0;
        }
        self.turn = (self.turn + 1) % self.table.len();
        self.table[self.turn].0
    }

    fn delete_process(&mut self, pid: u16) {
        self.table.retain(|entry| entry.1 != pid);
    }
}

/// What the trap entry code did, in order.
#[derive(Debug, PartialEq)]
enum Done {
    Reported(Report),
    Deleted(u16),
    Scheduled(u64),
    Armed(u16),
    Syscall(u64),
    External,
}

/// Runs one trap to its end against a scheduler, a timer and a system call
/// handler that returns `syscall_return`.
fn run(
    trap: (u64, u64, u64, u64),
    frame: &mut TrapFrame,
    scheduler: &mut Scheduler,
    timer: &mut Timer,
    syscall_return: u64,
) -> (Vec<Done>, Action) {
    let (epc, tval, cause, hart) = trap;
    let mut log = Vec::new();
    let (mut state, mut action) = m_trap(epc, tval, cause, hart, 0, frame);
    loop {
        let event = match action {
            Action::Report(report) => {
                log.push(Done::Reported(report));
                Event::Done
            }
            Action::DeleteProcess(pid) => {
                scheduler.delete_process(pid);
                log.push(Done::Deleted(pid));
                Event::Done
            }
            Action::Schedule => {
                let chosen = scheduler.schedule();
                log.push(Done::Scheduled(chosen));
                Event::Scheduled(chosen)
            }
            Action::ArmTimer(qm) => {
                schedule_next_context_switch(timer, qm);
                log.push(Done::Armed(qm));
                Event::Done
            }
            Action::Syscall { pc } => {
                log.push(Done::Syscall(pc));
                Event::SyscallReturned(syscall_return)
            }
            Action::HandleExternal => {
                log.push(Done::External);
                Event::Done
            }
            last => {
                assert_eq!(state, State::Finished);
                assert!(last.is_last());
                return (log, last);
            }
        };
        assert!(!action.is_last());
        let step = resume(state, event, frame);
        state = step.0;
        action = step.1;
    }
}

fn frame_of(pid: u64, pc: u64) -> TrapFrame {
    let mut frame = TrapFrame::new();
    frame.pid = pid;
    frame.pc = pc;
    frame
}

fn timer_at(now: u64) -> Timer {
    Timer { mtime: MTime { value: now }, compare: 0 }
}

fn two_processes() -> Scheduler {
    Scheduler { table: vec![(0x8000_1000, 1), (0x8000_2000, 2)], turn: 0 }
}

#[test]
fn decode_tells_interrupts_by_bit_63() {
    assert_eq!(Cause::decode(ASYNC | 3), Cause::Interrupt(Interrupt::Software));
    assert_eq!(Cause::decode(ASYNC | 7), Cause::Interrupt(Interrupt::Timer));
    assert_eq!(Cause::decode(ASYNC | 11), Cause::Interrupt(Interrupt::External));
    assert_eq!(Cause::decode(ASYNC | 5), Cause::Interrupt(Interrupt::Unknown(5)));
    assert_eq!(Cause::decode(7), Cause::Exception(Exception::StoreAccessFault));
    assert_eq!(Cause::decode(11), Cause::Exception(Exception::MachineEnvCall));
    assert_eq!(Cause::decode(1 << 62 | 2), Cause::Exception(Exception::IllegalInstruction));
}

#[test]
fn decode_knows_every_exception() {
    assert_eq!(Cause::decode(2), Cause::Exception(Exception::IllegalInstruction));
    assert_eq!(Cause::decode(8), Cause::Exception(Exception::UserEnvCall));
    assert_eq!(Cause::decode(9), Cause::Exception(Exception::SupervisorEnvCall));
    assert_eq!(Cause::decode(12), Cause::Exception(Exception::InstructionPageFault));
    assert_eq!(Cause::decode(13), Cause::Exception(Exception::LoadPageFault));
    assert_eq!(Cause::decode(15), Cause::Exception(Exception::StorePageFault));
    assert_eq!(Cause::decode(0), Cause::Exception(Exception::Unknown(0)));
    assert_eq!(Cause::decode(14), Cause::Exception(Exception::Unknown(14)));
}

#[test]
fn decode_reads_the_low_twelve_bits() {
    assert_eq!(Cause::decode(0x1000 | 2), Cause::Exception(Exception::IllegalInstruction));
    assert_eq!(Cause::decode(ASYNC | 0xf000 | 7), Cause::Interrupt(Interrupt::Timer));
    assert_eq!(Cause::decode(0xfff), Cause::Exception(Exception::Unknown(0xfff)));
}

#[test]
fn software_interrupt_is_reported_and_returns() {
    let mut frame = frame_of(1, 0x100);
    let before = frame;
    let mut scheduler = two_processes();
    let mut timer = timer_at(50);
    let (log, last) = run((0x4000, 0, ASYNC | 3, 2), &mut frame, &mut scheduler, &mut timer, 0);
    assert_eq!(log, vec![Done::Reported(Report::SoftwareInterrupt { hart: 2 })]);
    assert_eq!(last, Action::Resume(0x4000));
    assert_eq!(frame, before);
    assert_eq!(timer, timer_at(50));
    assert_eq!(scheduler.table.len(), 2);
}

#[test]
fn timer_interrupt_switches_to_the_next_process() {
    let mut frame = frame_of(1, 0x100);
    let before = frame;
    let mut scheduler = two_processes();
    let mut timer = timer_at(1_000);
    let (log, last) = run((0x4000, 0, ASYNC | 7, 0), &mut frame, &mut scheduler, &mut timer, 0);
    assert_eq!(log, vec![Done::Scheduled(0x8000_2000), Done::Armed(1)]);
    assert_eq!(last, Action::SwitchToUser(0x8000_2000));
    assert_eq!(timer.compare, 21_000);
    assert_eq!(frame, before);
}

#[test]
fn timer_interrupt_with_nothing_to_run_returns() {
    let mut frame = frame_of(0, 0);
    let mut scheduler = Scheduler { table: vec![], turn: 0 };
    let mut timer = timer_at(7);
    let (log, last) = run((0x4000, 0, ASYNC | 7, 0), &mut frame, &mut scheduler, &mut timer, 0);
    assert_eq!(log, vec![Done::Scheduled(0), Done::Armed(1)]);
    assert_eq!(last, Action::Resume(0x4000));
    assert_eq!(timer.compare, 20_007);
}

#[test]
fn external_interrupt_goes_to_the_controller() {
    let mut frame = frame_of(1, 0x100);
    let mut scheduler = two_processes();
    let mut timer = timer_at(0);
    let (log, last) = run((0x4000, 0, ASYNC | 11, 0), &mut frame, &mut scheduler, &mut timer, 0);
    assert_eq!(log, vec![Done::External]);
    assert_eq!(last, Action::Resume(0x4000));
}

#[test]
fn unknown_interrupt_halts() {
    for number in [0u64, 1, 2, 4, 5, 6, 8, 9, 10, 12, 0xfff] {
        let mut frame = frame_of(1, 0x100);
        let mut scheduler = two_processes();
        let mut timer = timer_at(0);
        let (log, last) =
            run((0x4000, 9, ASYNC | number, 3), &mut frame, &mut scheduler, &mut timer, 0);
        assert!(log.is_empty());
        assert_eq!(last, Action::Halt(Fatal::UnhandledInterrupt { hart: 3, cause: number }));
    }
}

#[test]
fn unknown_exception_halts() {
    for number in [0u64, 1, 3, 4, 5, 6, 10, 14, 16, 0xfff] {
        let mut frame = frame_of(1, 0x100);
        let mut scheduler = two_processes();
        let mut timer = timer_at(0);
        let (log, last) = run((0x4000, 9, number, 3), &mut frame, &mut scheduler, &mut timer, 0);
        assert!(log.is_empty());
        assert_eq!(
            last,
            Action::Halt(Fatal::UnhandledException { cause: number, hart: 3, epc: 0x4000, tval: 9 })
        );
        assert_eq!(scheduler.table.len(), 2);
    }
}

#[test]
fn faults_delete_the_process_and_reschedule() {
    let reports = [
        (2u64, Report::IllegalInstruction { hart: 1, epc: 0x4000, tval: 0xbad }),
        (7, Report::AccessFault { pid: 2, pc: 0x100, epc: 0x4000 }),
        (12, Report::InstructionPageFault { hart: 1, epc: 0x4000, tval: 0xbad }),
        (13, Report::LoadPageFault { hart: 1, epc: 0x4000, tval: 0xbad }),
        (15, Report::StorePageFault { hart: 1, epc: 0x4000, tval: 0xbad }),
    ];
    for (number, report) in reports {
        let mut frame = frame_of(2, 0x100);
        let before = frame;
        let mut scheduler = two_processes();
        let mut timer = timer_at(500);
        let (log, last) =
            run((0x4000, 0xbad, number, 1), &mut frame, &mut scheduler, &mut timer, 0);
        assert_eq!(
            log,
            vec![
                Done::Reported(report),
                Done::Deleted(2),
                Done::Scheduled(0x8000_1000),
                Done::Armed(1),
            ]
        );
        assert_eq!(last, Action::SwitchToUser(0x8000_1000));
        assert_eq!(frame, before);
        assert_eq!(timer.compare, 20_500);
    }
}

#[test]
fn faulting_process_is_never_scheduled_again() {
    let mut frame = frame_of(2, 0x100);
    let mut scheduler = Scheduler {
        table: vec![(0x8000_1000, 1), (0x8000_2000, 2), (0x8000_3000, 3)],
        turn: 0,
    };
    let mut timer = timer_at(0);
    let (_, last) = run((0x4000, 0, 13, 0), &mut frame, &mut scheduler, &mut timer, 0);
    assert_ne!(last, Action::SwitchToUser(0x8000_2000));
    for _ in 0..10 {
        let mut current = frame_of(1, 0);
        let (log, last) =
            run((0x4000, 0, ASYNC | 7, 0), &mut current, &mut scheduler, &mut timer, 0);
        assert!(!log.contains(&Done::Scheduled(0x8000_2000)));
        assert_ne!(last, Action::SwitchToUser(0x8000_2000));
    }
}

#[test]
fn fault_of_the_last_process_idles() {
    let mut frame = frame_of(1, 0x100);
    let mut scheduler = Scheduler { table: vec![(0x8000_1000, 1)], turn: 0 };
    let mut timer = timer_at(0);
    let (log, last) = run((0x4000, 0, 2, 0), &mut frame, &mut scheduler, &mut timer, 0);
    assert_eq!(log[1..], [Done::Deleted(1), Done::Scheduled(0), Done::Armed(1)]);
    assert_eq!(last, Action::Idle);
}

#[test]
fn fault_deletes_by_the_low_sixteen_bits_of_the_pid() {
    let frame = frame_of(0x3_0002, 0x100);
    let (state, action) = m_trap(0x4000, 0, 15, 0, 0, &frame);
    assert_eq!(state, State::Faulted { pid: 2 });
    assert_eq!(action, Action::Report(Report::StorePageFault { hart: 0, epc: 0x4000, tval: 0 }));
}

#[test]
fn syscall_that_returns_an_address_resumes_there() {
    for number in [8u64, 9, 11] {
        let mut frame = frame_of(1, 0x100);
        let before = frame;
        let mut scheduler = two_processes();
        let mut timer = timer_at(5);
        let (log, last) =
            run((0x4000, 0, number, 0), &mut frame, &mut scheduler, &mut timer, 0x4004);
        assert_eq!(log, vec![Done::Syscall(0x4000)]);
        assert_eq!(last, Action::Resume(0x4004));
        assert_eq!(frame, before);
        assert_eq!(timer, timer_at(5));
    }
}

#[test]
fn user_ecall_that_asks_to_reschedule() {
    let mut frame = frame_of(1, 0x4000);
    let mut scheduler = two_processes();
    let mut timer = timer_at(1_000_000);
    let (log, last) = run((0x4000, 0, 8, 0), &mut frame, &mut scheduler, &mut timer, 0);
    assert_eq!(log, vec![Done::Syscall(0x4000), Done::Scheduled(0x8000_2000), Done::Armed(1)]);
    assert_eq!(last, Action::SwitchToUser(0x8000_2000));
    assert_eq!(frame.pc, 0x4004);
    assert_eq!(frame, TrapFrame { pc: 0x4004, ..frame_of(1, 0x4000) });
    assert_eq!(timer.compare, 1_000_000 + FREQ / 500);
    assert_eq!(scheduler.table.len(), 2);
}

#[test]
fn program_counter_is_advanced_before_the_scheduler_is_asked() {
    let mut frame = frame_of(1, 0x4000);
    let (state, action) = m_trap(0x4000, 0, 9, 0, 0, &frame);
    assert_eq!((state, action), (State::InSyscall, Action::Syscall { pc: 0x4000 }));
    let (state, action) = resume(state, Event::SyscallReturned(0), &mut frame);
    assert_eq!(frame.pc, 0x4004);
    assert_eq!(state, State::Scheduling { fallback: Fallback::Idle });
    assert_eq!(action, Action::Schedule);
    let (state, action) = resume(state, Event::Scheduled(0x9000), &mut frame);
    assert_eq!(state, State::Armed { frame: 0x9000, fallback: Fallback::Idle });
    assert_eq!(action, Action::ArmTimer(1));
    let (state, action) = resume(state, Event::Done, &mut frame);
    assert_eq!((state, action), (State::Finished, Action::SwitchToUser(0x9000)));
    assert_eq!(frame.pc, 0x4004);
}

#[test]
fn program_counter_wraps_at_the_end_of_the_address_space() {
    let mut frame = frame_of(1, u64::MAX - 1);
    let (state, _) = m_trap(0, 0, 8, 0, 0, &frame);
    resume(state, Event::SyscallReturned(0), &mut frame);
    assert_eq!(frame.pc, 2);
}

#[test]
fn reschedule_after_syscall_with_nothing_to_run_idles() {
    let mut frame = frame_of(1, 0x4000);
    let mut scheduler = Scheduler { table: vec![], turn: 0 };
    let mut timer = timer_at(0);
    let (_, last) = run((0x4000, 0, 11, 0), &mut frame, &mut scheduler, &mut timer, 0);
    assert_eq!(last, Action::Idle);
}

#[test]
fn event_that_was_not_asked_for_halts() {
    let mut frame = frame_of(1, 0);
    let halt = (State::Finished, Action::Halt(Fatal::UnexpectedEvent));
    assert_eq!(resume(State::InSyscall, Event::Done, &mut frame), halt);
    assert_eq!(resume(State::Deleted, Event::Scheduled(1), &mut frame), halt);
    assert_eq!(resume(State::Finished, Event::Done, &mut frame), halt);
    assert_eq!(resume(State::Returning { pc: 4 }, Event::SyscallReturned(0), &mut frame), halt);
    assert_eq!(
        resume(State::Scheduling { fallback: Fallback::Idle }, Event::Done, &mut frame),
        halt
    );
    assert_eq!(frame, frame_of(1, 0));
}

#[test]
fn arm_next_advances_compare_by_one_quantum() {
    let mut timer = timer_at(123_456);
    schedule_next_context_switch(&mut timer, 1);
    assert_eq!(timer.compare, 123_456 + FREQ / 500);
    assert_eq!(timer.compare, 143_456);
    assert_eq!(timer.mtime.value, 123_456);
    assert!(!timer.is_firing());
}

#[test]
fn quantum_is_a_five_hundredth_of_a_second() {
    assert_eq!(FREQ, 10_000_000);
    assert_eq!(CONTEXT_SWITCH_TIME, 20_000);
    assert_eq!(next_deadline(0, 1), 20_000);
    assert_eq!(next_deadline(10, 3), 60_010);
    assert_eq!(next_deadline(10, 0), 10);
    assert_eq!(next_deadline(0, u16::MAX), 20_000 * 65_535);
}

#[test]
fn deadline_wraps_with_the_time() {
    assert_eq!(next_deadline(u64::MAX, 1), 19_999);
    assert_eq!(next_deadline(u64::MAX - 20_000, 1), u64::MAX);
}

#[test]
fn timer_fires_from_the_compare_time_on() {
    let mut timer = timer_at(100);
    timer.compare = 101;
    assert!(!timer.is_firing());
    timer.mtime.value = 101;
    assert!(timer.is_firing());
    timer.mtime.value = 5_000;
    assert!(timer.is_firing());
}

#[test]
fn external_interrupt_from_the_console_is_echoed_and_completed() {
    let mut controller = Plic::new();
    plic::set_priority(&mut controller, 10, 1);
    plic::enable(&mut controller, 10);
    controller.raise(10);
    let mut frame = frame_of(1, 0);
    let (state, action) = m_trap(0x4000, 0, ASYNC | 11, 0, 0, &frame);
    assert_eq!(action, Action::HandleExternal);

    let mut requests = Vec::new();
    let (mut service, mut request) = plic::handle_interrupt(Service::Called, Reply::Begin);
    loop {
        requests.push(request);
        let reply = match request {
            Request::Claim => Reply::Claimed(plic::next(&mut controller)),
            Request::Receive => Reply::Byte(b'a'),
            Request::Complete(id) => {
                assert!(controller.is_in_service(id));
                plic::complete(&mut controller, id);
                break;
            }
            Request::Return => break,
            _ => Reply::Done,
        };
        let step = plic::handle_interrupt(service, reply);
        service = step.0;
        request = step.1;
    }
    assert_eq!(
        requests,
        vec![
            Request::Claim,
            Request::Receive,
            Request::Print(Echo::Char(b'a')),
            Request::Complete(10),
        ]
    );
    assert!(!controller.is_in_service(10));
    assert!(!plic::is_pending(&controller, 10));

    let (state, action) = resume(state, Event::Done, &mut frame);
    assert_eq!((state, action), (State::Finished, Action::Resume(0x4000)));
}
