//! The trap dispatcher.
//!
//! Every exception, interrupt and system call of a hart arrives at `m_trap`.
//! The dispatcher decides; it does not act. Each decision is an `Action` that
//! the trap entry code performs: it calls the scheduler, deletes a process,
//! programs the timer, restores a frame. What came of the action goes back
//! into `resume` as an `Event`, and the next action comes out, until one
//! comes out that ends the trap.

use vstd::prelude::*;
use crate::cpu::{TrapFrame, CONTEXT_SWITCH_TIME, FREQ};
use crate::registers::MTime;

verus! {

/// Causes of an asynchronous trap.
#[derive(Clone, Copy, Debug, PartialEq, Eq, Structural)]
pub enum Interrupt {
    /// Cause 3: another hart asks this one to wake.
    Software,
    /// Cause 7: the context-switch timer.
    Timer,
    /// Cause 11: the platform interrupt controller.
    External,
    /// Any other cause number.
    Unknown(u64),
}

/// Causes of a synchronous trap.
#[derive(Clone, Copy, Debug, PartialEq, Eq, Structural)]
pub enum Exception {
    /// Cause 2.
    IllegalInstruction,
    /// Cause 7: a store or an atomic operation met an access fault.
    StoreAccessFault,
    /// Cause 8: environment call from user mode.
    UserEnvCall,
    /// Cause 9: environment call from supervisor mode.
    SupervisorEnvCall,
    /// Cause 11: environment call from machine mode.
    MachineEnvCall,
    /// Cause 12.
    InstructionPageFault,
    /// Cause 13.
    LoadPageFault,
    /// Cause 15.
    StorePageFault,
    /// Any other cause number.
    Unknown(u64),
}

/// A decoded cause register.
#[derive(Clone, Copy, Debug, PartialEq, Eq, Structural)]
pub enum Cause {
    Interrupt(Interrupt),
    Exception(Exception),
}

/// Whether a cause word stands for an asynchronous trap: its bit 63 is set.
pub open spec fn is_interrupt(cause: u64) -> bool {
    cause >= 0x8000_0000_0000_0000
}

/// The cause number of a cause word: its low 12 bits.
pub open spec fn cause_number(cause: u64) -> u64 {
    cause % 0x1000
}

impl Interrupt {
    /// The asynchronous cause with the number `n`.
    pub open spec fn of(n: u64) -> Interrupt {
        if n == 3 {
            Interrupt::Software
        } else if n == 7 {
            Interrupt::Timer
        } else if n == 11 {
            Interrupt::External
        } else {
            Interrupt::Unknown(n)
        }
    }
}

impl Exception {
    /// The synchronous cause with the number `n`.
    pub open spec fn of(n: u64) -> Exception {
        if n == 2 {
            Exception::IllegalInstruction
        } else if n == 7 {
            Exception::StoreAccessFault
        } else if n == 8 {
            Exception::UserEnvCall
        } else if n == 9 {
            Exception::SupervisorEnvCall
        } else if n == 11 {
            Exception::MachineEnvCall
        } else if n == 12 {
            Exception::InstructionPageFault
        } else if n == 13 {
            Exception::LoadPageFault
        } else if n == 15 {
            Exception::StorePageFault
        } else {
            Exception::Unknown(n)
        }
    }

    /// The causes that cost the process its life.
    pub open spec fn is_fault(self) -> bool {
        self is IllegalInstruction || self is StoreAccessFault || self is InstructionPageFault
            || self is LoadPageFault || self is StorePageFault
    }

    /// The causes that ask for a system call.
    pub open spec fn is_env_call(self) -> bool {
        self is UserEnvCall || self is SupervisorEnvCall || self is MachineEnvCall
    }
}

impl Cause {
    /// The cause that a cause word stands for.
    pub open spec fn of(cause: u64) -> Cause {
        if is_interrupt(cause) {
            Cause::Interrupt(Interrupt::of(cause_number(cause)))
        } else {
            Cause::Exception(Exception::of(cause_number(cause)))
        }
    }

    /// Decode a cause word.
    pub fn decode(cause: u64) -> (decoded: Cause)
        ensures
            decoded == Cause::of(cause),
    {
        let is_async = cause >> 63 & 1 == 1;
        let cause_num: u64 = cause & 0xfff;
        assert((cause >> 63 & 1 == 1) == (cause >= 0x8000_0000_0000_0000)) by (bit_vector);
        assert(cause & 0xfff == cause % 0x1000) by (bit_vector);
        if is_async {
            Cause::Interrupt(
                match cause_num {
                    3 => Interrupt::Software,
                    7 => Interrupt::Timer,
                    11 => Interrupt::External,
                    _ => Interrupt::Unknown(cause_num),
                },
            )
        } else {
            Cause::Exception(
                match cause_num {
                    2 => Exception::IllegalInstruction,
                    7 => Exception::StoreAccessFault,
                    8 => Exception::UserEnvCall,
                    9 => Exception::SupervisorEnvCall,
                    11 => Exception::MachineEnvCall,
                    12 => Exception::InstructionPageFault,
                    13 => Exception::LoadPageFault,
                    15 => Exception::StorePageFault,
                    _ => Exception::Unknown(cause_num),
                },
            )
        }
    }
}

/// What the hardware hands over on a trap.
#[derive(Clone, Copy, Debug, PartialEq, Eq, Structural)]
pub struct Trap {
    /// The program counter that was saved.
    pub epc: u64,
    /// The faulting address, or what else the hardware has to say.
    pub tval: u64,
    /// The cause word.
    pub cause: u64,
    /// The hart that trapped.
    pub hart: u64,
    /// The status register that was saved.
    pub status: u64,
}

/// A line for the console about a trap that the kernel survives.
#[derive(Clone, Copy, Debug, PartialEq, Eq, Structural)]
pub enum Report {
    SoftwareInterrupt { hart: u64 },
    IllegalInstruction { hart: u64, epc: u64, tval: u64 },
    AccessFault { pid: u64, pc: u64, epc: u64 },
    InstructionPageFault { hart: u64, epc: u64, tval: u64 },
    LoadPageFault { hart: u64, epc: u64, tval: u64 },
    StorePageFault { hart: u64, epc: u64, tval: u64 },
}

/// Why the kernel cannot go on.
#[derive(Clone, Copy, Debug, PartialEq, Eq, Structural)]
pub enum Fatal {
    /// An asynchronous trap with a cause number that nothing handles.
    UnhandledInterrupt { hart: u64, cause: u64 },
    /// A synchronous trap with a cause number that nothing handles.
    UnhandledException { cause: u64, hart: u64, epc: u64, tval: u64 },
    /// The dispatcher was handed an event that it had not asked for.
    UnexpectedEvent,
}

/// What the dispatcher asks the trap entry code to do.
///
/// The last four end the trap: nothing may be handed to `resume` after them.
#[derive(Clone, Copy, Debug, PartialEq, Eq, Structural)]
pub enum Action {
    /// Write the line to the console; answer `Event::Done`.
    Report(Report),
    /// Take the process out of scheduling; answer `Event::Done`.
    DeleteProcess(u16),
    /// Ask the scheduler for the next frame; answer `Event::Scheduled`.
    Schedule,
    /// Program the timer to fire so many quanta from now; answer
    /// `Event::Done`.
    ArmTimer(u16),
    /// Run the system call handler on the frame, with the saved program
    /// counter; answer `Event::SyscallReturned`.
    Syscall { pc: u64 },
    /// Serve the platform interrupt controller; answer `Event::Done`.
    HandleExternal,
    /// Go on in the frame that trapped, at this program counter.
    Resume(u64),
    /// Restore the frame at this address and leave the trap through it.
    SwitchToUser(u64),
    /// No process can run and the one that trapped cannot go on: idle.
    Idle,
    /// Stop the hart with this diagnostic.
    Halt(Fatal),
}

impl Action {
    /// Whether the action ends the trap.
    pub open spec fn ends_trap(self) -> bool {
        self is Resume || self is SwitchToUser || self is Idle || self is Halt
    }

    /// Whether the action ends the trap.
    pub fn is_last(&self) -> (last: bool)
        ensures
            last == self.ends_trap(),
    {
        match self {
            Action::Resume(_) | Action::SwitchToUser(_) | Action::Idle | Action::Halt(_) => true,
            _ => false,
        }
    }
}

/// What came of an action.
#[derive(Clone, Copy, Debug, PartialEq, Eq, Structural)]
pub enum Event {
    /// The action was performed; it has no result.
    Done,
    /// The scheduler answered with the address of a frame, or with 0 where no
    /// process can run.
    Scheduled(u64),
    /// The system call handler returned the address to resume at, or 0 to ask
    /// for another process to run.
    SyscallReturned(u64),
}

/// What is left to do where the scheduler has no process to run.
#[derive(Clone, Copy, Debug, PartialEq, Eq, Structural)]
pub enum Fallback {
    /// Go on where the trap came in.
    Resume(u64),
    /// Idle.
    Idle,
}

/// Where the dispatcher stands between two actions.
#[derive(Clone, Copy, Debug, PartialEq, Eq, Structural)]
pub enum State {
    /// The work is under way; the trap returns to `pc` after it.
    Returning { pc: u64 },
    /// The fault is being reported; the process `pid` goes next.
    Faulted { pid: u16 },
    /// The process is being deleted.
    Deleted,
    /// The scheduler is choosing.
    Scheduling { fallback: Fallback },
    /// The timer is being programmed; `frame` is what the scheduler chose.
    Armed { frame: u64, fallback: Fallback },
    /// The system call handler is running.
    InSyscall,
    /// The trap has ended.
    Finished,
}

/// The process id that the scheduler knows the owner of a frame by: the low
/// 16 bits of the frame's id.
pub open spec fn owner(frame: TrapFrame) -> u16 {
    (frame.pid % 0x1_0000) as u16
}

/// The program counter behind the environment call at `pc`. The counter
/// wraps at the end of the address space, as the hardware's does.
pub open spec fn past_call(pc: u64) -> u64 {
    ((pc + 4) % 0x1_0000_0000_0000_0000) as u64
}

/// The line that reports a fault.
pub open spec fn fault_report(fault: Exception, trap: Trap, frame: TrapFrame) -> Report
    recommends
        fault.is_fault(),
{
    match fault {
        Exception::IllegalInstruction => Report::IllegalInstruction {
            hart: trap.hart,
            epc: trap.epc,
            tval: trap.tval,
        },
        Exception::StoreAccessFault => Report::AccessFault {
            pid: frame.pid,
            pc: frame.pc,
            epc: trap.epc,
        },
        Exception::InstructionPageFault => Report::InstructionPageFault {
            hart: trap.hart,
            epc: trap.epc,
            tval: trap.tval,
        },
        Exception::LoadPageFault => Report::LoadPageFault {
            hart: trap.hart,
            epc: trap.epc,
            tval: trap.tval,
        },
        _ => Report::StorePageFault { hart: trap.hart, epc: trap.epc, tval: trap.tval },
    }
}

/// The first action on a trap, and the state it leaves the dispatcher in.
pub open spec fn entry(trap: Trap, frame: TrapFrame) -> (State, Action) {
    match Cause::of(trap.cause) {
        Cause::Interrupt(Interrupt::Software) => (
            State::Returning { pc: trap.epc },
            Action::Report(Report::SoftwareInterrupt { hart: trap.hart }),
        ),
        Cause::Interrupt(Interrupt::Timer) => (
            State::Scheduling { fallback: Fallback::Resume(trap.epc) },
            Action::Schedule,
        ),
        Cause::Interrupt(Interrupt::External) => (
            State::Returning { pc: trap.epc },
            Action::HandleExternal,
        ),
        Cause::Interrupt(Interrupt::Unknown(n)) => (
            State::Finished,
            Action::Halt(Fatal::UnhandledInterrupt { hart: trap.hart, cause: n }),
        ),
        Cause::Exception(Exception::Unknown(n)) => (
            State::Finished,
            Action::Halt(
                Fatal::UnhandledException {
                    cause: n,
                    hart: trap.hart,
                    epc: trap.epc,
                    tval: trap.tval,
                },
            ),
        ),
        Cause::Exception(e) => if e.is_env_call() {
            (State::InSyscall, Action::Syscall { pc: trap.epc })
        } else {
            (State::Faulted { pid: owner(frame) }, Action::Report(fault_report(e, trap, frame)))
        },
    }
}

/// The action that follows an event, and the state it leaves the dispatcher
/// in. An event that the state does not wait for halts the hart.
pub open spec fn next(state: State, event: Event) -> (State, Action) {
    match (state, event) {
        (State::Returning { pc }, Event::Done) => (State::Finished, Action::Resume(pc)),
        (State::Faulted { pid }, Event::Done) => (State::Deleted, Action::DeleteProcess(pid)),
        (State::Deleted, Event::Done) => (
            State::Scheduling { fallback: Fallback::Idle },
            Action::Schedule,
        ),
        (State::Scheduling { fallback }, Event::Scheduled(frame)) => (
            State::Armed { frame, fallback },
            Action::ArmTimer(1),
        ),
        (State::Armed { frame, fallback }, Event::Done) => (
            State::Finished,
            if frame != 0 {
                Action::SwitchToUser(frame)
            } else {
                match fallback {
                    Fallback::Resume(pc) => Action::Resume(pc),
                    Fallback::Idle => Action::Idle,
                }
            },
        ),
        (State::InSyscall, Event::SyscallReturned(pc)) => if pc != 0 {
            (State::Finished, Action::Resume(pc))
        } else {
            (State::Scheduling { fallback: Fallback::Idle }, Action::Schedule)
        },
        _ => (State::Finished, Action::Halt(Fatal::UnexpectedEvent)),
    }
}

/// The frame after an event: the one event that changes it is a system call
/// that asks for another process, which moves the program counter behind the
/// call.
pub open spec fn frame_after(state: State, event: Event, frame: TrapFrame) -> TrapFrame {
    if state is InSyscall && event == Event::SyscallReturned(0) {
        TrapFrame { pc: past_call(frame.pc), ..frame }
    } else {
        frame
    }
}

/// Take a trap: decode the cause and say what to do first.
///
/// `frame` is the frame of the hart that trapped. The saved status register
/// is handed over with the rest; no decision depends on it.
pub fn m_trap(epc: u64, tval: u64, cause: u64, hart: u64, status: u64, frame: &TrapFrame) -> (step:
    (State, Action))
    ensures
        step == entry(Trap { epc, tval, cause, hart, status }, *frame),
{
    match Cause::decode(cause) {
        Cause::Interrupt(Interrupt::Software) => (
            State::Returning { pc: epc },
            Action::Report(Report::SoftwareInterrupt { hart }),
        ),
        Cause::Interrupt(Interrupt::Timer) => (
            State::Scheduling { fallback: Fallback::Resume(epc) },
            Action::Schedule,
        ),
        Cause::Interrupt(Interrupt::External) => (
            State::Returning { pc: epc },
            Action::HandleExternal,
        ),
        Cause::Interrupt(Interrupt::Unknown(n)) => (
            State::Finished,
            Action::Halt(Fatal::UnhandledInterrupt { hart, cause: n }),
        ),
        Cause::Exception(exception) => {
            let report = match exception {
                Exception::Unknown(n) => {
                    return (
                        State::Finished,
                        Action::Halt(Fatal::UnhandledException { cause: n, hart, epc, tval }),
                    );
                },
                Exception::UserEnvCall
                | Exception::SupervisorEnvCall
                | Exception::MachineEnvCall => {
                    return (State::InSyscall, Action::Syscall { pc: epc });
                },
                Exception::IllegalInstruction => Report::IllegalInstruction { hart, epc, tval },
                Exception::StoreAccessFault => Report::AccessFault {
                    pid: frame.pid,
                    pc: frame.pc,
                    epc,
                },
                Exception::InstructionPageFault => Report::InstructionPageFault {
                    hart,
                    epc,
                    tval,
                },
                Exception::LoadPageFault => Report::LoadPageFault { hart, epc, tval },
                Exception::StorePageFault => Report::StorePageFault { hart, epc, tval },
            };
            let pid_word: u64 = frame.pid;
            let pid: u16 = (pid_word & 0xffff) as u16;
            assert(pid_word & 0xffff == pid_word % 0x1_0000) by (bit_vector);
            (State::Faulted { pid }, Action::Report(report))
        },
    }
}

/// Go on with a trap: take what came of the last action and say what to do
/// next.
pub fn resume(state: State, event: Event, frame: &mut TrapFrame) -> (step: (State, Action))
    ensures
        step == next(state, event),
        *final(frame) == frame_after(state, event, *old(frame)),
{
    match (state, event) {
        (State::Returning { pc }, Event::Done) => (State::Finished, Action::Resume(pc)),
        (State::Faulted { pid }, Event::Done) => (State::Deleted, Action::DeleteProcess(pid)),
        (State::Deleted, Event::Done) => (
            State::Scheduling { fallback: Fallback::Idle },
            Action::Schedule,
        ),
        (State::Scheduling { fallback }, Event::Scheduled(chosen)) => (
            State::Armed { frame: chosen, fallback },
            Action::ArmTimer(1),
        ),
        (State::Armed { frame: chosen, fallback }, Event::Done) => {
            let action = if chosen != 0 {
                Action::SwitchToUser(chosen)
            } else {
                match fallback {
                    Fallback::Resume(pc) => Action::Resume(pc),
                    Fallback::Idle => Action::Idle,
                }
            };
            (State::Finished, action)
        },
        (State::InSyscall, Event::SyscallReturned(pc)) => {
            if pc != 0 {
                (State::Finished, Action::Resume(pc))
            } else {
                // The process resumes behind the call when its turn comes
                // again.
                frame.pc = frame.pc.wrapping_add(4);
                (State::Scheduling { fallback: Fallback::Idle }, Action::Schedule)
            }
        },
        _ => (State::Finished, Action::Halt(Fatal::UnexpectedEvent)),
    }
}

/// What the world outside the dispatcher answers during one trap.
pub struct Outside {
    /// What the system call handler returns.
    pub syscall_return: u64,
    /// What the scheduler returns.
    pub next_frame: u64,
}

/// The event that answers an action.
pub open spec fn answer(action: Action, outside: Outside) -> Event {
    match action {
        Action::Schedule => Event::Scheduled(outside.next_frame),
        Action::Syscall { .. } => Event::SyscallReturned(outside.syscall_return),
        _ => Event::Done,
    }
}

/// An upper bound on the number of actions that are still to come.
pub open spec fn steps_left(state: State) -> nat {
    match state {
        State::Finished => 0,
        State::Returning { .. } => 1,
        State::Armed { .. } => 1,
        State::Scheduling { .. } => 2,
        State::Deleted => 3,
        State::Faulted { .. } => 4,
        State::InSyscall => 3,
    }
}

/// The actions of a trap from `action` on, where each is answered as
/// `outside` says.
pub open spec fn actions_from(state: State, action: Action, outside: Outside) -> Seq<Action>
    decreases steps_left(state),
{
    if state is Finished {
        seq![action]
    } else {
        let step = next(state, answer(action, outside));
        seq![action] + actions_from(step.0, step.1, outside)
    }
}

/// The frame at the end of a trap that stands at `state`, its last action
/// being `action`.
pub open spec fn frame_from(state: State, action: Action, outside: Outside, frame: TrapFrame)
    -> TrapFrame
    decreases steps_left(state),
{
    if state is Finished {
        frame
    } else {
        let event = answer(action, outside);
        let step = next(state, event);
        frame_from(step.0, step.1, outside, frame_after(state, event, frame))
    }
}

/// All actions of a trap, in the order in which the dispatcher asks for them.
pub open spec fn actions(trap: Trap, frame: TrapFrame, outside: Outside) -> Seq<Action> {
    let step = entry(trap, frame);
    actions_from(step.0, step.1, outside)
}

/// The frame that trapped, at the end of the trap.
pub open spec fn frame_at_end(trap: Trap, frame: TrapFrame, outside: Outside) -> TrapFrame {
    let step = entry(trap, frame);
    frame_from(step.0, step.1, outside, frame)
}

/// The three steps that hand the hart to another process: ask the scheduler,
/// give the timer one quantum, and leave through the frame that the scheduler
/// chose, or, where it chose none, do what `fallback` says.
pub open spec fn reschedule(outside: Outside, fallback: Fallback) -> Seq<Action> {
    seq![
        Action::Schedule,
        Action::ArmTimer(1),
        if outside.next_frame != 0 {
            Action::SwitchToUser(outside.next_frame)
        } else {
            match fallback {
                Fallback::Resume(pc) => Action::Resume(pc),
                Fallback::Idle => Action::Idle,
            }
        },
    ]
}

/// An asynchronous trap with cause 3 is reported and returns where it came
/// in; one with cause 7 hands the hart to the next process and, where there
/// is none, returns where it came in; one with cause 11 serves the interrupt
/// controller and returns where it came in; any other halts the hart with
/// the hart's id and the cause number. None changes the frame.
pub proof fn lemma_interrupt_actions(trap: Trap, frame: TrapFrame, outside: Outside)
    requires
        is_interrupt(trap.cause),
    ensures
        frame_at_end(trap, frame, outside) == frame,
        actions(trap, frame, outside) == (if cause_number(trap.cause) == 3 {
            seq![
                Action::Report(Report::SoftwareInterrupt { hart: trap.hart }),
                Action::Resume(trap.epc),
            ]
        } else if cause_number(trap.cause) == 7 {
            reschedule(outside, Fallback::Resume(trap.epc))
        } else if cause_number(trap.cause) == 11 {
            seq![Action::HandleExternal, Action::Resume(trap.epc)]
        } else {
            seq![
                Action::Halt(
                    Fatal::UnhandledInterrupt { hart: trap.hart, cause: cause_number(trap.cause) },
                ),
            ]
        }),
{
    reveal_with_fuel(actions_from, 5);
    reveal_with_fuel(frame_from, 5);
    assert(actions(trap, frame, outside) =~= (if cause_number(trap.cause) == 3 {
        seq![
            Action::Report(Report::SoftwareInterrupt { hart: trap.hart }),
            Action::Resume(trap.epc),
        ]
    } else if cause_number(trap.cause) == 7 {
        reschedule(outside, Fallback::Resume(trap.epc))
    } else if cause_number(trap.cause) == 11 {
        seq![Action::HandleExternal, Action::Resume(trap.epc)]
    } else {
        seq![
            Action::Halt(
                Fatal::UnhandledInterrupt { hart: trap.hart, cause: cause_number(trap.cause) },
            ),
        ]
    }));
}

/// A synchronous trap with cause 2, 7, 12, 13 or 15 is reported, deletes the
/// process that owns the frame and hands the hart to the next process,
/// idling where there is none; the frame stays as it is. One with cause 8, 9
/// or 11 runs the system call handler on the saved program counter: where
/// the handler returns an address, the trap returns there and the frame stays
/// as it is; where it returns 0, the frame's program counter moves 4 bytes on
/// and the hart goes to the next process. Any other cause halts the hart with
/// the cause number, the hart's id, the saved program counter and the trap
/// value.
pub proof fn lemma_exception_actions(trap: Trap, frame: TrapFrame, outside: Outside)
    requires
        !is_interrupt(trap.cause),
    ensures
        ({
            let n = cause_number(trap.cause);
            let cause = Exception::of(n);
            if n == 2 || n == 7 || n == 12 || n == 13 || n == 15 {
                &&& actions(trap, frame, outside) == seq![
                    Action::Report(fault_report(cause, trap, frame)),
                    Action::DeleteProcess(owner(frame)),
                ] + reschedule(outside, Fallback::Idle)
                &&& frame_at_end(trap, frame, outside) == frame
            } else if n == 8 || n == 9 || n == 11 {
                if outside.syscall_return != 0 {
                    &&& actions(trap, frame, outside) == seq![
                        Action::Syscall { pc: trap.epc },
                        Action::Resume(outside.syscall_return),
                    ]
                    &&& frame_at_end(trap, frame, outside) == frame
                } else {
                    &&& actions(trap, frame, outside) == seq![Action::Syscall { pc: trap.epc }]
                        + reschedule(outside, Fallback::Idle)
                    &&& frame_at_end(trap, frame, outside) == TrapFrame {
                        pc: past_call(frame.pc),
                        ..frame
                    }
                }
            } else {
                &&& actions(trap, frame, outside) == seq![
                    Action::Halt(
                        Fatal::UnhandledException {
                            cause: n,
                            hart: trap.hart,
                            epc: trap.epc,
                            tval: trap.tval,
                        },
                    ),
                ]
                &&& frame_at_end(trap, frame, outside) == frame
            }
        }),
{
    reveal_with_fuel(actions_from, 6);
    reveal_with_fuel(frame_from, 6);
    let n = cause_number(trap.cause);
    let cause = Exception::of(n);
    let got = actions(trap, frame, outside);
    if n == 2 || n == 7 || n == 12 || n == 13 || n == 15 {
        assert(got =~= seq![
            Action::Report(fault_report(cause, trap, frame)),
            Action::DeleteProcess(owner(frame)),
        ] + reschedule(outside, Fallback::Idle));
    } else if n == 8 || n == 9 || n == 11 {
        if outside.syscall_return != 0 {
            assert(got =~= seq![
                Action::Syscall { pc: trap.epc },
                Action::Resume(outside.syscall_return),
            ]);
        } else {
            assert(got =~= seq![Action::Syscall { pc: trap.epc }] + reschedule(
                outside,
                Fallback::Idle,
            ));
        }
    } else {
        assert(got =~= seq![
            Action::Halt(
                Fatal::UnhandledException {
                    cause: n,
                    hart: trap.hart,
                    epc: trap.epc,
                    tval: trap.tval,
                },
            ),
        ]);
    }
}

/// Every trap ends: its last action, and no other, is one of the four that
/// end a trap.
pub proof fn lemma_trap_ends(trap: Trap, frame: TrapFrame, outside: Outside)
    ensures
        1 <= actions(trap, frame, outside).len() <= 5,
        actions(trap, frame, outside).last().ends_trap(),
        forall|i: int|
            0 <= i < actions(trap, frame, outside).len() - 1 ==> !(#[trigger] actions(
                trap,
                frame,
                outside,
            )[i]).ends_trap(),
{
    if is_interrupt(trap.cause) {
        lemma_interrupt_actions(trap, frame, outside);
    } else {
        lemma_exception_actions(trap, frame, outside);
    }
}

/// The scheduler is asked at most once in a trap, and the timer is given one
/// quantum right after it was asked, and at no other time.
pub proof fn lemma_timer_follows_scheduler(trap: Trap, frame: TrapFrame, outside: Outside)
    ensures
        ({
            let all = actions(trap, frame, outside);
            &&& forall|i: int|
                0 <= i < all.len() && #[trigger] all[i] == Action::Schedule ==> i + 1 < all.len()
                    && all[i + 1] == Action::ArmTimer(1)
            &&& forall|i: int|
                0 <= i < all.len() && (#[trigger] all[i]) is ArmTimer ==> i > 0 && all[i - 1]
                    == Action::Schedule
            &&& forall|i: int, j: int|
                0 <= i < all.len() && 0 <= j < all.len() && #[trigger] all[i] == Action::Schedule
                    && #[trigger] all[j] == Action::Schedule ==> i == j
        }),
{
    if is_interrupt(trap.cause) {
        lemma_interrupt_actions(trap, frame, outside);
    } else {
        lemma_exception_actions(trap, frame, outside);
    }
}

/// Memory address of the timer's compare register of hart 0.
pub const MMIO_MTIMECMP: u64 = 0x0200_4000;

/// Memory address of the timer's current time register.
pub const MMIO_MTIME: u64 = 0x0200_BFF8;

/// The context-switch timer of a hart: the current time, which software can
/// only read, and the time at which the timer interrupts.
#[derive(Clone, Copy, Debug, PartialEq, Eq, Structural)]
pub struct Timer {
    /// The current time.
    pub mtime: MTime,
    /// The timer interrupts from this time on.
    pub compare: u64,
}

/// The time that lies `qm` quanta after `now`. Time wraps at the end of its
/// 64 bits.
pub open spec fn deadline(now: u64, qm: u16) -> u64 {
    ((now + CONTEXT_SWITCH_TIME * qm) % 0x1_0000_0000_0000_0000) as u64
}

/// The time that lies `qm` quanta after `now`: what the compare register is
/// to hold for the timer to interrupt then.
pub fn next_deadline(now: u64, qm: u16) -> (at: u64)
    ensures
        at == deadline(now, qm),
        now + (FREQ / 500) * qm <= u64::MAX ==> at == now + (FREQ / 500) * qm,
{
    let quanta: u64 = qm as u64;
    assert(CONTEXT_SWITCH_TIME * quanta <= 20_000 * 0xffff) by (nonlinear_arith)
        requires
            CONTEXT_SWITCH_TIME == 20_000,
            quanta <= 0xffff,
    ;
    now.wrapping_add(CONTEXT_SWITCH_TIME * quanta)
}

impl Timer {
    /// Whether the timer interrupts: the current time has reached the
    /// compare register.
    pub open spec fn fires(self) -> bool {
        self.mtime.value >= self.compare
    }

    /// Whether the timer interrupts.
    pub fn is_firing(&self) -> (firing: bool)
        ensures
            firing == self.fires(),
    {
        self.mtime.get() >= self.compare
    }
}

/// Program the timer to interrupt `qm` quanta from now. The current time
/// stays as it is.
pub fn schedule_next_context_switch(timer: &mut Timer, qm: u16)
    ensures
        final(timer).mtime == old(timer).mtime,
        final(timer).compare == deadline(old(timer).mtime.value, qm),
        old(timer).mtime.value + (FREQ / 500) * qm <= u64::MAX ==> final(timer).compare == old(
            timer,
        ).mtime.value + (FREQ / 500) * qm,
        qm > 0 && old(timer).mtime.value + (FREQ / 500) * qm <= u64::MAX ==> !final(timer).fires(),
{
    timer.compare = next_deadline(timer.mtime.get(), qm);
    assert(qm > 0 ==> (FREQ / 500) * qm > 0) by (nonlinear_arith)
        requires
            FREQ / 500 == 20_000,
    ;
}

} // verus!
