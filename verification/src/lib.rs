//! The trap-and-dispatch core of a bare-metal multi-hart RISC-V kernel.
//!
//! Every exception, interrupt and system call of a hart ends up here. The
//! library decides what is to be done about it and in which order; touching
//! the machine is left to the kernel around it, which performs each decision
//! and reports back what came of it.
//!
//! - [`cpu`]: the process context, that is the register blocks and the trap
//!   frame, with the layout that the context-restore routine relies on.
//! - [`registers`]: the control and status registers of a hart, and the
//!   encoding of the address translation register.
//! - [`trap`]: the dispatcher, from the cause of a trap to the actions that
//!   answer it, and the context-switch timer.
//! - [`plic`]: the platform interrupt controller, its driver and the handler
//!   of external interrupts.
//! - [`sched`]: what the dispatcher relies on of the scheduler.
//! - [`klog`]: the kernel's logger.
//! - [`lock`]: a mutex whose waiters sleep.
//! - [`xtask`]: the commands that check, build, package and run the kernel.

pub mod cpu;
pub mod klog;
pub mod lock;
pub mod plic;
pub mod registers;
pub mod sched;
pub mod trap;
pub mod xtask;
