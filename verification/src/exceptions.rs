//! Exception dispatch: the routing of the eight trap causes (synchronous,
//! interrupt, fast interrupt and system error, each from kernel or user
//! privilege) to their handlers, the syndrome-register decoding that picks a
//! synchronous sub-cause, and the per-core interrupt-mask state.
//!
//! The vector-table stubs that save and restore register state are a few
//! fixed instructions outside the library; they hand the saved
//! [`ExceptionContext`], the trap cause and the syndrome word to
//! [`dispatch_exception`], which makes every decision: what resumes, what
//! halts, and what the handler may change in the saved context.

use vstd::prelude::*;

verus! {

use crate::gic::{Gic, InterruptType};
use crate::timer::{spec_tick, TimerState};

/// Exception class (syndrome bits 26–31) of a system-call instruction.
pub const EC_SVC: u8 = 0x15;

/// Exception class of an instruction abort taken from a lower level.
pub const EC_INSTRUCTION_ABORT_LOWER: u8 = 0x21;

/// Exception class of a data abort taken from a lower level.
pub const EC_DATA_ABORT_LOWER: u8 = 0x25;

/// The eight trap causes: which vector-table slot was entered, that is,
/// which kind of trap arrived and from which privilege level.
#[derive(Clone, Copy, Debug, PartialEq, Eq, Structural)]
pub enum ExceptionType {
    SynchronousEL1,
    IrqEL1,
    FiqEL1,
    SErrorEL1,
    SynchronousEL0,
    IrqEL0,
    FiqEL0,
    SErrorEL0,
}

/// Snapshot of the interrupted code's register state, saved by the trap
/// entry sequence and restored on return-from-trap: the 31 general-purpose
/// registers, the user stack pointer, the return address and the saved
/// processor status.
#[derive(Clone, Copy, Debug)]
pub struct ExceptionContext {
    /// General-purpose registers x0–x30.
    pub gpr: [u64; 31],
    /// User-mode stack pointer.
    pub sp_el0: u64,
    /// Faulting-instruction return address.
    pub elr_el1: u64,
    /// Saved processor status.
    pub spsr_el1: u64,
}

impl ExceptionContext {
    /// An all-zero context.
    pub fn new() -> (ctx: ExceptionContext)
        ensures
            forall|i: int| 0 <= i < 31 ==> ctx.gpr@[i] == 0,
            ctx.sp_el0 == 0,
            ctx.elr_el1 == 0,
            ctx.spsr_el1 == 0,
    {
        ExceptionContext { gpr: [0u64; 31], sp_el0: 0, elr_el1: 0, spsr_el1: 0 }
    }
}

/// Recognized synchronous sub-causes, decoded from the exception class.
#[derive(Clone, Copy, Debug, PartialEq, Eq, Structural)]
pub enum SyncCause {
    /// A system-call instruction.
    Svc,
    /// Instruction abort from a lower privilege level.
    InstructionAbortLower,
    /// Data abort from a lower privilege level.
    DataAbortLower,
    /// Anything else, carrying the raw class.
    Unknown(u8),
}

/// What dispatching a trap decided: resume the interrupted code, or halt
/// the system (with the decoded cause class where one was read).
#[derive(Clone, Copy, Debug, PartialEq, Eq, Structural)]
pub enum ExceptionOutcome {
    /// Return from the trap and resume.
    Resume,
    /// Fatal: halt forever, reporting the decoded exception class.
    HaltWithClass(u8),
    /// Fatal: halt forever (no sub-cause is decoded for this trap kind).
    Halt,
}

/// The exception-class field of the syndrome register: bits 26–31.
pub open spec fn spec_exception_class(esr: u64) -> u8 {
    ((esr >> 26) & 0x3f) as u8
}

/// Decode the exception-class field from a syndrome-register value.
pub fn exception_class(esr: u64) -> (class: u8)
    ensures
        class == spec_exception_class(esr),
        class <= 0x3f,
{
    proof {
        assert((esr >> 26) & 0x3f <= 0x3f) by (bit_vector);
    }
    ((esr >> 26) & 0x3f) as u8
}

/// The sub-cause an exception class stands for.
pub open spec fn spec_classify_sync(class: u8) -> SyncCause {
    if class == EC_SVC {
        SyncCause::Svc
    } else if class == EC_INSTRUCTION_ABORT_LOWER {
        SyncCause::InstructionAbortLower
    } else if class == EC_DATA_ABORT_LOWER {
        SyncCause::DataAbortLower
    } else {
        SyncCause::Unknown(class)
    }
}

/// Classify an exception class into the recognized synchronous sub-causes.
pub fn classify_sync(class: u8) -> (cause: SyncCause)
    ensures
        cause == spec_classify_sync(class),
{
    if class == EC_SVC {
        SyncCause::Svc
    } else if class == EC_INSTRUCTION_ABORT_LOWER {
        SyncCause::InstructionAbortLower
    } else if class == EC_DATA_ABORT_LOWER {
        SyncCause::DataAbortLower
    } else {
        SyncCause::Unknown(class)
    }
}

/// Serve a system call: the call number is register x8, and the handler
/// signals success by writing zero to the return-value register x0.  No
/// other saved state changes.
pub fn handle_syscall(ctx: &mut ExceptionContext) -> (num: u64)
    ensures
        num == old(ctx).gpr@[8],
        final(ctx).gpr@ == old(ctx).gpr@.update(0, 0u64),
        final(ctx).sp_el0 == old(ctx).sp_el0,
        final(ctx).elr_el1 == old(ctx).elr_el1,
        final(ctx).spsr_el1 == old(ctx).spsr_el1,
{
    let num = ctx.gpr[8];
    ctx.gpr[0] = 0;
    num
}

/// Route one trap to its handler.
///
/// - A synchronous trap at kernel level is always fatal: the syndrome's
///   class is decoded and reported, and the system halts.
/// - An interrupt from either level is forwarded to the interrupt
///   controller (the only non-fatal asynchronous path) and resumes.
/// - A fast interrupt from either level is a no-op and resumes.
/// - A system error from either level is fatal.
/// - A synchronous trap at user level resumes only for a system call, whose
///   handler writes the success value into the saved context; every other
///   sub-cause is fatal.
pub fn dispatch_exception(
    kind: ExceptionType,
    esr: u64,
    ctx: &mut ExceptionContext,
    gic: &mut Gic,
    ticks: &mut TimerState,
) -> (o: ExceptionOutcome)
    ensures
        match kind {
            ExceptionType::SynchronousEL1 => {
                &&& o == ExceptionOutcome::HaltWithClass(spec_exception_class(esr))
                &&& *final(ctx) == *old(ctx)
                &&& *final(gic) == *old(gic)
                &&& *final(ticks) == *old(ticks)
            },
            ExceptionType::IrqEL1 | ExceptionType::IrqEL0 => {
                &&& o == ExceptionOutcome::Resume
                &&& *final(ctx) == *old(ctx)
                &&& *final(gic) == old(gic).spec_handle_irq().0
                &&& final(ticks).tick_count == (
                if old(gic).spec_handle_irq().1 matches Some(InterruptType::Timer)
                    && old(gic).timer_handler_registered {
                    spec_tick(old(ticks).tick_count)
                } else {
                    old(ticks).tick_count
                })
            },
            ExceptionType::FiqEL1 | ExceptionType::FiqEL0 => {
                &&& o == ExceptionOutcome::Resume
                &&& *final(ctx) == *old(ctx)
                &&& *final(gic) == *old(gic)
                &&& *final(ticks) == *old(ticks)
            },
            ExceptionType::SErrorEL1 | ExceptionType::SErrorEL0 => {
                &&& o == ExceptionOutcome::Halt
                &&& *final(ctx) == *old(ctx)
                &&& *final(gic) == *old(gic)
                &&& *final(ticks) == *old(ticks)
            },
            ExceptionType::SynchronousEL0 => {
                &&& *final(gic) == *old(gic)
                &&& *final(ticks) == *old(ticks)
                &&& if spec_exception_class(esr) == EC_SVC {
                    &&& o == ExceptionOutcome::Resume
                    &&& final(ctx).gpr@ == old(ctx).gpr@.update(0, 0u64)
                    &&& final(ctx).sp_el0 == old(ctx).sp_el0
                    &&& final(ctx).elr_el1 == old(ctx).elr_el1
                    &&& final(ctx).spsr_el1 == old(ctx).spsr_el1
                } else {
                    &&& o == ExceptionOutcome::HaltWithClass(spec_exception_class(esr))
                    &&& *final(ctx) == *old(ctx)
                }
            },
        },
{
    match kind {
        ExceptionType::SynchronousEL1 => {
            let class = exception_class(esr);
            ExceptionOutcome::HaltWithClass(class)
        },
        ExceptionType::IrqEL1 | ExceptionType::IrqEL0 => {
            let _ = crate::gic::handle_irq(gic, ticks);
            ExceptionOutcome::Resume
        },
        ExceptionType::FiqEL1 | ExceptionType::FiqEL0 => ExceptionOutcome::Resume,
        ExceptionType::SErrorEL1 | ExceptionType::SErrorEL0 => ExceptionOutcome::Halt,
        ExceptionType::SynchronousEL0 => {
            let class = exception_class(esr);
            if class == EC_SVC {
                let _ = handle_syscall(ctx);
                ExceptionOutcome::Resume
            } else {
                ExceptionOutcome::HaltWithClass(class)
            }
        },
    }
}

/// Per-core trap configuration: whether this core has installed its vector
/// table, and whether its asynchronous-interrupt source is masked.
pub struct ExceptionState {
    /// The exception-base register points at the vector table.
    pub vector_table_installed: bool,
    /// Asynchronous interrupts are masked for this core.
    pub irq_masked: bool,
}

impl ExceptionState {
    /// At reset the vector table is not installed and interrupts are
    /// masked.
    pub fn new() -> (st: ExceptionState)
        ensures
            !st.vector_table_installed,
            st.irq_masked,
    {
        ExceptionState { vector_table_installed: false, irq_masked: true }
    }
}

/// Install the vector table for the calling core; must happen before that
/// core unmasks any trap source.
pub fn init(st: &mut ExceptionState)
    ensures
        final(st).vector_table_installed,
        final(st).irq_masked == old(st).irq_masked,
{
    st.vector_table_installed = true;
}

/// Unmask asynchronous interrupts for the calling core.
pub fn enable_interrupts(st: &mut ExceptionState)
    ensures
        !final(st).irq_masked,
        final(st).vector_table_installed == old(st).vector_table_installed,
{
    st.irq_masked = false;
}

/// Mask asynchronous interrupts for the calling core.
pub fn disable_interrupts(st: &mut ExceptionState)
    ensures
        final(st).irq_masked,
        final(st).vector_table_installed == old(st).vector_table_installed,
{
    st.irq_masked = true;
}

/// Whether asynchronous interrupts are currently unmasked.
pub fn interrupts_enabled(st: &ExceptionState) -> (enabled: bool)
    ensures
        enabled == !st.irq_masked,
{
    !st.irq_masked
}

} // verus!
