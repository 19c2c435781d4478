use rustminix::exceptions::{
    classify_sync, disable_interrupts, dispatch_exception, enable_interrupts, exception_class,
    handle_syscall, init, interrupts_enabled, ExceptionContext, ExceptionOutcome, ExceptionState,
    ExceptionType, SyncCause, EC_DATA_ABORT_LOWER, EC_INSTRUCTION_ABORT_LOWER, EC_SVC,
};
use rustminix::gic::{register_timer_handler, Gic, IRQ_TIMER};
use rustminix::timer::TimerState;

fn esr_with_class(class: u8) -> u64 {
    ((class as u64) << 26) | 0x01ff_ffff // low syndrome bits must not matter
}

#[test]
fn fresh_context_is_all_zero() {
    let ctx = ExceptionContext::new();
    assert_eq!(ctx.gpr, [0u64; 31]);
    assert_eq!(ctx.sp_el0, 0);
    assert_eq!(ctx.elr_el1, 0);
    assert_eq!(ctx.spsr_el1, 0);
}

#[test]
fn exception_class_reads_bits_26_to_31() {
    assert_eq!(exception_class(esr_with_class(0x15)), 0x15);
    assert_eq!(exception_class(esr_with_class(0x3f)), 0x3f);
    assert_eq!(exception_class(0), 0);
    assert_eq!(exception_class(u64::MAX), 0x3f);
}

#[test]
fn sync_causes_are_classified() {
    assert_eq!(classify_sync(EC_SVC), SyncCause::Svc);
    assert_eq!(
        classify_sync(EC_INSTRUCTION_ABORT_LOWER),
        SyncCause::InstructionAbortLower
    );
    assert_eq!(classify_sync(EC_DATA_ABORT_LOWER), SyncCause::DataAbortLower);
    assert_eq!(classify_sync(0x3f), SyncCause::Unknown(0x3f));
}

#[test]
fn syscall_reads_x8_and_signals_success_in_x0() {
    let mut ctx = ExceptionContext::new();
    ctx.gpr[8] = 42;
    ctx.gpr[0] = 0xdead;
    ctx.gpr[30] = 7;
    let num = handle_syscall(&mut ctx);
    assert_eq!(num, 42);
    assert_eq!(ctx.gpr[0], 0);
    assert_eq!(ctx.gpr[8], 42);
    assert_eq!(ctx.gpr[30], 7);
}

#[test]
fn kernel_sync_trap_with_unrecognized_cause_halts_with_that_cause() {
    let mut ctx = ExceptionContext::new();
    let mut gic = Gic::new();
    let mut t = TimerState::new();
    let esr = esr_with_class(0x3f);
    let o = dispatch_exception(ExceptionType::SynchronousEL1, esr, &mut ctx, &mut gic, &mut t);
    assert_eq!(o, ExceptionOutcome::HaltWithClass(0x3f));
}

#[test]
fn kernel_sync_trap_is_fatal_even_for_recognized_causes() {
    let mut ctx = ExceptionContext::new();
    let mut gic = Gic::new();
    let mut t = TimerState::new();
    let o = dispatch_exception(
        ExceptionType::SynchronousEL1,
        esr_with_class(EC_DATA_ABORT_LOWER),
        &mut ctx,
        &mut gic,
        &mut t,
    );
    assert_eq!(o, ExceptionOutcome::HaltWithClass(EC_DATA_ABORT_LOWER));
}

#[test]
fn irq_trap_forwards_to_the_controller_and_resumes() {
    let mut ctx = ExceptionContext::new();
    let mut gic = Gic::new();
    let mut t = TimerState::new();
    register_timer_handler(&mut gic);
    gic.raise_irq(IRQ_TIMER);
    let o = dispatch_exception(ExceptionType::IrqEL1, 0, &mut ctx, &mut gic, &mut t);
    assert_eq!(o, ExceptionOutcome::Resume);
    assert_eq!(t.tick_count, 1);
    assert_eq!(gic.pending_local, 0);
}

#[test]
fn user_irq_trap_also_resumes() {
    let mut ctx = ExceptionContext::new();
    let mut gic = Gic::new();
    let mut t = TimerState::new();
    let o = dispatch_exception(ExceptionType::IrqEL0, 0, &mut ctx, &mut gic, &mut t);
    assert_eq!(o, ExceptionOutcome::Resume);
}

#[test]
fn fiq_traps_are_no_ops_that_resume() {
    let mut ctx = ExceptionContext::new();
    let mut gic = Gic::new();
    let mut t = TimerState::new();
    assert_eq!(
        dispatch_exception(ExceptionType::FiqEL1, 0, &mut ctx, &mut gic, &mut t),
        ExceptionOutcome::Resume
    );
    assert_eq!(
        dispatch_exception(ExceptionType::FiqEL0, 0, &mut ctx, &mut gic, &mut t),
        ExceptionOutcome::Resume
    );
}

#[test]
fn system_errors_always_halt() {
    let mut ctx = ExceptionContext::new();
    let mut gic = Gic::new();
    let mut t = TimerState::new();
    assert_eq!(
        dispatch_exception(ExceptionType::SErrorEL1, 0, &mut ctx, &mut gic, &mut t),
        ExceptionOutcome::Halt
    );
    assert_eq!(
        dispatch_exception(ExceptionType::SErrorEL0, 0, &mut ctx, &mut gic, &mut t),
        ExceptionOutcome::Halt
    );
}

#[test]
fn user_syscall_resumes_with_success_written_back() {
    let mut ctx = ExceptionContext::new();
    ctx.gpr[8] = 9;
    ctx.gpr[0] = 77;
    let mut gic = Gic::new();
    let mut t = TimerState::new();
    let o = dispatch_exception(
        ExceptionType::SynchronousEL0,
        esr_with_class(EC_SVC),
        &mut ctx,
        &mut gic,
        &mut t,
    );
    assert_eq!(o, ExceptionOutcome::Resume);
    assert_eq!(ctx.gpr[0], 0);
}

#[test]
fn user_sync_trap_with_other_cause_halts() {
    let mut ctx = ExceptionContext::new();
    let mut gic = Gic::new();
    let mut t = TimerState::new();
    let o = dispatch_exception(
        ExceptionType::SynchronousEL0,
        esr_with_class(EC_INSTRUCTION_ABORT_LOWER),
        &mut ctx,
        &mut gic,
        &mut t,
    );
    assert_eq!(o, ExceptionOutcome::HaltWithClass(EC_INSTRUCTION_ABORT_LOWER));
}

#[test]
fn mask_state_follows_the_install_and_toggle_calls() {
    let mut st = ExceptionState::new();
    assert!(!st.vector_table_installed);
    assert!(!interrupts_enabled(&st));
    init(&mut st);
    assert!(st.vector_table_installed);
    assert!(!interrupts_enabled(&st));
    enable_interrupts(&mut st);
    assert!(interrupts_enabled(&st));
    disable_interrupts(&mut st);
    assert!(!interrupts_enabled(&st));
}
