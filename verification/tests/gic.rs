use rustminix::gic::{
    classify_irq, handle_irq, register_timer_handler, register_uart_handler, Gic, InterruptType,
    IRQ_MAILBOX, IRQ_TIMER, IRQ_UART,
};
use rustminix::timer::TimerState;

#[test]
fn new_controller_is_clear() {
    let g = Gic::new();
    assert_eq!(g.enable_1, 0);
    assert_eq!(g.enable_2, 0);
    assert_eq!(g.enable_local, 0);
    assert_eq!(g.pending_basic, 0);
    assert_eq!(g.pending_1, 0);
    assert_eq!(g.pending_2, 0);
    assert_eq!(g.pending_local, 0);
    assert_eq!(g.timer_control, 0);
    assert_eq!(g.timer_reload, 0);
    assert!(!g.timer_handler_registered);
    assert!(!g.uart_handler_registered);
}

#[test]
fn init_disables_everything_and_drains_pending() {
    let mut g = Gic::new();
    g.enable_irq(5);
    g.enable_irq(40);
    g.enable_irq(64);
    g.raise_irq(5);
    g.raise_irq(40);
    g.raise_irq(64);
    g.init();
    assert_eq!(g.enable_1, 0);
    assert_eq!(g.enable_2, 0);
    assert_eq!(g.enable_local, 0);
    assert_eq!(g.pending_1, 0);
    assert_eq!(g.pending_2, 0);
    assert_eq!(g.pending_local, 0);
    assert_eq!(g.pending_basic, 0);
    assert_eq!(g.get_pending_irq(), None);
}

#[test]
fn enable_sets_one_bit_in_the_owning_bank() {
    let mut g = Gic::new();
    g.enable_irq(0);
    assert_eq!(g.enable_1, 1);
    g.enable_irq(31);
    assert_eq!(g.enable_1, 1 | (1 << 31));
    g.enable_irq(32);
    assert_eq!(g.enable_2, 1);
    g.enable_irq(63);
    assert_eq!(g.enable_2, 1 | (1 << 31));
    g.enable_irq(64);
    assert_eq!(g.enable_local, 1);
    g.enable_irq(71);
    assert_eq!(g.enable_local, 1 | (1 << 7));
    assert_eq!(g.enable_1, 1 | (1 << 31));
}

#[test]
fn disable_clears_exactly_one_bit() {
    let mut g = Gic::new();
    g.enable_irq(3);
    g.enable_irq(4);
    g.disable_irq(3);
    assert_eq!(g.enable_1, 1 << 4);
    g.enable_irq(57);
    g.disable_irq(57);
    assert_eq!(g.enable_2, 0);
    g.enable_irq(65);
    g.disable_irq(65);
    assert_eq!(g.enable_local, 0);
}

#[test]
fn invalid_line_is_rejected_without_altering_registers() {
    let mut g = Gic::new();
    g.enable_irq(7);
    g.raise_irq(7);
    let before_enable_1 = g.enable_1;
    let before_pending_1 = g.pending_1;
    g.enable_irq(72);
    g.enable_irq(100);
    g.disable_irq(72);
    g.raise_irq(72);
    g.raise_irq(u32::MAX);
    assert_eq!(g.enable_1, before_enable_1);
    assert_eq!(g.enable_2, 0);
    assert_eq!(g.enable_local, 0);
    assert_eq!(g.pending_1, before_pending_1);
    assert_eq!(g.pending_2, 0);
    assert_eq!(g.pending_local, 0);
    assert_eq!(g.pending_basic, 0);
}

#[test]
fn every_line_reports_itself_when_asserted_alone() {
    for irq in 0..72u32 {
        let mut g = Gic::new();
        g.enable_irq(irq);
        g.raise_irq(irq);
        assert_eq!(g.get_pending_irq(), Some(irq), "line {irq}");
    }
}

#[test]
fn local_bank_beats_peripheral_bank_1() {
    let mut g = Gic::new();
    g.raise_irq(66); // local bank, bit 2
    g.raise_irq(5); // peripheral bank 1, bit 5
    assert_eq!(g.get_pending_irq(), Some(66));
}

#[test]
fn lowest_bit_wins_within_a_bank() {
    let mut g = Gic::new();
    g.raise_irq(20);
    g.raise_irq(9);
    g.raise_irq(30);
    assert_eq!(g.get_pending_irq(), Some(9));
}

#[test]
fn bank_1_beats_bank_2() {
    let mut g = Gic::new();
    g.raise_irq(40);
    g.raise_irq(17);
    assert_eq!(g.get_pending_irq(), Some(17));
}

#[test]
fn basic_bank_is_scanned_between_local_and_bank_1() {
    let mut g = Gic::new();
    g.pending_basic = 1 << 3;
    g.raise_irq(1);
    assert_eq!(g.get_pending_irq(), Some(3));
}

#[test]
fn local_word_with_only_high_bits_falls_through() {
    let mut g = Gic::new();
    g.pending_local = 1 << 9; // non-zero, but no bit in the scanned 0..8 range
    g.raise_irq(12);
    assert_eq!(g.get_pending_irq(), Some(12));
}

#[test]
fn poll_on_quiet_controller_finds_nothing() {
    let g = Gic::new();
    assert_eq!(g.get_pending_irq(), None);
}

#[test]
fn classification_maps_the_fixed_ids() {
    assert_eq!(classify_irq(IRQ_TIMER), InterruptType::Timer);
    assert_eq!(classify_irq(IRQ_UART), InterruptType::Uart);
    assert_eq!(classify_irq(IRQ_MAILBOX), InterruptType::Mailbox);
    assert_eq!(classify_irq(7), InterruptType::Unknown(7));
}

#[test]
fn serving_the_timer_acknowledges_its_pending_bit() {
    let mut g = Gic::new();
    g.raise_irq(IRQ_TIMER);
    let served = g.handle_irq();
    assert_eq!(served, Some(InterruptType::Timer));
    assert_eq!(g.pending_local, 0);
    assert_eq!(g.handle_irq(), None);
}

#[test]
fn serving_other_lines_leaves_their_pending_bit() {
    let mut g = Gic::new();
    g.raise_irq(IRQ_UART);
    assert_eq!(g.handle_irq(), Some(InterruptType::Uart));
    assert_eq!(g.pending_2, 1 << (IRQ_UART - 32));
}

#[test]
fn spurious_interrupt_is_reported_as_none() {
    let mut g = Gic::new();
    let mut t = TimerState::new();
    assert_eq!(handle_irq(&mut g, &mut t), None);
    assert_eq!(t.tick_count, 0);
}

#[test]
fn registered_timer_handler_advances_the_tick_count() {
    let mut g = Gic::new();
    let mut t = TimerState::new();
    register_timer_handler(&mut g);
    assert!(g.timer_handler_registered);
    g.raise_irq(IRQ_TIMER);
    assert_eq!(handle_irq(&mut g, &mut t), Some(InterruptType::Timer));
    assert_eq!(t.tick_count, 1);
    assert_eq!(g.pending_local, 0);
}

#[test]
fn unregistered_timer_handler_is_a_no_op() {
    let mut g = Gic::new();
    let mut t = TimerState::new();
    g.raise_irq(IRQ_TIMER);
    assert_eq!(handle_irq(&mut g, &mut t), Some(InterruptType::Timer));
    assert_eq!(t.tick_count, 0);
}

#[test]
fn uart_handler_registration_is_recorded() {
    let mut g = Gic::new();
    register_uart_handler(&mut g);
    assert!(g.uart_handler_registered);
}

#[test]
fn setup_timer_programs_reload_control_and_line() {
    let mut g = Gic::new();
    g.setup_timer(10_000);
    assert_eq!(g.timer_reload, 10_000);
    assert_eq!(g.timer_control, (1 << 28) | (1 << 29) | (1 << 30));
    assert_eq!(g.enable_local, 1); // the timer line, bit 0 of the local bank
}
