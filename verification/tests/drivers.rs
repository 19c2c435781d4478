use rustminix::display::Display;
use rustminix::gic::Gic;
use rustminix::sync::SpinLock;
use rustminix::timer::{
    self, counter_to_ms, get_tick_count, ms_to_ticks, sleep_elapsed, timer_interrupt_handler,
    TimerState,
};
use rustminix::uart::{self, Uart};

#[test]
fn timer_init_registers_and_programs_the_periodic_timer() {
    let mut g = Gic::new();
    timer::init(&mut g);
    assert!(g.timer_handler_registered);
    assert_eq!(g.timer_reload, 10_000);
    assert_eq!(g.timer_control, (1 << 28) | (1 << 29) | (1 << 30));
    assert_eq!(g.enable_local, 1);
}

#[test]
fn spinlock_starts_free_and_tracks_ownership() {
    let mut lock = SpinLock::new();
    assert!(lock.try_lock());
    assert!(!lock.try_lock());
    lock.unlock();
    assert!(lock.try_lock());
    lock.unlock();
    lock.lock();
    assert!(!lock.try_lock());
    lock.unlock();
}

#[test]
fn tick_counter_advances_and_reports_hundreds() {
    let mut t = TimerState::new();
    assert_eq!(get_tick_count(&t), 0);
    for n in 1..=99u64 {
        assert!(!timer_interrupt_handler(&mut t));
        assert_eq!(get_tick_count(&t), n);
    }
    assert!(timer_interrupt_handler(&mut t));
    assert_eq!(get_tick_count(&t), 100);
}

#[test]
fn tick_counter_wraps_at_the_type_bound() {
    let mut t = TimerState { tick_count: u64::MAX };
    let report = timer_interrupt_handler(&mut t);
    assert_eq!(t.tick_count, 0);
    assert!(report);
}

#[test]
fn sleep_decisions_and_conversions_are_exact() {
    assert!(!sleep_elapsed(10, 12, 3));
    assert!(sleep_elapsed(10, 13, 3));
    assert!(sleep_elapsed(10, 20, 3));
    assert!(sleep_elapsed(5, 5, 0));
    assert_eq!(ms_to_ticks(0), 0);
    assert_eq!(ms_to_ticks(9), 0);
    assert_eq!(ms_to_ticks(10), 1);
    assert_eq!(ms_to_ticks(105), 10);
    assert_eq!(counter_to_ms(0), 0);
    assert_eq!(counter_to_ms(999), 0);
    assert_eq!(counter_to_ms(123_456), 123);
}

#[test]
fn display_numbers_lines_from_one_and_clear_restarts() {
    let mut d = Display::new();
    assert_eq!(d.write_line(), 1);
    assert_eq!(d.write_line(), 2);
    assert_eq!(d.write_line(), 3);
    d.clear();
    assert_eq!(d.line_count, 0);
    assert_eq!(d.write_line(), 1);
}

#[test]
fn uart_init_programs_the_fixed_line_configuration() {
    let mut u = Uart::new();
    assert_eq!(u.cr, 0);
    u.init();
    assert_eq!(u.ibrd, 26); // 48 MHz / (16 * 115200)
    assert_eq!(u.fbrd, 0);
    assert_eq!(u.lcr_h, (0b11 << 5) | (1 << 4)); // 8 bits, FIFO enabled
    assert_eq!(u.cr, 1 | (1 << 8) | (1 << 9)); // device, TX and RX enabled
}

#[test]
fn module_level_uart_init_matches() {
    let mut u = Uart::new();
    uart::init(&mut u);
    assert_eq!(u.ibrd, 26);
    assert_eq!(u.cr, 1 | (1 << 8) | (1 << 9));
}
