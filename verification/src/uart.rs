//! Serial-device configuration.
//!
//! The device is programmed through four registers: the integer and
//! fractional baud-rate divisors, the line-control word and the control
//! word.  The values written are fixed by the board (a 48 MHz reference
//! clock driving a 115200-baud, 8-bit, FIFO-enabled line), and the model
//! holds them as plain fields so the initialization sequence is verified;
//! the blocking byte output itself is pure device interaction and stays in
//! the shell, guarded by its transmit-space wait and the shared print lock.

use vstd::prelude::*;

verus! {

/// Reference clock feeding the baud-rate divider, in hertz.
pub const UART_CLOCK_HZ: u32 = 48_000_000;

/// Configured line speed, in bauds.
pub const UART_BAUD: u32 = 115_200;

/// The serial device's configuration registers.
pub struct Uart {
    /// Integer baud-rate divisor.
    pub ibrd: u32,
    /// Fractional baud-rate divisor.
    pub fbrd: u32,
    /// Line control: word length and FIFO enable.
    pub lcr_h: u32,
    /// Control: device, transmit and receive enables.
    pub cr: u32,
}

impl Uart {
    /// A device with every configuration register clear, as after reset.
    pub fn new() -> (u: Uart)
        ensures
            u.ibrd == 0,
            u.fbrd == 0,
            u.lcr_h == 0,
            u.cr == 0,
    {
        Uart { ibrd: 0, fbrd: 0, lcr_h: 0, cr: 0 }
    }

    /// Program the device: disable it, set the divisor for 115200 baud
    /// from the 48 MHz reference (integer part 26, no fractional part),
    /// select 8-bit words with FIFOs enabled, then enable the device with
    /// transmit and receive.
    pub fn init(&mut self)
        ensures
            final(self).ibrd as int == UART_CLOCK_HZ as int / (16 * UART_BAUD as int),
            final(self).ibrd == 26,
            final(self).fbrd == 0,
            final(self).lcr_h == (0b11u32 << 5) | (1u32 << 4),
            final(self).cr == (1u32 << 0) | (1u32 << 8) | (1u32 << 9),
    {
        self.cr = 0;
        let baud_rate_div = UART_CLOCK_HZ / (16 * UART_BAUD);
        self.ibrd = baud_rate_div;
        self.fbrd = 0;
        self.lcr_h = (0b11u32 << 5) | (1u32 << 4);
        self.cr = (1u32 << 0) | (1u32 << 8) | (1u32 << 9);
        proof {
            assert((0b11u32 << 5) | (1u32 << 4) == 0x70u32) by (bit_vector);
            assert((1u32 << 0) | (1u32 << 8) | (1u32 << 9) == 0x301u32) by (bit_vector);
        }
    }
}

/// Bring the shared serial device up.
pub fn init(uart: &mut Uart)
    ensures
        final(uart).ibrd == 26,
        final(uart).fbrd == 0,
        final(uart).lcr_h == (0b11u32 << 5) | (1u32 << 4),
        final(uart).cr == (1u32 << 0) | (1u32 << 8) | (1u32 << 9),
{
    uart.init();
}

} // verus!
