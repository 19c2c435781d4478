//! Interrupt-controller driver.
//!
//! The controller owns three banks of interrupt lines, identified by a single
//! numeric id: peripheral bank 1 holds lines 0–31, peripheral bank 2 holds
//! lines 32–63, and the per-core local bank holds lines 64–71.  Enable and
//! pending state live in one 32-bit register word per bank; the driver is
//! stateless beyond the registered-handler table.  The register words are
//! modelled here as plain fields of [`Gic`], so enabling, polling and
//! prioritising are verified bit for bit; the shell that copies these words
//! to and from the memory-mapped block is outside the library.

use vstd::prelude::*;

verus! {

use crate::timer::{spec_tick, timer_interrupt_handler, TimerState};

/// Peripheral line wired to the serial device.
pub const IRQ_UART: u32 = 57;

/// Per-core local timer line (bit 0 of the local bank).
pub const IRQ_TIMER: u32 = 64;

/// Per-core mailbox line (bit 1 of the local bank).
pub const IRQ_MAILBOX: u32 = 65;

/// Total number of interrupt-line ids; ids at or above this are invalid.
pub const IRQ_LINES: u32 = 72;

/// Classification of a pending interrupt source into the closed set of
/// sources this kernel knows how to serve.
#[derive(Clone, Copy, Debug, PartialEq, Eq, Structural)]
pub enum InterruptType {
    Timer,
    Uart,
    Mailbox,
    Unknown(u32),
}

/// The interrupt-controller register block.
///
/// Each `enable_*` / `pending_*` field is the value of one hardware register
/// word; bit `b` of a word is line `b` of that bank.  `pending_basic` is the
/// controller's summary register, scanned between the local bank and bank 1.
/// The two `*_handler_registered` flags are the registered-handler table:
/// exactly one handler slot per source class, set during single-threaded
/// initialization.
pub struct Gic {
    /// Enable bits for peripheral lines 0–31.
    pub enable_1: u32,
    /// Enable bits for peripheral lines 32–63.
    pub enable_2: u32,
    /// Enable bits for local lines 64–71 (low 8 bits).
    pub enable_local: u32,
    /// Basic/summary pending word (low 8 bits scanned).
    pub pending_basic: u32,
    /// Pending bits for peripheral lines 0–31.
    pub pending_1: u32,
    /// Pending bits for peripheral lines 32–63.
    pub pending_2: u32,
    /// Pending bits for local lines 64–71 (low 8 bits scanned).
    pub pending_local: u32,
    /// Local timer control word (enable, interrupt-enable, reload bits).
    pub timer_control: u32,
    /// Local timer reload value, in microseconds.
    pub timer_reload: u32,
    /// Whether a timer handler is registered.
    pub timer_handler_registered: bool,
    /// Whether a serial handler is registered.
    pub uart_handler_registered: bool,
}

/// Bit `bit` of `word` is set.
pub open spec fn bit_set(word: u32, bit: u32) -> bool {
    word & (1u32 << bit) != 0u32
}

/// Index of the lowest set bit of `word` in the range `[i, n)`, scanning up.
pub open spec fn first_set_bit_from(word: u32, i: u32, n: u32) -> Option<u32>
    decreases n - i,
{
    if i >= n {
        None
    } else if bit_set(word, i) {
        Some(i)
    } else {
        first_set_bit_from(word, (i + 1) as u32, n)
    }
}

/// The timer-enable, interrupt-enable and auto-reload bits of the local
/// timer control word, set together in a single register write.
pub open spec fn spec_timer_control_bits() -> u32 {
    (1u32 << 28) | (1u32 << 29) | (1u32 << 30)
}

impl Gic {
    /// All registers clear, no handlers registered.
    pub open spec fn spec_new() -> Gic {
        Gic {
            enable_1: 0,
            enable_2: 0,
            enable_local: 0,
            pending_basic: 0,
            pending_1: 0,
            pending_2: 0,
            pending_local: 0,
            timer_control: 0,
            timer_reload: 0,
            timer_handler_registered: false,
            uart_handler_registered: false,
        }
    }

    /// Initialization: every line in every bank disabled and all pending
    /// state drained, so subsequent enables start from a clean slate.
    pub open spec fn spec_init(self) -> Gic {
        Gic {
            enable_1: 0,
            enable_2: 0,
            enable_local: 0,
            pending_basic: 0,
            pending_1: 0,
            pending_2: 0,
            pending_local: 0,
            ..self
        }
    }

    /// Enabling line `irq` sets exactly one bit in the bank that owns the
    /// id's range; an id at or above `IRQ_LINES` changes nothing.
    pub open spec fn spec_enable_irq(self, irq: u32) -> Gic {
        if irq <= 31 {
            Gic { enable_1: self.enable_1 | (1u32 << irq), ..self }
        } else if irq <= 63 {
            Gic { enable_2: self.enable_2 | (1u32 << (irq - 32) as u32), ..self }
        } else if irq <= 71 {
            Gic { enable_local: self.enable_local | (1u32 << (irq - 64) as u32), ..self }
        } else {
            self
        }
    }

    /// Disabling line `irq` clears exactly one bit in the owning bank; an id
    /// at or above `IRQ_LINES` changes nothing.
    pub open spec fn spec_disable_irq(self, irq: u32) -> Gic {
        if irq <= 31 {
            Gic { enable_1: self.enable_1 & !(1u32 << irq), ..self }
        } else if irq <= 63 {
            Gic { enable_2: self.enable_2 & !(1u32 << (irq - 32) as u32), ..self }
        } else if irq <= 71 {
            Gic { enable_local: self.enable_local & !(1u32 << (irq - 64) as u32), ..self }
        } else {
            self
        }
    }

    /// The hardware asserting source `irq`: the pending bit of the owning
    /// bank goes up.  An id at or above `IRQ_LINES` has no source.
    pub open spec fn spec_raise_irq(self, irq: u32) -> Gic {
        if irq <= 31 {
            Gic { pending_1: self.pending_1 | (1u32 << irq), ..self }
        } else if irq <= 63 {
            Gic { pending_2: self.pending_2 | (1u32 << (irq - 32) as u32), ..self }
        } else if irq <= 71 {
            Gic { pending_local: self.pending_local | (1u32 << (irq - 64) as u32), ..self }
        } else {
            self
        }
    }

    /// The pending line the poll reports: the lowest-numbered set bit within
    /// the first non-empty bank, banks scanned in the fixed priority order
    /// local (bits 0–7, ids 64–71), then basic (bits 0–7, ids 0–7), then
    /// bank 1 (ids 0–31), then bank 2 (ids 32–63).
    pub open spec fn spec_poll(self) -> Option<u32> {
        match (if self.pending_local != 0 {
            first_set_bit_from(self.pending_local, 0, 8)
        } else {
            None
        }) {
            Some(i) => Some((64 + i) as u32),
            None => match (if self.pending_basic != 0 {
                first_set_bit_from(self.pending_basic, 0, 8)
            } else {
                None
            }) {
                Some(i) => Some(i),
                None => match first_set_bit_from(self.pending_1, 0, 32) {
                    Some(i) => Some(i),
                    None => match first_set_bit_from(self.pending_2, 0, 32) {
                        Some(i) => Some((32 + i) as u32),
                        None => None,
                    },
                },
            },
        }
    }

    /// Acknowledging the local timer clears its pending bit (the timer line
    /// does not self-clear).
    pub open spec fn spec_clear_timer_interrupt(self) -> Gic {
        Gic { pending_local: self.pending_local & !1u32, ..self }
    }

    /// Programming the periodic timer: reload value set, then the enable,
    /// interrupt and reload bits raised in one control-word write, then the
    /// timer line enabled.
    pub open spec fn spec_setup_timer(self, interval_us: u32) -> Gic {
        (Gic {
            timer_control: spec_timer_control_bits(),
            timer_reload: interval_us,
            ..self
        }).spec_enable_irq(IRQ_TIMER)
    }

    /// One poll-and-serve pass: the classification of the winning pending
    /// line, and the controller state after it (the timer's pending bit is
    /// acknowledged when the timer won; nothing else changes).
    pub open spec fn spec_handle_irq(self) -> (Gic, Option<InterruptType>) {
        match self.spec_poll() {
            None => (self, None),
            Some(irq) => {
                let t = spec_classify_irq(irq);
                if t is Timer {
                    (self.spec_clear_timer_interrupt(), Some(t))
                } else {
                    (self, Some(t))
                }
            },
        }
    }

    /// A controller with every register clear and no handlers registered.
    pub fn new() -> (g: Gic)
        ensures
            g == Gic::spec_new(),
    {
        Gic {
            enable_1: 0,
            enable_2: 0,
            enable_local: 0,
            pending_basic: 0,
            pending_1: 0,
            pending_2: 0,
            pending_local: 0,
            timer_control: 0,
            timer_reload: 0,
            timer_handler_registered: false,
            uart_handler_registered: false,
        }
    }

    /// Disable every line in all three banks and drain already-pending
    /// state.
    pub fn init(&mut self)
        ensures
            *final(self) == old(self).spec_init(),
    {
        self.enable_1 = 0;
        self.enable_2 = 0;
        self.enable_local = 0;
        self.pending_basic = 0;
        self.pending_1 = 0;
        self.pending_2 = 0;
        self.pending_local = 0;
    }

    /// Enable one interrupt line.  An invalid id (72 or above) is ignored
    /// and alters no register.
    pub fn enable_irq(&mut self, irq: u32)
        ensures
            *final(self) == old(self).spec_enable_irq(irq),
    {
        if irq <= 31 {
            self.enable_1 = self.enable_1 | (1u32 << irq);
        } else if irq <= 63 {
            self.enable_2 = self.enable_2 | (1u32 << (irq - 32));
        } else if irq <= 71 {
            self.enable_local = self.enable_local | (1u32 << (irq - 64));
        }
    }

    /// Disable one interrupt line.  An invalid id (72 or above) is ignored
    /// and alters no register.
    pub fn disable_irq(&mut self, irq: u32)
        ensures
            *final(self) == old(self).spec_disable_irq(irq),
    {
        if irq <= 31 {
            self.enable_1 = self.enable_1 & !(1u32 << irq);
        } else if irq <= 63 {
            self.enable_2 = self.enable_2 & !(1u32 << (irq - 32));
        } else if irq <= 71 {
            self.enable_local = self.enable_local & !(1u32 << (irq - 64));
        }
    }

    /// The hardware asserting source `irq`; the model's input transition for
    /// an interrupt becoming pending.  An id at or above 72 has no source
    /// and changes nothing.
    pub fn raise_irq(&mut self, irq: u32)
        ensures
            *final(self) == old(self).spec_raise_irq(irq),
    {
        if irq <= 31 {
            self.pending_1 = self.pending_1 | (1u32 << irq);
        } else if irq <= 63 {
            self.pending_2 = self.pending_2 | (1u32 << (irq - 32));
        } else if irq <= 71 {
            self.pending_local = self.pending_local | (1u32 << (irq - 64));
        }
    }

    /// Scan the pending banks in priority order — local, basic, bank 1,
    /// bank 2 — and report the lowest-numbered set bit of the first
    /// non-empty bank, or nothing when no source is pending.
    #[verifier::loop_isolation(false)]
    pub fn get_pending_irq(&self) -> (r: Option<u32>)
        ensures
            r == self.spec_poll(),
    {
        if self.pending_local != 0 {
            let mut i: u32 = 0;
            while i < 8
                invariant
                    i <= 8,
                    forall|j: u32| j < i ==> !bit_set(self.pending_local, j),
                decreases 8 - i,
            {
                if self.pending_local & (1u32 << i) != 0 {
                    proof {
                        lemma_first_set_bit_found(self.pending_local, 0, i, 8);
                    }
                    return Some(64 + i);
                }
                i = i + 1;
            }
        }
        proof {
            if self.pending_local == 0 {
                lemma_zero_word_clear();
            }
            lemma_first_set_bit_none(self.pending_local, 0, 8);
        }

        if self.pending_basic != 0 {
            let mut i: u32 = 0;
            while i < 8
                invariant
                    i <= 8,
                    forall|j: u32| j < i ==> !bit_set(self.pending_basic, j),
                decreases 8 - i,
            {
                if self.pending_basic & (1u32 << i) != 0 {
                    proof {
                        lemma_first_set_bit_found(self.pending_basic, 0, i, 8);
                    }
                    return Some(i);
                }
                i = i + 1;
            }
        }
        proof {
            if self.pending_basic == 0 {
                lemma_zero_word_clear();
            }
            lemma_first_set_bit_none(self.pending_basic, 0, 8);
        }

        let mut i: u32 = 0;
        while i < 32
            invariant
                i <= 32,
                forall|j: u32| j < i ==> !bit_set(self.pending_1, j),
            decreases 32 - i,
        {
            if self.pending_1 & (1u32 << i) != 0 {
                proof {
                    lemma_first_set_bit_found(self.pending_1, 0, i, 32);
                }
                return Some(i);
            }
            i = i + 1;
        }
        proof {
            lemma_first_set_bit_none(self.pending_1, 0, 32);
        }

        let mut i: u32 = 0;
        while i < 32
            invariant
                i <= 32,
                forall|j: u32| j < i ==> !bit_set(self.pending_2, j),
            decreases 32 - i,
        {
            if self.pending_2 & (1u32 << i) != 0 {
                proof {
                    lemma_first_set_bit_found(self.pending_2, 0, i, 32);
                }
                return Some(32 + i);
            }
            i = i + 1;
        }
        proof {
            lemma_first_set_bit_none(self.pending_2, 0, 32);
        }
        None
    }

    /// Serve one interrupt: poll once, classify the winning line, and for
    /// the timer acknowledge its pending bit.  Reports the classification,
    /// or nothing for a spurious interrupt (no line pending).
    pub fn handle_irq(&mut self) -> (r: Option<InterruptType>)
        ensures
            (*final(self), r) == old(self).spec_handle_irq(),
    {
        match self.get_pending_irq() {
            None => None,
            Some(irq) => {
                let t = classify_irq(irq);
                if matches!(t, InterruptType::Timer) {
                    self.clear_timer_interrupt();
                }
                Some(t)
            },
        }
    }

    /// Program the per-core periodic timer: write the reload value, raise
    /// the timer-enable, interrupt-enable and auto-reload bits in a single
    /// control-word write, and enable the timer's interrupt line.
    pub fn setup_timer(&mut self, interval_us: u32)
        ensures
            *final(self) == old(self).spec_setup_timer(interval_us),
    {
        self.timer_control = 0;
        self.timer_reload = interval_us;
        self.timer_control = (1u32 << 28) | (1u32 << 29) | (1u32 << 30);
        self.enable_irq(IRQ_TIMER);
    }

    /// Acknowledge the local timer interrupt by clearing its pending bit.
    pub fn clear_timer_interrupt(&mut self)
        ensures
            *final(self) == old(self).spec_clear_timer_interrupt(),
    {
        self.pending_local = self.pending_local & !1u32;
    }
}

/// Fixed id mapping from a pending line to the source class it belongs to.
pub open spec fn spec_classify_irq(irq: u32) -> InterruptType {
    if irq == IRQ_TIMER {
        InterruptType::Timer
    } else if irq == IRQ_UART {
        InterruptType::Uart
    } else if irq == IRQ_MAILBOX {
        InterruptType::Mailbox
    } else {
        InterruptType::Unknown(irq)
    }
}

/// Classify a line id into its source class.
pub fn classify_irq(irq: u32) -> (t: InterruptType)
    ensures
        t == spec_classify_irq(irq),
{
    if irq == IRQ_TIMER {
        InterruptType::Timer
    } else if irq == IRQ_UART {
        InterruptType::Uart
    } else if irq == IRQ_MAILBOX {
        InterruptType::Mailbox
    } else {
        InterruptType::Unknown(irq)
    }
}

/// Serve one interrupt end to end: poll and classify through
/// [`Gic::handle_irq`], then invoke the registered handler for the class —
/// for the timer, the tick-count update — if one is registered (a no-op
/// otherwise).  Reports the classification, or nothing when the interrupt
/// was spurious.
pub fn handle_irq(gic: &mut Gic, ticks: &mut TimerState) -> (r: Option<InterruptType>)
    ensures
        (*final(gic), r) == old(gic).spec_handle_irq(),
        final(ticks).tick_count == (if r matches Some(InterruptType::Timer)
            && old(gic).timer_handler_registered {
            spec_tick(old(ticks).tick_count)
        } else {
            old(ticks).tick_count
        }),
{
    let r = gic.handle_irq();
    match r {
        Some(InterruptType::Timer) => {
            if gic.timer_handler_registered {
                let _ = timer_interrupt_handler(ticks);
            }
        },
        _ => {},
    }
    r
}

/// Store the (single) timer handler slot, overwriting any previous
/// registration.
pub fn register_timer_handler(gic: &mut Gic)
    ensures
        *final(gic) == (Gic { timer_handler_registered: true, ..*old(gic) }),
{
    gic.timer_handler_registered = true;
}

/// Store the (single) serial handler slot, overwriting any previous
/// registration.
pub fn register_uart_handler(gic: &mut Gic)
    ensures
        *final(gic) == (Gic { uart_handler_registered: true, ..*old(gic) }),
{
    gic.uart_handler_registered = true;
}

/// A scan from `k` that meets a clear stretch up to the set bit `i` finds
/// exactly `i`.
proof fn lemma_first_set_bit_found(w: u32, k: u32, i: u32, n: u32)
    requires
        k <= i < n,
        forall|j: u32| k <= j < i ==> !bit_set(w, j),
        bit_set(w, i),
    ensures
        first_set_bit_from(w, k, n) == Some(i),
    decreases i - k,
{
    if k < i {
        lemma_first_set_bit_found(w, (k + 1) as u32, i, n);
    }
}

/// A scan over a range with no set bit finds nothing.
proof fn lemma_first_set_bit_none(w: u32, k: u32, n: u32)
    requires
        forall|j: u32| k <= j < n ==> !bit_set(w, j),
    ensures
        first_set_bit_from(w, k, n) is None,
    decreases n - k,
{
    if k < n {
        lemma_first_set_bit_none(w, (k + 1) as u32, n);
    }
}

/// Every bit of the zero word is clear.
proof fn lemma_zero_word_clear()
    by (bit_vector)
    ensures
        forall|j: u32| j < 32 ==> !bit_set(0u32, j),
{
}

/// Facts about a one-hot word: it is non-zero, its own bit is set, and every
/// other bit is clear.
proof fn lemma_one_hot(k: u32)
    by (bit_vector)
    requires
        k < 32,
    ensures
        (1u32 << k) != 0u32,
        bit_set(1u32 << k, k),
        forall|j: u32| j < 32 && j != k ==> !bit_set(1u32 << k, j),
{
}

/// Enabling a valid line and then polling with exactly that physical source
/// asserted reports that same line id, for every id 0–71; the scan of a
/// one-hot bank always wins at the asserted bit.
pub proof fn lemma_enable_then_poll_reports(g: Gic, irq: u32)
    requires
        irq < IRQ_LINES,
        g.pending_local == 0,
        g.pending_basic == 0,
        g.pending_1 == 0,
        g.pending_2 == 0,
    ensures
        g.spec_enable_irq(irq).spec_raise_irq(irq).spec_poll() == Some(irq),
{
    let g2 = g.spec_enable_irq(irq).spec_raise_irq(irq);
    if irq <= 31 {
        lemma_one_hot(irq);
        assert(0u32 | (1u32 << irq) == 1u32 << irq) by (bit_vector);
        assert(g2.pending_1 == 1u32 << irq);
        lemma_first_set_bit_found(g2.pending_1, 0, irq, 32);
    } else if irq <= 63 {
        let k = (irq - 32) as u32;
        lemma_one_hot(k);
        assert(0u32 | (1u32 << k) == 1u32 << k) by (bit_vector);
        assert(g2.pending_2 == 1u32 << k);
        lemma_zero_word_clear();
        lemma_first_set_bit_none(g2.pending_1, 0, 32);
        lemma_first_set_bit_found(g2.pending_2, 0, k, 32);
    } else {
        let k = (irq - 64) as u32;
        lemma_one_hot(k);
        assert(0u32 | (1u32 << k) == 1u32 << k) by (bit_vector);
        assert(g2.pending_local == 1u32 << k);
        assert(k < 8);
        lemma_first_set_bit_found(g2.pending_local, 0, k, 8);
    }
}

/// An id at or above 72 is rejected: neither enabling it nor asserting it
/// alters any register, and a subsequent poll still reports nothing on a
/// quiet controller.
pub proof fn lemma_invalid_line_rejected(g: Gic, irq: u32)
    requires
        irq >= IRQ_LINES,
    ensures
        g.spec_enable_irq(irq) == g,
        g.spec_disable_irq(irq) == g,
        g.spec_raise_irq(irq) == g,
{
}

} // verus!
