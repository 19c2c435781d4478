//! Status-display bookkeeping.
//!
//! The display is simulated: each emitted line is numbered and written to
//! the diagnostic output.  The model keeps the line counter — what the
//! numbering and the clear operation actually decide — and hands the line
//! number back to the shell, which formats and prints the text.

use vstd::prelude::*;

verus! {

/// The simulated status display: a running count of emitted lines.
pub struct Display {
    /// Lines written since the last clear.
    pub line_count: usize,
}

impl Display {
    /// A display that has written nothing.
    pub fn new() -> (d: Display)
        ensures
            d.line_count == 0,
    {
        Display { line_count: 0 }
    }

    /// Account one emitted line and return its number, counted from one.
    pub fn write_line(&mut self) -> (n: usize)
        requires
            old(self).line_count < usize::MAX,
        ensures
            final(self).line_count == old(self).line_count + 1,
            n == final(self).line_count,
    {
        self.line_count = self.line_count + 1;
        self.line_count
    }

    /// Clear the screen: the numbering starts over.
    pub fn clear(&mut self)
        ensures
            final(self).line_count == 0,
    {
        self.line_count = 0;
    }
}

} // verus!
