//! The scrolling trail of recent frame colors, one slot per physical LED.

use vstd::prelude::*;

use crate::color::Color;

verus! {

/// A fixed-length ordered sequence of prior frame colors.  Slot 0 holds the
/// most recently inserted color (the strip's first LED); the last slot holds
/// the oldest color still on the strip.  Each insertion shifts every entry
/// one slot toward the tail, evicting the oldest, so a run of frames leaves
/// a comet trail across the strip.
pub struct HistoryBuffer {
    colors: Vec<Color>,
}

impl View for HistoryBuffer {
    type V = Seq<Color>;

    closed spec fn view(&self) -> Seq<Color> {
        self.colors@
    }
}

impl HistoryBuffer {
    /// A buffer with one all-off slot per LED.
    pub fn new(num_leds: usize) -> (buf: HistoryBuffer)
        ensures
            buf@.len() == num_leds,
            forall|i: int| 0 <= i < num_leds ==> buf@[i] == Color::black(),
    {
        let mut colors: Vec<Color> = Vec::new();
        let mut i: usize = 0;
        while i < num_leds
            invariant
                i <= num_leds,
                colors@.len() == i,
                forall|k: int| 0 <= k < i ==> colors@[k] == Color::black(),
            decreases num_leds - i,
        {
            colors.push(Color { r: 0, g: 0, b: 0 });
            i = i + 1;
        }
        HistoryBuffer { colors }
    }

    /// How many LEDs the buffer covers; fixed for its whole lifetime.
    pub fn len(&self) -> (n: usize)
        ensures
            n == self@.len(),
    {
        self.colors.len()
    }

    /// Read-only access to the full ordered sequence, head first, for
    /// whoever transmits it to the strip.
    pub fn colors(&self) -> (v: &Vec<Color>)
        ensures
            v@ == self@,
    {
        &self.colors
    }

    /// Shifts every entry one slot toward the tail, dropping the one that
    /// falls off the end, and writes `c` into slot 0.  Length and the order
    /// of the surviving entries are untouched.
    pub fn push_front(&mut self, c: Color)
        ensures
            final(self)@.len() == old(self)@.len(),
            old(self)@.len() > 0 ==> final(self)@[0] == c,
            forall|i: int| 1 <= i < old(self)@.len() ==> final(self)@[i] == old(self)@[i - 1],
    {
        let n = self.colors.len();
        if n > 0 {
            let ghost orig = self.colors@;
            let mut i: usize = n - 1;
            while i >= 1
                invariant
                    self.colors@.len() == n,
                    n == orig.len(),
                    i <= n - 1,
                    forall|k: int| 0 <= k <= i ==> self.colors@[k] == orig[k],
                    forall|k: int| i < k < n ==> self.colors@[k] == orig[k - 1],
                decreases i,
            {
                let moved = self.colors[i - 1];
                self.colors[i] = moved;
                i = i - 1;
            }
            self.colors[0] = c;
        }
    }
}

} // verus!
