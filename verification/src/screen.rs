use vstd::prelude::*;

verus! {

/// Number of pixels of the display buffer.
pub const NUM_PIXELS: usize = 64 * 32;

/// The monochrome display buffer, one flag per pixel, row after row.
#[derive(Clone, Debug)]
pub struct DisplayState {
    pixels: [bool; NUM_PIXELS],
}

impl View for DisplayState {
    type V = Seq<bool>;

    /// The pixels in row-major order: the pixel of row `r` and column `c` stands
    /// at `r * 64 + c`. Always `NUM_PIXELS` long.
    closed spec fn view(&self) -> Seq<bool> {
        self.pixels@
    }
}

/// A buffer with every pixel unset.
pub open spec fn blank() -> Seq<bool> {
    Seq::new(NUM_PIXELS as nat, |p: int| false)
}

impl DisplayState {
    /// Every `DisplayState` holds exactly `NUM_PIXELS` pixels.
    pub proof fn lemma_len(&self)
        ensures
            self@.len() == NUM_PIXELS,
    {
    }

    pub fn new() -> (display: Self)
        ensures
            display@ == blank(),
    {
        Self::default()
    }

    pub fn clear(&mut self)
        ensures
            final(self)@ == blank(),
    {
        self.pixels = [false;NUM_PIXELS];
    }

    pub fn read_pixel(&self, idx: u16) -> (lit: bool)
        requires
            idx < NUM_PIXELS,
        ensures
            lit == self@[idx as int],
    {
        self.pixels[idx as usize]
    }

    /// Combines `value` into the pixel at `idx` by exclusive or: a set `value`
    /// flips the pixel, an unset one leaves it. No pixel is ever overwritten.
    pub fn write_pixel(&mut self, idx: u16, value: bool)
        requires
            idx < NUM_PIXELS,
        ensures
            final(self)@ == old(self)@.update(idx as int, old(self)@[idx as int] ^ value),
    {
        self.pixels[idx as usize] = self.pixels[idx as usize] ^ value;
    }
}

impl Default for DisplayState {
    fn default() -> (display: Self)
        ensures
            display@ == blank(),
    {
        Self { pixels: [false;NUM_PIXELS] }
    }
}

} // verus!
