use vstd::prelude::*;
use crate::machine::memory::RAM;
use crate::machine::memory::block_written;

verus! {

pub const WINDOW_PIXELS_WIDTH: u8 = 64;

pub const WINDOW_PIXELS_HEIGHT: u8 = 32;

const NUM_PIXELS: usize = 64 * 32;

/// A pixel grid of `WINDOW_PIXELS_WIDTH` by `WINDOW_PIXELS_HEIGHT`, row after row.
#[derive(Clone, Debug)]
pub struct Display {
    pixels: [bool; NUM_PIXELS],
}

impl View for Display {
    type V = Seq<bool>;

    /// The pixels in row-major order, always 2048 of them.
    closed spec fn view(&self) -> Seq<bool> {
        self.pixels@
    }
}

impl Display {
    /// Every `Display` holds exactly 2048 pixels.
    pub proof fn lemma_len(&self)
        ensures
            self@.len() == 2048,
    {
    }

    pub fn new() -> (display: Self)
        ensures
            display@ == Seq::new(2048, |p: int| false),
    {
        Self::default()
    }

    pub fn clear(&mut self)
        ensures
            final(self)@ == Seq::new(2048, |p: int| false),
    {
        self.pixels = [false;NUM_PIXELS];
    }

    pub fn read_pixel(&self, idx: u16) -> (lit: bool)
        requires
            idx < 2048,
        ensures
            lit == self@[idx as int],
    {
        self.pixels[idx as usize]
    }

    /// Combines `value` into the pixel at `idx` by exclusive or: a set `value`
    /// flips the pixel, an unset one leaves it. No pixel is ever overwritten.
    pub fn write_pixel(&mut self, idx: u16, value: bool)
        requires
            idx < 2048,
        ensures
            final(self)@ == old(self)@.update(idx as int, old(self)@[idx as int] ^ value),
    {
        self.pixels[idx as usize] = self.pixels[idx as usize] ^ value;
    }
}

impl Default for Display {
    fn default() -> (display: Self)
        ensures
            display@ == Seq::new(2048, |p: int| false),
    {
        Self { pixels: [false;NUM_PIXELS] }
    }
}

pub const FONT_GLYPH_WIDTH: u8 = 4;

pub const FONT_GLYPH_HEIGHT: u8 = 5;

/// Address at which the glyph table is installed.
pub const FONT_START_ADDR: u16 = 0x050;

/// Glyphs of the hexadecimal digits `0` to `F`, five rows each.
pub const DEFAULT_FONT_DATA: [u8; 80] = [
    0xF0, 0x90, 0x90, 0x90, 0xF0, 0x20, 0x60, 0x20, 0x20, 0x70, 0xF0, 0x10, 0xF0, 0x80, 0xF0, 0xF0,
    0x10, 0xF0, 0x10, 0xF0, 0x90, 0x90, 0xF0, 0x10, 0x10, 0xF0, 0x80, 0xF0, 0x10, 0xF0, 0xF0, 0x80,
    0xF0, 0x90, 0xF0, 0xF0, 0x10, 0x20, 0x40, 0x40, 0xF0, 0x90, 0xF0, 0x90, 0xF0, 0xF0, 0x90, 0xF0,
    0x10, 0xF0, 0xF0, 0x90, 0xF0, 0x90, 0x90, 0xE0, 0x90, 0xE0, 0x90, 0xE0, 0xF0, 0x80, 0x80, 0x80,
    0xF0, 0xE0, 0x90, 0x90, 0x90, 0xE0, 0xF0, 0x80, 0xF0, 0x80, 0xF0, 0xF0, 0x80, 0xF0, 0x80, 0x80,
];

/// A named table of sixteen glyphs.
#[derive(Clone, Debug)]
pub struct Font {
    pub name: String,
    data: [u8; 80],
}

impl Font {
    /// The 80 glyph bytes, digit after digit.
    pub closed spec fn glyphs(&self) -> Seq<u8> {
        self.data@
    }

    /// The characters of the font's name.
    pub closed spec fn label(&self) -> Seq<char> {
        self.name@
    }

    pub fn new(name: String, data: [u8; 80]) -> (font: Self)
        ensures
            font.label() == name@,
            font.glyphs() == data@,
    {
        Self { name, data }
    }

    pub fn load(&self, memory: &mut RAM)
        ensures
            final(memory)@ == block_written(old(memory)@, FONT_START_ADDR as int, self.glyphs()),
    {
        memory.write_block(FONT_START_ADDR, &self.data);
    }
}

impl Default for Font {
    fn default() -> (font: Self)
        ensures
            font.label() == "Default"@,
            font.glyphs() == DEFAULT_FONT_DATA@,
    {
        Self::new("Default".to_owned(), DEFAULT_FONT_DATA)
    }
}

} // verus!
