use vstd::prelude::*;
use crate::machine::memory::block_written;
use crate::machine::memory::RAM;

pub mod cpu;
pub mod gfx;
pub mod instruction;
pub mod laws;
pub mod memory;
pub mod model;
pub mod sprite;
pub mod text;

verus! {

/// Largest program image that fits between the load address and the end of memory.
pub const MAX_PROGRAM_SIZE: usize = 4096 - 0x200;

/// A named program image.
#[derive(Clone, Debug)]
pub struct Program {
    pub name: String,
    data: Vec<u8>,
}

impl Program {
    /// The bytes of the image, in load order.
    pub closed spec fn image(&self) -> Seq<u8> {
        self.data@
    }

    /// The characters of the program's name.
    pub closed spec fn label(&self) -> Seq<char> {
        self.name@
    }

    pub fn new(name: String, data: Vec<u8>) -> (program: Self)
        ensures
            program.label() == name@,
            program.image() == data@,
    {
        Self { name, data }
    }

    /// Number of bytes of the image.
    pub fn len(&self) -> (n: usize)
        ensures
            n == self.image().len(),
    {
        self.data.len()
    }

    /// Installs the image at `PROGRAM_START_ADDR`.
    pub fn load(&self, memory: &mut RAM)
        requires
            self.image().len() <= MAX_PROGRAM_SIZE,
        ensures
            final(memory)@ == block_written(
                old(memory)@,
                crate::PROGRAM_START_ADDR as int,
                self.image(),
            ),
    {
        memory.write_block(crate::PROGRAM_START_ADDR, self.data.as_slice());
    }
}

/// Address at which the glyph table is installed.
pub const FONT_START_ADDR: u16 = 0x050;

/// Number of bytes of one glyph.
pub const GLYPH_SIZE: u16 = 5;

/// Glyphs of the hexadecimal digits `0` to `F`, five rows each.
pub const DEFAULT_FONT_DATA: [u8; 80] = [
    0xF0, 0x90, 0x90, 0x90, 0xF0, 0x20, 0x60, 0x20, 0x20, 0x70, 0xF0, 0x10, 0xF0, 0x80, 0xF0, 0xF0,
    0x10, 0xF0, 0x10, 0xF0, 0x90, 0x90, 0xF0, 0x10, 0x10, 0xF0, 0x80, 0xF0, 0x10, 0xF0, 0xF0, 0x80,
    0xF0, 0x90, 0xF0, 0xF0, 0x10, 0x20, 0x40, 0x40, 0xF0, 0x90, 0xF0, 0x90, 0xF0, 0xF0, 0x90, 0xF0,
    0x10, 0xF0, 0xF0, 0x90, 0xF0, 0x90, 0x90, 0xE0, 0x90, 0xE0, 0x90, 0xE0, 0xF0, 0x80, 0x80, 0x80,
    0xF0, 0xE0, 0x90, 0x90, 0x90, 0xE0, 0xF0, 0x80, 0xF0, 0x80, 0xF0, 0xF0, 0x80, 0xF0, 0x80, 0x80,
];

/// Address of the glyph of character `glyph` in an installed glyph table.
pub open spec fn glyph_addr(glyph: u8) -> u16 {
    (FONT_START_ADDR + GLYPH_SIZE * glyph) as u16
}

/// A named table of sixteen glyphs.
#[derive(Clone, Debug)]
pub struct Font {
    pub name: String,
    data: [u8; 80],
}

impl Font {
    /// The 80 glyph bytes, digit after digit.
    pub closed spec fn glyphs(&self) -> Seq<u8> {
        self.data@
    }

    /// The characters of the font's name.
    pub closed spec fn label(&self) -> Seq<char> {
        self.name@
    }

    /// Every font holds exactly 80 glyph bytes.
    pub proof fn lemma_len(&self)
        ensures
            self.glyphs().len() == 80,
    {
    }

    pub fn new(name: String, data: [u8; 80]) -> (font: Self)
        ensures
            font.label() == name@,
            font.glyphs() == data@,
    {
        Self { name, data }
    }

    /// Installs the glyph table at `FONT_START_ADDR`.
    pub fn load(&self, memory: &mut RAM)
        ensures
            final(memory)@ == block_written(old(memory)@, FONT_START_ADDR as int, self.glyphs()),
    {
        memory.write_block(FONT_START_ADDR, &self.data);
    }

    pub fn char_addr(&self, glyph: u8) -> (addr: u16)
        ensures
            addr == glyph_addr(glyph),
            addr == FONT_START_ADDR + 5 * glyph,
    {
        FONT_START_ADDR + (GLYPH_SIZE * glyph as u16)
    }
}

impl Default for Font {
    fn default() -> (font: Self)
        ensures
            font.label() == "Default"@,
            font.glyphs() == DEFAULT_FONT_DATA@,
    {
        Self::new("Default".to_owned(), DEFAULT_FONT_DATA)
    }
}

} // verus!
