use crate::error::Chip8Error;
use vstd::prelude::*;

verus! {

/// Number of addressable bytes.
pub const MEMORY_SIZE: usize = 0xFFF;

/// Address of the first program byte.
pub const PROGRAM_START: usize = 0x200;

/// Address of the built-in font.
pub const FONT_START: usize = 0x100;

/// Bytes per font glyph.
pub const GLYPH_BYTES: usize = 5;

/// The built-in font: one five-byte glyph for each hexadecimal digit.
pub open spec fn font_glyphs() -> Seq<u8> {
    seq![
        0xF0u8, 0x90, 0x90, 0x90, 0xF0, // 0
        0x20, 0x60, 0x20, 0x20, 0x70, // 1
        0xF0, 0x10, 0xF0, 0x80, 0xF0, // 2
        0xF0, 0x10, 0xF0, 0x10, 0xF0, // 3
        0x90, 0x90, 0xF0, 0x10, 0x10, // 4
        0xF0, 0x80, 0xF0, 0x10, 0xF0, // 5
        0xF0, 0x80, 0xF0, 0x90, 0xF0, // 6
        0xF0, 0x10, 0x20, 0x40, 0x40, // 7
        0xF0, 0x90, 0xF0, 0x90, 0xF0, // 8
        0xF0, 0x90, 0xF0, 0x10, 0xF0, // 9
        0xF0, 0x90, 0xF0, 0x90, 0x90, // A
        0xE0, 0x90, 0xE0, 0x90, 0xE0, // B
        0xF0, 0x80, 0x80, 0x80, 0xF0, // C
        0xE0, 0x90, 0x90, 0x90, 0xE0, // D
        0xF0, 0x80, 0xF0, 0x80, 0xF0, // E
        0xF0, 0x80, 0xF0, 0x80, 0x80, // F
    ]
}

/// What memory holds after `loaded` is copied over `mem` at `start`.
pub open spec fn splice(mem: Seq<u8>, start: int, loaded: Seq<u8>) -> Seq<u8> {
    Seq::new(
        mem.len(),
        |a: int|
            if start <= a < start + loaded.len() {
                loaded[a - start]
            } else {
                mem[a]
            },
    )
}

/// Whether a program of `len` bytes fits in memory after `PROGRAM_START`.
pub open spec fn program_fits(len: int) -> bool {
    PROGRAM_START + len <= MEMORY_SIZE
}

/// A program image, as read by the host.
pub struct Rom {
    pub data: Vec<u8>,
}

impl Rom {
    pub fn new(program: Vec<u8>) -> (r: Rom)
        ensures
            r.data@ == program@,
    {
        Rom { data: program }
    }
}

/// The machine's byte-addressed memory.
pub struct Ram {
    pub memory: [u8; MEMORY_SIZE],
}

impl Ram {
    /// The memory contents, one byte per address.
    pub open spec fn view(&self) -> Seq<u8> {
        self.memory@
    }

    /// Memory with every byte zero.
    pub fn new() -> (r: Ram)
        ensures
            r@.len() == MEMORY_SIZE,
            forall|a: int| 0 <= a < MEMORY_SIZE ==> r@[a] == 0,
    {
        Ram { memory: [0u8; MEMORY_SIZE] }
    }

    /// Reads the byte at `address`.
    pub fn fetch_by_address(&self, address: u16) -> (r: Result<u8, Chip8Error>)
        ensures
            address < MEMORY_SIZE ==> r == Ok::<u8, Chip8Error>(self@[address as int]),
            address >= MEMORY_SIZE ==> r == Err::<u8, Chip8Error>(Chip8Error::OutOfBounds),
    {
        if address as usize >= MEMORY_SIZE {
            return Err(Chip8Error::OutOfBounds);
        }
        Ok(self.memory[address as usize])
    }

    /// Writes `value` at `address`; memory is unchanged on failure.
    pub fn store_by_address(&mut self, address: u16, value: u8) -> (r: Result<(), Chip8Error>)
        ensures
            address < MEMORY_SIZE ==> r is Ok && final(self)@ == old(self)@.update(
                address as int,
                value,
            ),
            address >= MEMORY_SIZE ==> r == Err::<(), Chip8Error>(Chip8Error::OutOfBounds)
                && final(self)@ == old(self)@,
    {
        if address as usize >= MEMORY_SIZE {
            return Err(Chip8Error::OutOfBounds);
        }
        self.memory[address as usize] = value;
        Ok(())
    }

    /// Copies the font into memory, then the program at `PROGRAM_START`.
    /// A program that does not fit leaves memory unchanged.
    pub fn load_rom(&mut self, rom: &Rom) -> (r: Result<(), Chip8Error>)
        ensures
            program_fits(rom.data@.len() as int) ==> r is Ok && final(self)@ == splice(
                splice(old(self)@, FONT_START as int, font_glyphs()),
                PROGRAM_START as int,
                rom.data@,
            ),
            !program_fits(rom.data@.len() as int) ==> r == Err::<(), Chip8Error>(
                Chip8Error::OutOfBounds,
            ) && final(self)@ == old(self)@,
    {
        if rom.data.len() > MEMORY_SIZE - PROGRAM_START {
            return Err(Chip8Error::OutOfBounds);
        }
        self.load_fontset();
        let ghost fonted = self@;
        let n = rom.data.len();
        let mut k: usize = 0;
        while k < n
            invariant
                n == rom.data@.len(),
                PROGRAM_START + n <= MEMORY_SIZE,
                k <= n,
                self@ == splice(fonted, PROGRAM_START as int, rom.data@.subrange(0, k as int)),
                fonted.len() == MEMORY_SIZE,
            decreases n - k,
        {
            self.memory[PROGRAM_START + k] = rom.data[k];
            k = k + 1;
            assert(self@ =~= splice(fonted, PROGRAM_START as int, rom.data@.subrange(0, k as int)));
        }
        assert(rom.data@.subrange(0, n as int) =~= rom.data@);
        Ok(())
    }

    fn load_fontset(&mut self)
        ensures
            final(self)@ == splice(old(self)@, FONT_START as int, font_glyphs()),
    {
        let fontset: [u8; 80] = [
            0xF0, 0x90, 0x90, 0x90, 0xF0, // 0
            0x20, 0x60, 0x20, 0x20, 0x70, // 1
            0xF0, 0x10, 0xF0, 0x80, 0xF0, // 2
            0xF0, 0x10, 0xF0, 0x10, 0xF0, // 3
            0x90, 0x90, 0xF0, 0x10, 0x10, // 4
            0xF0, 0x80, 0xF0, 0x10, 0xF0, // 5
            0xF0, 0x80, 0xF0, 0x90, 0xF0, // 6
            0xF0, 0x10, 0x20, 0x40, 0x40, // 7
            0xF0, 0x90, 0xF0, 0x90, 0xF0, // 8
            0xF0, 0x90, 0xF0, 0x10, 0xF0, // 9
            0xF0, 0x90, 0xF0, 0x90, 0x90, // A
            0xE0, 0x90, 0xE0, 0x90, 0xE0, // B
            0xF0, 0x80, 0x80, 0x80, 0xF0, // C
            0xE0, 0x90, 0x90, 0x90, 0xE0, // D
            0xF0, 0x80, 0xF0, 0x80, 0xF0, // E
            0xF0, 0x80, 0xF0, 0x80, 0x80, // F
        ];
        assert(fontset@ =~= font_glyphs());
        let ghost start = self@;
        let mut k: usize = 0;
        while k < 80
            invariant
                fontset@ == font_glyphs(),
                k <= 80,
                start.len() == MEMORY_SIZE,
                self@ == splice(start, FONT_START as int, font_glyphs().subrange(0, k as int)),
            decreases 80 - k,
        {
            self.memory[FONT_START + k] = fontset[k];
            k = k + 1;
            assert(self@ =~= splice(start, FONT_START as int, font_glyphs().subrange(0, k as int)));
        }
        assert(font_glyphs().subrange(0, 80) =~= font_glyphs());
    }
}

} // verus!
