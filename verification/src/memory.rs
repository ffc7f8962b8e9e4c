//! The 4096-byte address space: font sprites at the bottom, the program from
//! `0x200` upward.

use vstd::prelude::*;
use crate::error::Chip8Error;

verus! {

/// Bytes in the address space.
pub const MEMORY_SIZE: usize = 4096;

/// Address at which a program image starts.
pub const PROGRAM_START: usize = 0x200;

/// The longest program image that fits above `PROGRAM_START`.
pub const MAX_PROGRAM_LEN: usize = 0xE00;

/// Bytes in one font sprite.
pub const FONT_SPRITE_LEN: usize = 5;

/// Bytes in the whole font table: sixteen sprites.
pub const FONT_LEN: usize = 80;

/// The sprites of the hexadecimal digits `0` to `F`, five bytes each.
pub const FONTSET: [u8; 80] = [
    0xF0, 0x90, 0x90, 0x90, 0xF0,
    0x20, 0x60, 0x20, 0x20, 0x70,
    0xF0, 0x10, 0xF0, 0x80, 0xF0,
    0xF0, 0x10, 0xF0, 0x10, 0xF0,
    0x90, 0x90, 0xF0, 0x10, 0x10,
    0xF0, 0x80, 0xF0, 0x10, 0xF0,
    0xF0, 0x80, 0xF0, 0x90, 0xF0,
    0xF0, 0x10, 0x20, 0x40, 0x40,
    0xF0, 0x90, 0xF0, 0x90, 0xF0,
    0xF0, 0x90, 0xF0, 0x10, 0xF0,
    0xF0, 0x90, 0xF0, 0x90, 0x90,
    0xE0, 0x90, 0xE0, 0x90, 0xE0,
    0xF0, 0x80, 0x80, 0x80, 0xF0,
    0xE0, 0x90, 0x90, 0x90, 0xE0,
    0xF0, 0x80, 0xF0, 0x80, 0xF0,
    0xF0, 0x80, 0xF0, 0x80, 0x80,
];

/// Memory in which nothing has been written yet.
pub open spec fn blank_memory() -> Seq<u8> {
    Seq::new(MEMORY_SIZE as nat, |i: int| 0u8)
}

/// Memory after a program image has been loaded: the reserved region below
/// `PROGRAM_START` is kept, the image follows, and what is left of program
/// space is zero.
pub open spec fn with_program(memory: Seq<u8>, program: Seq<u8>) -> Seq<u8> {
    Seq::new(
        MEMORY_SIZE as nat,
        |i: int|
            if i < PROGRAM_START {
                memory[i]
            } else if i - PROGRAM_START < program.len() {
                program[i - PROGRAM_START]
            } else {
                0u8
            },
    )
}

/// Memory after the font table has been written over its first 80 bytes.
pub open spec fn with_fontset(memory: Seq<u8>) -> Seq<u8> {
    Seq::new(
        MEMORY_SIZE as nat,
        |i: int|
            if i < FONT_LEN {
                FONTSET@[i]
            } else {
                memory[i]
            },
    )
}

/// The address space of one machine.
pub struct MemoryImage {
    bytes: [u8; 4096],
}

impl View for MemoryImage {
    type V = Seq<u8>;

    closed spec fn view(&self) -> Seq<u8> {
        self.bytes@
    }
}

impl MemoryImage {
    /// The view always has one entry per address.
    pub proof fn view_len(&self)
        ensures
            self@.len() == MEMORY_SIZE,
    {
    }

    /// A memory of zeros.
    pub fn new() -> (r: Self)
        ensures
            r@ == blank_memory(),
    {
        let r = MemoryImage { bytes: [0u8; 4096] };
        assert(r@ =~= blank_memory());
        r
    }

    /// Copies a program image to `PROGRAM_START` and clears the rest of
    /// program space. An image that does not fit is refused and nothing is
    /// written.
    pub fn load(&mut self, program: &[u8]) -> (r: Result<(), Chip8Error>)
        ensures
            r is Err <==> program@.len() > MAX_PROGRAM_LEN,
            r is Err ==> r == Err::<(), Chip8Error>(Chip8Error::ImageTooLarge) && final(self)@
                == old(self)@,
            r is Ok ==> final(self)@ == with_program(old(self)@, program@),
    {
        let len: usize = program.len();
        if len > MAX_PROGRAM_LEN {
            return Err(Chip8Error::ImageTooLarge);
        }
        let mut at: usize = PROGRAM_START;
        while at < MEMORY_SIZE
            invariant
                PROGRAM_START <= at <= MEMORY_SIZE,
                len == program@.len(),
                len <= MAX_PROGRAM_LEN,
                forall|i: int| 0 <= i < PROGRAM_START ==> self.bytes@[i] == old(self).bytes@[i],
                forall|i: int|
                    PROGRAM_START <= i < at ==> self.bytes@[i] == with_program(
                        old(self)@,
                        program@,
                    )[i],
            decreases MEMORY_SIZE - at,
        {
            let offset: usize = at - PROGRAM_START;
            let byte: u8 = if offset < len {
                program[offset]
            } else {
                0u8
            };
            self.bytes[at] = byte;
            at = at + 1;
        }
        assert(self@ =~= with_program(old(self)@, program@));
        Ok(())
    }

    /// Writes the font table at address 0.
    pub fn install_fontset(&mut self)
        ensures
            final(self)@ == with_fontset(old(self)@),
    {
        let mut at: usize = 0;
        while at < FONT_LEN
            invariant
                at <= FONT_LEN,
                forall|i: int| 0 <= i < at ==> self.bytes@[i] == FONTSET@[i],
                forall|i: int| at <= i < MEMORY_SIZE ==> self.bytes@[i] == old(self).bytes@[i],
            decreases FONT_LEN - at,
        {
            self.bytes[at] = FONTSET[at];
            at = at + 1;
        }
        assert(self@ =~= with_fontset(old(self)@));
    }

    /// The byte at an address of the space.
    pub(crate) fn byte(&self, addr: usize) -> (r: u8)
        requires
            addr < MEMORY_SIZE,
        ensures
            r == self@[addr as int],
    {
        self.bytes[addr]
    }

    /// Sets the byte at an address of the space.
    pub(crate) fn put(&mut self, addr: usize, value: u8)
        requires
            addr < MEMORY_SIZE,
        ensures
            final(self)@ == old(self)@.update(addr as int, value),
    {
        self.bytes[addr] = value;
    }

    /// The `len` bytes from an address upward, or an error where they do not
    /// all lie in the space.
    pub fn read_range(&self, addr: usize, len: usize) -> (r: Result<Vec<u8>, Chip8Error>)
        ensures
            addr + len <= MEMORY_SIZE ==> r is Ok && r->Ok_0@ == self@.subrange(
                addr as int,
                addr + len,
            ),
            addr + len > MEMORY_SIZE ==> r == Err::<Vec<u8>, Chip8Error>(
                Chip8Error::AddressOutOfRange,
            ),
    {
        if addr > MEMORY_SIZE || len > MEMORY_SIZE - addr {
            return Err(Chip8Error::AddressOutOfRange);
        }
        let mut out: Vec<u8> = Vec::new();
        let mut i: usize = 0;
        while i < len
            invariant
                i <= len,
                addr + len <= MEMORY_SIZE,
                out@ == self@.subrange(addr as int, addr + i),
            decreases len - i,
        {
            out.push(self.bytes[addr + i]);
            i = i + 1;
            assert(out@ =~= self@.subrange(addr as int, addr + i));
        }
        Ok(out)
    }

    /// Reads the byte at an address.
    pub fn read_byte(&self, addr: usize) -> (r: Result<u8, Chip8Error>)
        ensures
            addr < MEMORY_SIZE ==> r == Ok::<u8, Chip8Error>(self@[addr as int]),
            addr >= MEMORY_SIZE ==> r == Err::<u8, Chip8Error>(Chip8Error::AddressOutOfRange),
    {
        if addr >= MEMORY_SIZE {
            return Err(Chip8Error::AddressOutOfRange);
        }
        Ok(self.byte(addr))
    }

    /// Writes one byte at an address. An address outside the space is
    /// refused and nothing is written.
    pub fn write_byte(&mut self, addr: usize, value: u8) -> (r: Result<(), Chip8Error>)
        ensures
            addr < MEMORY_SIZE ==> r is Ok && final(self)@ == old(self)@.update(addr as int, value),
            addr >= MEMORY_SIZE ==> r == Err::<(), Chip8Error>(Chip8Error::AddressOutOfRange)
                && final(self)@ == old(self)@,
    {
        if addr >= MEMORY_SIZE {
            return Err(Chip8Error::AddressOutOfRange);
        }
        self.put(addr, value);
        Ok(())
    }
}

} // verus!
