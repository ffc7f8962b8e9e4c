//! The machine itself: it owns every component and runs one instruction per
//! step.

use vstd::prelude::*;
use crate::display::Framebuffer;
use crate::error::Chip8Error;
use crate::keypad::{HostKey, Keypad, host_key_of, key_code_of};
use crate::memory::{MEMORY_SIZE, MemoryImage, with_fontset, with_program};
use crate::opcode::{
    Operation,
    decode,
    decode_of,
    latency_of,
    n_field,
    nn_field,
    nnn_field,
    word,
    x_field,
    y_field,
};
use crate::random::random_byte;
use crate::registers::{FLAG_REGISTER, RegisterFile};
use crate::stack::CallStack;
use crate::state::{KEY_POLL_MICROS, MachineState, RunState, power_on};
use crate::timers::TimerPair;

verus! {

/// A CHIP-8 machine. Its view is its whole state as a `MachineState`.
pub struct Machine {
    opcode: u16,
    memory: MemoryImage,
    display: Framebuffer,
    registers: RegisterFile,
    stack: CallStack,
    timers: TimerPair,
    run: RunState,
    flag_index_overflow: bool,
}

impl View for Machine {
    type V = MachineState;

    closed spec fn view(&self) -> MachineState {
        MachineState {
            opcode: self.opcode,
            memory: self.memory@,
            display: self.display@,
            v: self.registers.v@,
            pc: self.registers.pc,
            index: self.registers.index,
            stack: self.stack@,
            timers: self.timers,
            run: self.run,
            flag_index_overflow: self.flag_index_overflow,
        }
    }
}

/// Whether a fallible instruction did what the model says: on success the
/// machine is in the state the model gives, on failure the error is the
/// model's and the machine is as it was.
pub open spec fn follows(
    before: MachineState,
    after: MachineState,
    result: Result<(), Chip8Error>,
    expected: Result<MachineState, Chip8Error>,
) -> bool {
    match expected {
        Ok(state) => result is Ok && after == state,
        Err(e) => result == Err::<(), Chip8Error>(e) && after == before,
    }
}

impl Machine {
    /// Every part of a machine's state has its size.
    pub proof fn view_wf(&self)
        ensures
            self@.wf(),
    {
        self.memory.view_len();
        self.display.view_len();
        self.stack.view_len();
    }

    /// A machine with everything zero and the program counter at `0x200`.
    pub fn new() -> (r: Self)
        ensures
            r@ == power_on(),
    {
        Machine {
            opcode: 0,
            memory: MemoryImage::new(),
            display: Framebuffer::new(),
            registers: RegisterFile::new(),
            stack: CallStack::new(),
            timers: TimerPair::new(),
            run: RunState::Running,
            flag_index_overflow: false,
        }
    }

    /// Makes the machine ready to run a program: the image goes to `0x200`
    /// and the font table to address 0. An image of more than `0xE00` bytes is
    /// refused, and the machine stays as it was.
    pub fn init(&mut self, program: &[u8]) -> (r: Result<(), Chip8Error>)
        ensures
            r is Err <==> program@.len() > 0xE00,
            r is Err ==> r == Err::<(), Chip8Error>(Chip8Error::ImageTooLarge) && final(self)@
                == old(self)@,
            r is Ok ==> final(self)@ == (MachineState {
                memory: with_fontset(with_program(old(self)@.memory, program@)),
                ..old(self)@
            }),
    {
        match self.load_rom(program) {
            Ok(()) => {
                self.load_fontset();
                Ok(())
            },
            Err(e) => Err(e),
        }
    }

    /// Copies a program image to `0x200` and clears the rest of program
    /// space. An image of more than `0xE00` bytes is refused, and the machine
    /// stays as it was.
    pub fn load_rom(&mut self, program: &[u8]) -> (r: Result<(), Chip8Error>)
        ensures
            r is Err <==> program@.len() > 0xE00,
            r is Err ==> r == Err::<(), Chip8Error>(Chip8Error::ImageTooLarge) && final(self)@
                == old(self)@,
            r is Ok ==> final(self)@ == (MachineState {
                memory: with_program(old(self)@.memory, program@),
                ..old(self)@
            }),
    {
        self.memory.load(program)
    }

    /// Writes the font table at address 0.
    pub fn load_fontset(&mut self)
        ensures
            final(self)@ == (MachineState { memory: with_fontset(old(self)@.memory), ..old(self)@ }),
    {
        self.memory.install_fontset();
    }

    /// The host key that stands for a key code, or `UnmappedInputKey` for a
    /// code above `0xF`.
    pub fn map_key_to_keyboard(keycode: u8) -> (r: Result<HostKey, Chip8Error>)
        ensures
            match host_key_of(keycode) {
                Some(key) => r == Ok::<HostKey, Chip8Error>(key),
                None => r == Err::<HostKey, Chip8Error>(Chip8Error::UnmappedInputKey),
            },
    {
        match keycode {
            0x1 => Ok(HostKey::Key1),
            0x2 => Ok(HostKey::Key2),
            0x3 => Ok(HostKey::Key3),
            0xC => Ok(HostKey::Key4),
            0x4 => Ok(HostKey::Q),
            0x5 => Ok(HostKey::W),
            0x6 => Ok(HostKey::E),
            0xD => Ok(HostKey::R),
            0x7 => Ok(HostKey::A),
            0x8 => Ok(HostKey::S),
            0x9 => Ok(HostKey::D),
            0xE => Ok(HostKey::F),
            0xA => Ok(HostKey::Z),
            0x0 => Ok(HostKey::X),
            0xB => Ok(HostKey::C),
            0xF => Ok(HostKey::V),
            _ => Err(Chip8Error::UnmappedInputKey),
        }
    }

    /// The key code that a host key stands for, or `UnmappedInputKey` for a
    /// key that stands for none.
    pub fn map_key_from_keyboard(keycode: HostKey) -> (r: Result<u8, Chip8Error>)
        ensures
            match key_code_of(keycode) {
                Some(code) => r == Ok::<u8, Chip8Error>(code),
                None => r == Err::<u8, Chip8Error>(Chip8Error::UnmappedInputKey),
            },
    {
        match keycode {
            HostKey::Key1 => Ok(0x1),
            HostKey::Key2 => Ok(0x2),
            HostKey::Key3 => Ok(0x3),
            HostKey::Key4 => Ok(0xC),
            HostKey::Q => Ok(0x4),
            HostKey::W => Ok(0x5),
            HostKey::E => Ok(0x6),
            HostKey::R => Ok(0xD),
            HostKey::A => Ok(0x7),
            HostKey::S => Ok(0x8),
            HostKey::D => Ok(0x9),
            HostKey::F => Ok(0xE),
            HostKey::Z => Ok(0xA),
            HostKey::X => Ok(0x0),
            HostKey::C => Ok(0xB),
            HostKey::V => Ok(0xF),
            HostKey::Other => Err(Chip8Error::UnmappedInputKey),
        }
    }

    /// Microseconds that the instruction with this word took on the COSMAC
    /// VIP. A word that selects no operation has the default latency.
    pub fn map_opcode_delay(opcode: u16) -> (micros: u64)
        ensures
            micros == latency_of(decode_of(opcode)),
    {
        decode(opcode).latency_micros()
    }

    /// Fetches the instruction at the program counter: records its word and
    /// moves the program counter behind it. Where the instruction does not
    /// lie in memory, nothing changes.
    pub fn fetch(&mut self) -> (r: Result<u16, Chip8Error>)
        ensures
            old(self)@.can_fetch() ==> final(self)@ == old(self)@.fetched() && r == Ok::<
                u16,
                Chip8Error,
            >(final(self)@.opcode),
            !old(self)@.can_fetch() ==> final(self)@ == old(self)@ && r == Err::<u16, Chip8Error>(
                Chip8Error::AddressOutOfRange,
            ),
    {
        let pc: usize = self.registers.pc as usize;
        if pc + 1 >= MEMORY_SIZE {
            return Err(Chip8Error::AddressOutOfRange);
        }
        let high: u8 = self.memory.byte(pc);
        let low: u8 = self.memory.byte(pc + 1);
        self.opcode = word(high, low);
        self.registers.pc = self.registers.pc + 2;
        Ok(self.opcode)
    }

    /// `00E0`: clears the screen.
    pub fn op_00e0(&mut self)
        ensures
            final(self)@ == old(self)@.clear_screen(),
    {
        self.display.clear();
    }

    /// `00EE`: returns from a subroutine.
    pub fn op_00ee(&mut self) -> (r: Result<(), Chip8Error>)
        ensures
            follows(old(self)@, final(self)@, r, old(self)@.ret()),
    {
        match self.stack.pop() {
            Ok(addr) => {
                self.registers.pc = addr;
                Ok(())
            },
            Err(e) => Err(e),
        }
    }

    /// `1NNN`: jumps to `NNN`.
    pub fn op_1nnn(&mut self)
        ensures
            final(self)@ == old(self)@.jump(),
    {
        self.registers.pc = nnn_field(self.opcode);
    }

    /// `2NNN`: calls the subroutine at `NNN`.
    pub fn op_2nnn(&mut self) -> (r: Result<(), Chip8Error>)
        ensures
            follows(old(self)@, final(self)@, r, old(self)@.call()),
    {
        match self.stack.push(self.registers.pc) {
            Ok(()) => {
                self.registers.pc = nnn_field(self.opcode);
                Ok(())
            },
            Err(e) => Err(e),
        }
    }

    /// `3XNN`: skips the next instruction where `VX` is `NN`.
    pub fn op_3xnn(&mut self)
        requires
            old(self)@.pc <= 0xFFFD,
        ensures
            final(self)@ == old(self)@.skip_if_equal(),
    {
        let x: usize = x_field(self.opcode) as usize;
        let nn: u8 = nn_field(self.opcode);
        if self.registers.v[x] == nn {
            self.registers.pc = self.registers.pc + 2;
        }
    }

    /// `4XNN`: skips the next instruction where `VX` is not `NN`.
    pub fn op_4xnn(&mut self)
        requires
            old(self)@.pc <= 0xFFFD,
        ensures
            final(self)@ == old(self)@.skip_if_not_equal(),
    {
        let x: usize = x_field(self.opcode) as usize;
        let nn: u8 = nn_field(self.opcode);
        if self.registers.v[x] != nn {
            self.registers.pc = self.registers.pc + 2;
        }
    }

    /// `5XY0`: skips the next instruction where `VX` is `VY`.
    pub fn op_5xy0(&mut self)
        requires
            old(self)@.pc <= 0xFFFD,
        ensures
            final(self)@ == old(self)@.skip_if_registers_equal(),
    {
        let x: usize = x_field(self.opcode) as usize;
        let y: usize = y_field(self.opcode) as usize;
        if self.registers.v[x] == self.registers.v[y] {
            self.registers.pc = self.registers.pc + 2;
        }
    }

    /// `6XNN`: sets `VX` to `NN`.
    pub fn op_6xnn(&mut self)
        ensures
            final(self)@ == old(self)@.load_immediate(),
    {
        let x: usize = x_field(self.opcode) as usize;
        let nn: u8 = nn_field(self.opcode);
        self.registers.v[x] = nn;
    }

    /// `7XNN`: adds `NN` to `VX`, wrapping at eight bits. No flag is set.
    pub fn op_7xnn(&mut self)
        ensures
            final(self)@ == old(self)@.add_immediate(),
    {
        let x: usize = x_field(self.opcode) as usize;
        let nn: u8 = nn_field(self.opcode);
        let value: u8 = self.registers.v[x];
        self.registers.v[x] = value.wrapping_add(nn);
    }

    /// `8XY0`: sets `VX` to `VY`.
    pub fn op_8xy0(&mut self)
        ensures
            final(self)@ == old(self)@.copy_register(),
    {
        let x: usize = x_field(self.opcode) as usize;
        let y: usize = y_field(self.opcode) as usize;
        self.registers.v[x] = self.registers.v[y];
    }

    /// `8XY1`: sets `VX` to `VX | VY`.
    pub fn op_8xy1(&mut self)
        ensures
            final(self)@ == old(self)@.or_register(),
    {
        let x: usize = x_field(self.opcode) as usize;
        let y: usize = y_field(self.opcode) as usize;
        self.registers.v[x] = self.registers.v[x] | self.registers.v[y];
    }

    /// `8XY2`: sets `VX` to `VX & VY`.
    pub fn op_8xy2(&mut self)
        ensures
            final(self)@ == old(self)@.and_register(),
    {
        let x: usize = x_field(self.opcode) as usize;
        let y: usize = y_field(self.opcode) as usize;
        self.registers.v[x] = self.registers.v[x] & self.registers.v[y];
    }

    /// `8XY3`: sets `VX` to `VX ^ VY`.
    pub fn op_8xy3(&mut self)
        ensures
            final(self)@ == old(self)@.xor_register(),
    {
        let x: usize = x_field(self.opcode) as usize;
        let y: usize = y_field(self.opcode) as usize;
        self.registers.v[x] = self.registers.v[x] ^ self.registers.v[y];
    }

    /// `8XY4`: adds `VY` to `VX`; `VF` says whether the sum exceeded 255.
    pub fn op_8xy4(&mut self)
        ensures
            final(self)@ == old(self)@.add_register(),
    {
        let x: usize = x_field(self.opcode) as usize;
        let y: usize = y_field(self.opcode) as usize;
        let sum: u16 = self.registers.v[x] as u16 + self.registers.v[y] as u16;
        self.registers.v[FLAG_REGISTER] = if sum > 255 {
            1
        } else {
            0
        };
        self.registers.v[x] = (sum % 256) as u8;
    }

    /// `8XY5`: subtracts `VY` from `VX`; `VF` says whether there was no
    /// borrow.
    pub fn op_8xy5(&mut self)
        ensures
            final(self)@ == old(self)@.subtract(),
    {
        let x: usize = x_field(self.opcode) as usize;
        let y: usize = y_field(self.opcode) as usize;
        let vx: u8 = self.registers.v[x];
        let vy: u8 = self.registers.v[y];
        self.registers.v[FLAG_REGISTER] = if vx >= vy {
            1
        } else {
            0
        };
        self.registers.v[x] = vx.wrapping_sub(vy);
    }

    /// `8XY6`: halves `VX`; `VF` gets the bit that was shifted out.
    pub fn op_8xy6(&mut self)
        ensures
            final(self)@ == old(self)@.shift_right(),
    {
        let x: usize = x_field(self.opcode) as usize;
        let vx: u8 = self.registers.v[x];
        assert(vx & 0x01 == vx % 2 && vx >> 1 == vx / 2) by (bit_vector);
        self.registers.v[FLAG_REGISTER] = vx & 0x01;
        self.registers.v[x] = vx >> 1;
    }

    /// `8XY7`: sets `VX` to `VY - VX`; `VF` says whether there was no borrow.
    pub fn op_8xy7(&mut self)
        ensures
            final(self)@ == old(self)@.subtract_reversed(),
    {
        let x: usize = x_field(self.opcode) as usize;
        let y: usize = y_field(self.opcode) as usize;
        let vx: u8 = self.registers.v[x];
        let vy: u8 = self.registers.v[y];
        self.registers.v[FLAG_REGISTER] = if vy >= vx {
            1
        } else {
            0
        };
        self.registers.v[x] = vy.wrapping_sub(vx);
    }

    /// `8XYE`: doubles `VX`; `VF` gets the bit that was shifted out.
    #[allow(non_snake_case)]
    pub fn op_8xyE(&mut self)
        ensures
            final(self)@ == old(self)@.shift_left(),
    {
        let x: usize = x_field(self.opcode) as usize;
        let vx: u8 = self.registers.v[x];
        assert((vx >> 7) == (if vx >= 128 { 1u8 } else { 0u8 }) && vx << 1 == (vx * 2) % 256)
            by (bit_vector);
        self.registers.v[FLAG_REGISTER] = vx >> 7;
        self.registers.v[x] = vx << 1;
    }

    /// `9XY0`: skips the next instruction where `VX` is not `VY`.
    pub fn op_9xy0(&mut self)
        requires
            old(self)@.pc <= 0xFFFD,
        ensures
            final(self)@ == old(self)@.skip_if_registers_differ(),
    {
        let x: usize = x_field(self.opcode) as usize;
        let y: usize = y_field(self.opcode) as usize;
        if self.registers.v[x] != self.registers.v[y] {
            self.registers.pc = self.registers.pc + 2;
        }
    }

    /// `ANNN`: sets the index register to `NNN`.
    #[allow(non_snake_case)]
    pub fn op_Annn(&mut self)
        ensures
            final(self)@ == old(self)@.load_index(),
    {
        self.registers.index = nnn_field(self.opcode);
    }

    /// `BNNN`: jumps to `NNN + V0`.
    #[allow(non_snake_case)]
    pub fn op_Bnnn(&mut self)
        ensures
            final(self)@ == old(self)@.jump_with_offset(),
    {
        self.registers.pc = nnn_field(self.opcode) + self.registers.v[0] as u16;
    }

    /// `CXNN` with the random byte given: sets `VX` to the byte masked by
    /// `NN`.
    #[allow(non_snake_case)]
    pub fn op_Cxnn_with(&mut self, byte: u8)
        ensures
            final(self)@ == old(self)@.random(byte),
    {
        let x: usize = x_field(self.opcode) as usize;
        let nn: u8 = nn_field(self.opcode);
        self.registers.v[x] = byte & nn;
    }

    /// `CXNN`: sets `VX` to a random byte masked by `NN`. The byte is any
    /// value below 255.
    #[allow(non_snake_case)]
    pub fn op_Cxnn(&mut self)
        ensures
            exists|byte: u8| byte < 255 && final(self)@ == #[trigger] old(self)@.random(byte),
    {
        let byte: u8 = random_byte();
        self.op_Cxnn_with(byte);
    }

    /// `DXYN`: draws the `N`-row sprite at the index register to `(VX, VY)`;
    /// `VF` gets the collision flag. A sprite that reaches past the end of
    /// memory is refused and nothing changes.
    #[allow(non_snake_case)]
    pub fn op_Dxyn(&mut self) -> (r: Result<(), Chip8Error>)
        ensures
            follows(old(self)@, final(self)@, r, old(self)@.draw()),
    {
        let x: usize = x_field(self.opcode) as usize;
        let y: usize = y_field(self.opcode) as usize;
        let rows: usize = n_field(self.opcode) as usize;
        let left: u8 = self.registers.v[x];
        let top: u8 = self.registers.v[y];
        let sprite: Vec<u8> = if rows == 0 {
            Vec::new()
        } else {
            match self.memory.read_range(self.registers.index as usize, rows) {
                Ok(bytes) => bytes,
                Err(e) => {
                    return Err(e);
                },
            }
        };
        assert(sprite@ =~= old(self)@.sprite());
        let collision: bool = self.display.draw_sprite(left, top, sprite.as_slice());
        self.registers.v[FLAG_REGISTER] = if collision {
            1
        } else {
            0
        };
        Ok(())
    }

    /// `EX9E`: skips the next instruction where the key whose code is `VX` is
    /// down. A `VX` above `0xF` names no key: nothing changes.
    #[allow(non_snake_case)]
    pub fn op_Ex9E(&mut self, keypad: &Keypad) -> (r: Result<(), Chip8Error>)
        requires
            old(self)@.pc <= 0xFFFD,
        ensures
            follows(old(self)@, final(self)@, r, old(self)@.skip_if_key_down(keypad@)),
    {
        let x: usize = x_field(self.opcode) as usize;
        match keypad.is_down(self.registers.v[x]) {
            Ok(down) => {
                if down {
                    self.registers.pc = self.registers.pc + 2;
                }
                Ok(())
            },
            Err(e) => Err(e),
        }
    }

    /// `EXA1`: skips the next instruction where the key whose code is `VX` is
    /// up. A `VX` above `0xF` names no key: nothing changes.
    #[allow(non_snake_case)]
    pub fn op_ExA1(&mut self, keypad: &Keypad) -> (r: Result<(), Chip8Error>)
        requires
            old(self)@.pc <= 0xFFFD,
        ensures
            follows(old(self)@, final(self)@, r, old(self)@.skip_if_key_up(keypad@)),
    {
        let x: usize = x_field(self.opcode) as usize;
        match keypad.is_down(self.registers.v[x]) {
            Ok(down) => {
                if !down {
                    self.registers.pc = self.registers.pc + 2;
                }
                Ok(())
            },
            Err(e) => Err(e),
        }
    }

    /// `FX07`: sets `VX` to the delay timer.
    #[allow(non_snake_case)]
    pub fn op_Fx07(&mut self)
        ensures
            final(self)@ == old(self)@.read_delay(),
    {
        let x: usize = x_field(self.opcode) as usize;
        self.registers.v[x] = self.timers.delay;
    }

    /// `FX0A`: starts to wait for a key. The steps that follow run no
    /// instruction until a key is down; its code then goes to `VX`.
    #[allow(non_snake_case)]
    pub fn op_Fx0A(&mut self)
        ensures
            final(self)@ == old(self)@.wait_for_key(),
    {
        self.run = RunState::AwaitingKey(x_field(self.opcode));
    }

    /// `FX15`: sets the delay timer to `VX`.
    #[allow(non_snake_case)]
    pub fn op_Fx15(&mut self)
        ensures
            final(self)@ == old(self)@.set_delay(),
    {
        let x: usize = x_field(self.opcode) as usize;
        self.timers.delay = self.registers.v[x];
    }

    /// `FX18`: sets the sound timer to `VX`.
    #[allow(non_snake_case)]
    pub fn op_Fx18(&mut self)
        ensures
            final(self)@ == old(self)@.set_sound(),
    {
        let x: usize = x_field(self.opcode) as usize;
        self.timers.sound = self.registers.v[x];
    }

    /// `FX1E`: adds `VX` to the index register, within twelve bits. `VF` is
    /// written only where the machine was set up to flag a sum that left the
    /// address space.
    #[allow(non_snake_case)]
    pub fn op_Fx1E(&mut self)
        ensures
            final(self)@ == old(self)@.add_to_index(),
    {
        let x: usize = x_field(self.opcode) as usize;
        let sum: u32 = self.registers.index as u32 + self.registers.v[x] as u32;
        if self.flag_index_overflow {
            self.registers.v[FLAG_REGISTER] = if sum >= 4096 {
                1
            } else {
                0
            };
        }
        self.registers.index = (sum % 4096) as u16;
    }

    /// `FX29`: points the index register at the font sprite of the digit
    /// `VX`.
    #[allow(non_snake_case)]
    pub fn op_Fx29(&mut self)
        ensures
            final(self)@ == old(self)@.font_address(),
    {
        let x: usize = x_field(self.opcode) as usize;
        self.registers.index = self.registers.v[x] as u16 * 5;
    }

    /// `FX33`: stores the decimal digits of `VX` at the index register and
    /// the two addresses behind it. Where these do not all lie in memory,
    /// nothing changes.
    #[allow(non_snake_case)]
    pub fn op_Fx33(&mut self) -> (r: Result<(), Chip8Error>)
        ensures
            follows(old(self)@, final(self)@, r, old(self)@.store_decimal()),
    {
        let x: usize = x_field(self.opcode) as usize;
        let value: u8 = self.registers.v[x];
        let at: usize = self.registers.index as usize;
        if at + 2 >= MEMORY_SIZE {
            return Err(Chip8Error::AddressOutOfRange);
        }
        self.memory.put(at, value / 100);
        self.memory.put(at + 1, (value / 10) % 10);
        self.memory.put(at + 2, value % 10);
        Ok(())
    }

    /// `FX55`: stores `V0` to `VX` in memory from the index register upward.
    /// Where they do not all fit in memory, nothing changes.
    #[allow(non_snake_case)]
    pub fn op_Fx55(&mut self) -> (r: Result<(), Chip8Error>)
        ensures
            follows(old(self)@, final(self)@, r, old(self)@.store_registers()),
    {
        let x: usize = x_field(self.opcode) as usize;
        let at: usize = self.registers.index as usize;
        if at + x >= MEMORY_SIZE {
            return Err(Chip8Error::AddressOutOfRange);
        }
        proof {
            self.memory.view_len();
        }
        let mut reg: usize = 0;
        while reg <= x
            invariant
                reg <= x + 1,
                x < 16,
                at + x < MEMORY_SIZE,
                self.memory@.len() == MEMORY_SIZE,
                self.registers.v@ == old(self).registers.v@,
                *self == (Machine { memory: self.memory, ..*old(self) }),
                forall|i: int|
                    0 <= i < MEMORY_SIZE ==> self.memory@[i] == (if at <= i < at + reg {
                        self.registers.v@[i - at]
                    } else {
                        old(self).memory@[i]
                    }),
            decreases x + 1 - reg,
        {
            self.memory.put(at + reg, self.registers.v[reg]);
            reg = reg + 1;
        }
        assert(self.memory@ =~= old(self)@.store_registers()->Ok_0.memory);
        Ok(())
    }

    /// `FX65`: loads `V0` to `VX` from memory from the index register
    /// upward. Where they do not all lie in memory, nothing changes.
    #[allow(non_snake_case)]
    pub fn op_Fx65(&mut self) -> (r: Result<(), Chip8Error>)
        ensures
            follows(old(self)@, final(self)@, r, old(self)@.load_registers()),
    {
        let x: usize = x_field(self.opcode) as usize;
        let at: usize = self.registers.index as usize;
        if at + x >= MEMORY_SIZE {
            return Err(Chip8Error::AddressOutOfRange);
        }
        let mut reg: usize = 0;
        while reg <= x
            invariant
                reg <= x + 1,
                x < 16,
                at + x < MEMORY_SIZE,
                self.registers.pc == old(self).registers.pc,
                self.registers.index == old(self).registers.index,
                *self == (Machine { registers: self.registers, ..*old(self) }),
                forall|i: int|
                    0 <= i < 16 ==> self.registers.v@[i] == (if i < reg {
                        self.memory@[at + i]
                    } else {
                        old(self).registers.v@[i]
                    }),
            decreases x + 1 - reg,
        {
            self.registers.v[reg] = self.memory.byte(at + reg);
            reg = reg + 1;
        }
        assert(self.registers.v@ =~= old(self)@.load_registers()->Ok_0.v);
        Ok(())
    }

    /// Executes the instruction that was fetched last, with the random byte
    /// of this step given. A word that selects no operation does nothing.
    /// Where the instruction fails, nothing changes.
    pub fn execute_with(&mut self, keypad: &Keypad, byte: u8) -> (r: Result<(), Chip8Error>)
        requires
            old(self)@.pc <= 0xFFFD,
        ensures
            follows(old(self)@, final(self)@, r, old(self)@.execute(keypad@, byte)),
    {
        match decode(self.opcode) {
            Operation::ClearScreen => {
                self.op_00e0();
                Ok(())
            },
            Operation::Return => self.op_00ee(),
            Operation::Jump => {
                self.op_1nnn();
                Ok(())
            },
            Operation::Call => self.op_2nnn(),
            Operation::SkipIfEqual => {
                self.op_3xnn();
                Ok(())
            },
            Operation::SkipIfNotEqual => {
                self.op_4xnn();
                Ok(())
            },
            Operation::SkipIfRegistersEqual => {
                self.op_5xy0();
                Ok(())
            },
            Operation::LoadImmediate => {
                self.op_6xnn();
                Ok(())
            },
            Operation::AddImmediate => {
                self.op_7xnn();
                Ok(())
            },
            Operation::CopyRegister => {
                self.op_8xy0();
                Ok(())
            },
            Operation::Or => {
                self.op_8xy1();
                Ok(())
            },
            Operation::And => {
                self.op_8xy2();
                Ok(())
            },
            Operation::Xor => {
                self.op_8xy3();
                Ok(())
            },
            Operation::AddRegister => {
                self.op_8xy4();
                Ok(())
            },
            Operation::Subtract => {
                self.op_8xy5();
                Ok(())
            },
            Operation::ShiftRight => {
                self.op_8xy6();
                Ok(())
            },
            Operation::SubtractReversed => {
                self.op_8xy7();
                Ok(())
            },
            Operation::ShiftLeft => {
                self.op_8xyE();
                Ok(())
            },
            Operation::SkipIfRegistersDiffer => {
                self.op_9xy0();
                Ok(())
            },
            Operation::LoadIndex => {
                self.op_Annn();
                Ok(())
            },
            Operation::JumpWithOffset => {
                self.op_Bnnn();
                Ok(())
            },
            Operation::Random => {
                self.op_Cxnn_with(byte);
                Ok(())
            },
            Operation::Draw => self.op_Dxyn(),
            Operation::SkipIfKeyDown => self.op_Ex9E(keypad),
            Operation::SkipIfKeyUp => self.op_ExA1(keypad),
            Operation::ReadDelay => {
                self.op_Fx07();
                Ok(())
            },
            Operation::WaitForKey => {
                self.op_Fx0A();
                Ok(())
            },
            Operation::SetDelay => {
                self.op_Fx15();
                Ok(())
            },
            Operation::SetSound => {
                self.op_Fx18();
                Ok(())
            },
            Operation::AddToIndex => {
                self.op_Fx1E();
                Ok(())
            },
            Operation::FontAddress => {
                self.op_Fx29();
                Ok(())
            },
            Operation::StoreDecimal => self.op_Fx33(),
            Operation::StoreRegisters => self.op_Fx55(),
            Operation::LoadRegisters => self.op_Fx65(),
            Operation::Unknown => Ok(()),
        }
    }

    /// Whether the next step will execute a `CXNN`.
    fn needs_random_byte(&self) -> (r: bool)
        ensures
            r == (self@.run == RunState::Running && self@.can_fetch() && decode_of(
                self@.fetched().opcode,
            ) == Operation::Random),
    {
        let pc: usize = self.registers.pc as usize;
        match self.run {
            RunState::AwaitingKey(_) => false,
            RunState::Running => {
                if pc + 1 >= MEMORY_SIZE {
                    false
                } else {
                    let next: u16 = word(self.memory.byte(pc), self.memory.byte(pc + 1));
                    decode(next) == Operation::Random
                }
            },
        }
    }

    /// One step with the random byte of this step given. While the machine
    /// waits for a key, the step looks at the keypad and runs no
    /// instruction; otherwise it fetches and executes the instruction at
    /// the program counter. The result is the latency in microseconds that
    /// the host should let pass, or the error that ends the session.
    pub fn cycle_with(&mut self, keypad: &Keypad, byte: u8) -> (r: Result<u64, Chip8Error>)
        ensures
            (final(self)@, r) == old(self)@.step(keypad@, byte),
    {
        match self.run {
            RunState::AwaitingKey(register) => {
                match keypad.first_down() {
                    Some(code) => {
                        let _ = self.registers.set(register, code);
                        self.run = RunState::Running;
                        Ok(Operation::WaitForKey.latency_micros())
                    },
                    None => Ok(KEY_POLL_MICROS),
                }
            },
            RunState::Running => {
                match self.fetch() {
                    Ok(opcode) => {
                        match self.execute_with(keypad, byte) {
                            Ok(()) => Ok(Self::map_opcode_delay(opcode)),
                            Err(e) => Err(e),
                        }
                    },
                    Err(e) => Err(e),
                }
            },
        }
    }

    /// One step. It is `cycle_with` for some random byte below 255, which is
    /// drawn only where the step executes a `CXNN`.
    pub fn cycle(&mut self, keypad: &Keypad) -> (r: Result<u64, Chip8Error>)
        ensures
            exists|byte: u8|
                byte < 255 && (final(self)@, r) == #[trigger] old(self)@.step(keypad@, byte),
    {
        let byte: u8 = if self.needs_random_byte() {
            random_byte()
        } else {
            0
        };
        self.cycle_with(keypad, byte)
    }

    /// One timer tick: each timer that is not zero goes down by one. The host
    /// calls this sixty times a second, however fast it steps the machine.
    pub fn tick(&mut self)
        ensures
            final(self)@ == (MachineState { timers: old(self)@.timers.after_ticks(1), ..old(self)@ }),
    {
        self.timers.tick();
    }

    /// Lets `elapsed_micros` microseconds of wall-clock time go by: the
    /// timers tick once for each whole sixtieth of a second, and what is left
    /// over counts towards the next call.
    pub fn advance_timers(&mut self, elapsed_micros: u64)
        ensures
            final(self)@ == (MachineState {
                timers: old(self)@.timers.after_micros(elapsed_micros),
                ..old(self)@
            }),
    {
        self.timers.advance(elapsed_micros);
    }

    /// Chooses whether `FX1E` reports in `VF` that its sum left the address
    /// space. A new machine does not.
    pub fn set_flag_index_overflow(&mut self, on: bool)
        ensures
            final(self)@ == (MachineState { flag_index_overflow: on, ..old(self)@ }),
    {
        self.flag_index_overflow = on;
    }

    /// The instruction word fetched last.
    pub fn opcode(&self) -> (r: u16)
        ensures
            r == self@.opcode,
    {
        self.opcode
    }

    /// The program counter.
    pub fn pc(&self) -> (r: u16)
        ensures
            r == self@.pc,
    {
        self.registers.pc
    }

    /// The index register.
    pub fn index(&self) -> (r: u16)
        ensures
            r == self@.index,
    {
        self.registers.index
    }

    /// The value of register `i`, or `None` where there is no such register.
    pub fn register(&self, i: u8) -> (r: Option<u8>)
        ensures
            i < 16 ==> r == Some(self@.v[i as int]),
            i >= 16 ==> r is None,
    {
        self.registers.get(i)
    }

    /// The byte of memory at an address, or `AddressOutOfRange`.
    pub fn memory_byte(&self, addr: usize) -> (r: Result<u8, Chip8Error>)
        ensures
            addr < MEMORY_SIZE ==> r == Ok::<u8, Chip8Error>(self@.memory[addr as int]),
            addr >= MEMORY_SIZE ==> r == Err::<u8, Chip8Error>(Chip8Error::AddressOutOfRange),
    {
        self.memory.read_byte(addr)
    }

    /// The number of return addresses on the stack.
    pub fn stack_depth(&self) -> (r: usize)
        ensures
            r == self@.stack.len(),
            r <= 16,
    {
        self.stack.depth()
    }

    /// The delay timer.
    pub fn delay_timer(&self) -> (r: u8)
        ensures
            r == self@.timers.delay,
    {
        self.timers.delay
    }

    /// The sound timer. The host sounds its tone while this is not zero.
    pub fn sound_timer(&self) -> (r: u8)
        ensures
            r == self@.timers.sound,
    {
        self.timers.sound
    }

    /// Whether the machine runs or waits for a key.
    pub fn run_state(&self) -> (r: RunState)
        ensures
            r == self@.run,
    {
        self.run
    }

    /// The whole screen, row by row, for the host to render.
    pub fn snapshot(&self) -> (r: [bool; 2048])
        ensures
            r@ == self@.display,
    {
        self.display.snapshot()
    }

    /// Whether the pixel in column `x` and row `y` is lit, or `None` where the
    /// screen has no such pixel.
    pub fn pixel(&self, x: usize, y: usize) -> (r: Option<bool>)
        ensures
            x < 64 && y < 32 ==> r == Some(self@.display[y * 64 + x]),
            x >= 64 || y >= 32 ==> r is None,
    {
        self.display.pixel(x, y)
    }
}

} // verus!
