//! The machine as a mathematical value, and what each instruction makes of
//! it. The executable machine is specified against these functions.

use vstd::prelude::*;
use crate::display::{PIXEL_COUNT, blank_grid, sprite_drawn, sprite_hits};
use crate::error::Chip8Error;
use crate::keypad::{KEY_COUNT, lowest_down};
use crate::memory::{FONT_SPRITE_LEN, MEMORY_SIZE, blank_memory};
use crate::opcode::{Operation, decode_of, latency_of, n_of, nn_of, nnn_of, word_of, x_of, y_of};
use crate::registers::{ENTRY_POINT, FLAG_REGISTER, REGISTER_COUNT};
use crate::stack::STACK_DEPTH;
use crate::timers::TimerPair;

verus! {

/// Microseconds after which the host should look at the keypad again while
/// the machine waits for a key.
pub const KEY_POLL_MICROS: u64 = 2000;

/// Whether the machine runs instructions or waits for a key.
#[derive(Clone, Copy, Debug, PartialEq, Eq, Structural)]
pub enum RunState {
    /// The next step fetches and runs an instruction.
    Running,
    /// The machine waits for a key to go down; its code goes to the register
    /// named here.
    AwaitingKey(u8),
}

/// The whole state of a machine.
pub struct MachineState {
    /// The instruction word fetched last.
    pub opcode: u16,
    /// The 4096 bytes of memory.
    pub memory: Seq<u8>,
    /// The 2048 pixels of the screen, row by row.
    pub display: Seq<bool>,
    /// The registers `V0` to `VF`.
    pub v: Seq<u8>,
    /// The program counter.
    pub pc: u16,
    /// The index register.
    pub index: u16,
    /// The return addresses, the oldest first.
    pub stack: Seq<u16>,
    /// The delay and sound timers.
    pub timers: TimerPair,
    /// Whether the machine runs or waits for a key.
    pub run: RunState,
    /// Whether adding to the index register reports in `VF` that the sum left
    /// the address space.
    pub flag_index_overflow: bool,
}

/// The flag value for a condition: 1 where it holds, 0 where it does not.
pub open spec fn flag_of(condition: bool) -> u8 {
    if condition {
        1u8
    } else {
        0u8
    }
}

/// The result of a step: the state it leaves, and the latency of the
/// instruction or the reason it failed.
pub type StepResult = (MachineState, Result<u64, Chip8Error>);

/// The state of a machine that has just been made: everything zero, the
/// program counter at the entry point.
pub open spec fn power_on() -> MachineState {
    MachineState {
        opcode: 0,
        memory: blank_memory(),
        display: blank_grid(),
        v: Seq::new(REGISTER_COUNT as nat, |i: int| 0u8),
        pc: ENTRY_POINT,
        index: 0,
        stack: Seq::<u16>::empty(),
        timers: TimerPair { delay: 0, sound: 0, fraction: 0 },
        run: RunState::Running,
        flag_index_overflow: false,
    }
}

impl MachineState {
    /// Every part has its size.
    pub open spec fn wf(self) -> bool {
        &&& self.memory.len() == MEMORY_SIZE
        &&& self.display.len() == PIXEL_COUNT
        &&& self.v.len() == REGISTER_COUNT
        &&& self.stack.len() <= STACK_DEPTH
    }

    /// The register index in the `X` field of the fetched instruction.
    pub open spec fn x(self) -> int {
        x_of(self.opcode)
    }

    /// The register index in the `Y` field of the fetched instruction.
    pub open spec fn y(self) -> int {
        y_of(self.opcode)
    }

    /// The value of the register that `X` names.
    pub open spec fn vx(self) -> u8 {
        self.v[self.x()]
    }

    /// The value of the register that `Y` names.
    pub open spec fn vy(self) -> u8 {
        self.v[self.y()]
    }

    /// The `NN` operand of the fetched instruction.
    pub open spec fn nn(self) -> u8 {
        nn_of(self.opcode) as u8
    }

    /// The `NNN` operand of the fetched instruction.
    pub open spec fn nnn(self) -> u16 {
        nnn_of(self.opcode) as u16
    }

    /// This state with register `i` set, where there is such a register.
    pub open spec fn with_v(self, i: int, value: u8) -> MachineState {
        if 0 <= i < self.v.len() {
            MachineState { v: self.v.update(i, value), ..self }
        } else {
            self
        }
    }

    /// This state after an instruction has written its flag to `VF` and then
    /// its result to register `X`. Where `X` is `VF` itself, the result is
    /// what stays.
    pub open spec fn with_flag_and_vx(self, flag: bool, value: u8) -> MachineState {
        MachineState {
            v: self.v.update(FLAG_REGISTER as int, flag_of(flag)).update(self.x(), value),
            ..self
        }
    }

    /// This state with the program counter moved past the next instruction
    /// where `condition` holds.
    pub open spec fn skip_when(self, condition: bool) -> MachineState {
        if condition {
            MachineState { pc: (self.pc + 2) as u16, ..self }
        } else {
            self
        }
    }

    /// `00E0`: every pixel off.
    pub open spec fn clear_screen(self) -> MachineState {
        MachineState { display: blank_grid(), ..self }
    }

    /// `00EE`: the newest return address leaves the stack and becomes the
    /// program counter.
    pub open spec fn ret(self) -> Result<MachineState, Chip8Error> {
        if self.stack.len() == 0 {
            Err(Chip8Error::StackUnderflow)
        } else {
            Ok(MachineState { pc: self.stack.last(), stack: self.stack.drop_last(), ..self })
        }
    }

    /// `1NNN`: the program counter becomes `NNN`.
    pub open spec fn jump(self) -> MachineState {
        MachineState { pc: self.nnn(), ..self }
    }

    /// `2NNN`: the program counter goes on the stack and becomes `NNN`.
    pub open spec fn call(self) -> Result<MachineState, Chip8Error> {
        if self.stack.len() >= STACK_DEPTH {
            Err(Chip8Error::StackOverflow)
        } else {
            Ok(MachineState { pc: self.nnn(), stack: self.stack.push(self.pc), ..self })
        }
    }

    /// `3XNN`: skip where `VX` is `NN`.
    pub open spec fn skip_if_equal(self) -> MachineState {
        self.skip_when(self.vx() == self.nn())
    }

    /// `4XNN`: skip where `VX` is not `NN`.
    pub open spec fn skip_if_not_equal(self) -> MachineState {
        self.skip_when(self.vx() != self.nn())
    }

    /// `5XY0`: skip where `VX` is `VY`.
    pub open spec fn skip_if_registers_equal(self) -> MachineState {
        self.skip_when(self.vx() == self.vy())
    }

    /// `6XNN`: `VX` becomes `NN`.
    pub open spec fn load_immediate(self) -> MachineState {
        self.with_v(self.x(), self.nn())
    }

    /// `7XNN`: `VX` becomes `VX + NN` modulo 256. No other register changes.
    pub open spec fn add_immediate(self) -> MachineState {
        self.with_v(self.x(), ((self.vx() + self.nn()) % 256) as u8)
    }

    /// `8XY0`: `VX` becomes `VY`.
    pub open spec fn copy_register(self) -> MachineState {
        self.with_v(self.x(), self.vy())
    }

    /// `8XY1`: `VX` becomes `VX | VY`.
    pub open spec fn or_register(self) -> MachineState {
        self.with_v(self.x(), self.vx() | self.vy())
    }

    /// `8XY2`: `VX` becomes `VX & VY`.
    pub open spec fn and_register(self) -> MachineState {
        self.with_v(self.x(), self.vx() & self.vy())
    }

    /// `8XY3`: `VX` becomes `VX ^ VY`.
    pub open spec fn xor_register(self) -> MachineState {
        self.with_v(self.x(), self.vx() ^ self.vy())
    }

    /// `8XY4`: `VF` says whether `VX + VY` exceeds 255, and `VX` becomes the
    /// sum modulo 256.
    pub open spec fn add_register(self) -> MachineState {
        let sum = self.vx() + self.vy();
        self.with_flag_and_vx(sum > 255, (sum % 256) as u8)
    }

    /// `8XY5`: `VF` says whether `VX >= VY`, and `VX` becomes `VX - VY` modulo
    /// 256.
    pub open spec fn subtract(self) -> MachineState {
        self.with_flag_and_vx(self.vx() >= self.vy(), ((self.vx() - self.vy()) % 256) as u8)
    }

    /// `8XY6`: `VF` becomes the lowest bit of `VX`, and `VX` is halved.
    pub open spec fn shift_right(self) -> MachineState {
        self.with_flag_and_vx(self.vx() % 2 == 1, (self.vx() / 2) as u8)
    }

    /// `8XY7`: `VF` says whether `VY >= VX`, and `VX` becomes `VY - VX` modulo
    /// 256.
    pub open spec fn subtract_reversed(self) -> MachineState {
        self.with_flag_and_vx(self.vy() >= self.vx(), ((self.vy() - self.vx()) % 256) as u8)
    }

    /// `8XYE`: `VF` becomes the highest bit of `VX`, and `VX` is doubled
    /// modulo 256.
    pub open spec fn shift_left(self) -> MachineState {
        self.with_flag_and_vx(self.vx() >= 128, ((self.vx() * 2) % 256) as u8)
    }

    /// `9XY0`: skip where `VX` is not `VY`.
    pub open spec fn skip_if_registers_differ(self) -> MachineState {
        self.skip_when(self.vx() != self.vy())
    }

    /// `ANNN`: the index register becomes `NNN`.
    pub open spec fn load_index(self) -> MachineState {
        MachineState { index: self.nnn(), ..self }
    }

    /// `BNNN`: the program counter becomes `NNN + V0`.
    pub open spec fn jump_with_offset(self) -> MachineState {
        MachineState { pc: (self.nnn() + self.v[0]) as u16, ..self }
    }

    /// `CXNN`: `VX` becomes the random byte masked by `NN`.
    pub open spec fn random(self, byte: u8) -> MachineState {
        self.with_v(self.x(), byte & self.nn())
    }

    /// The sprite that `DXYN` draws: the `N` bytes of memory from the index
    /// register upward.
    pub open spec fn sprite(self) -> Seq<u8> {
        let n = n_of(self.opcode);
        if n == 0 {
            Seq::<u8>::empty()
        } else {
            self.memory.subrange(self.index as int, self.index + n)
        }
    }

    /// `DXYN`: the sprite is drawn at `(VX, VY)` and `VF` becomes the
    /// collision flag. A sprite that reaches past the end of memory is an
    /// error.
    pub open spec fn draw(self) -> Result<MachineState, Chip8Error> {
        let n = n_of(self.opcode);
        if n > 0 && self.index + n > MEMORY_SIZE {
            Err(Chip8Error::AddressOutOfRange)
        } else {
            Ok(
                MachineState {
                    display: sprite_drawn(
                        self.display,
                        self.vx() as int,
                        self.vy() as int,
                        self.sprite(),
                    ),
                    v: self.v.update(
                        FLAG_REGISTER as int,
                        flag_of(
                            sprite_hits(
                                self.display,
                                self.vx() as int,
                                self.vy() as int,
                                self.sprite(),
                            ),
                        ),
                    ),
                    ..self
                },
            )
        }
    }

    /// `EX9E`: skip where the key whose code is `VX` is down. A `VX` above
    /// `0xF` names no key.
    pub open spec fn skip_if_key_down(self, keys: Seq<bool>) -> Result<MachineState, Chip8Error> {
        if self.vx() >= KEY_COUNT {
            Err(Chip8Error::UnmappedInputKey)
        } else {
            Ok(self.skip_when(keys[self.vx() as int]))
        }
    }

    /// `EXA1`: skip where the key whose code is `VX` is up. A `VX` above `0xF`
    /// names no key.
    pub open spec fn skip_if_key_up(self, keys: Seq<bool>) -> Result<MachineState, Chip8Error> {
        if self.vx() >= KEY_COUNT {
            Err(Chip8Error::UnmappedInputKey)
        } else {
            Ok(self.skip_when(!keys[self.vx() as int]))
        }
    }

    /// `FX07`: `VX` becomes the delay timer.
    pub open spec fn read_delay(self) -> MachineState {
        self.with_v(self.x(), self.timers.delay)
    }

    /// `FX0A`: the machine starts to wait for a key, whose code will go to
    /// `VX`.
    pub open spec fn wait_for_key(self) -> MachineState {
        MachineState { run: RunState::AwaitingKey(self.x() as u8), ..self }
    }

    /// `FX15`: the delay timer becomes `VX`.
    pub open spec fn set_delay(self) -> MachineState {
        MachineState { timers: TimerPair { delay: self.vx(), ..self.timers }, ..self }
    }

    /// `FX18`: the sound timer becomes `VX`.
    pub open spec fn set_sound(self) -> MachineState {
        MachineState { timers: TimerPair { sound: self.vx(), ..self.timers }, ..self }
    }

    /// `FX1E`: the index register becomes `I + VX`, kept within the twelve
    /// bits of an address. `VF` is left alone, unless the machine was set up
    /// to report there whether the sum left the address space.
    pub open spec fn add_to_index(self) -> MachineState {
        let sum = self.index + self.vx();
        MachineState {
            index: (sum % (MEMORY_SIZE as int)) as u16,
            v: if self.flag_index_overflow {
                self.v.update(FLAG_REGISTER as int, flag_of(sum >= MEMORY_SIZE))
            } else {
                self.v
            },
            ..self
        }
    }

    /// `FX29`: the index register becomes `VX * 5`, where the font sprite of
    /// the digit `VX` starts.
    pub open spec fn font_address(self) -> MachineState {
        MachineState { index: (self.vx() * FONT_SPRITE_LEN) as u16, ..self }
    }

    /// `FX33`: the hundreds, tens and units of `VX` go to memory at `I`,
    /// `I + 1` and `I + 2`.
    pub open spec fn store_decimal(self) -> Result<MachineState, Chip8Error> {
        let at = self.index as int;
        if at + 2 >= MEMORY_SIZE {
            Err(Chip8Error::AddressOutOfRange)
        } else {
            Ok(
                MachineState {
                    memory: self.memory.update(at, (self.vx() / 100) as u8).update(
                        at + 1,
                        ((self.vx() / 10) % 10) as u8,
                    ).update(at + 2, (self.vx() % 10) as u8),
                    ..self
                },
            )
        }
    }

    /// `FX55`: `V0` to `VX` go to memory from `I` upward.
    pub open spec fn store_registers(self) -> Result<MachineState, Chip8Error> {
        let at = self.index as int;
        if at + self.x() >= MEMORY_SIZE {
            Err(Chip8Error::AddressOutOfRange)
        } else {
            Ok(
                MachineState {
                    memory: Seq::new(
                        MEMORY_SIZE as nat,
                        |i: int|
                            if at <= i <= at + self.x() {
                                self.v[i - at]
                            } else {
                                self.memory[i]
                            },
                    ),
                    ..self
                },
            )
        }
    }

    /// `FX65`: `V0` to `VX` are read from memory from `I` upward.
    pub open spec fn load_registers(self) -> Result<MachineState, Chip8Error> {
        let at = self.index as int;
        if at + self.x() >= MEMORY_SIZE {
            Err(Chip8Error::AddressOutOfRange)
        } else {
            Ok(
                MachineState {
                    v: Seq::new(
                        REGISTER_COUNT as nat,
                        |i: int|
                            if i <= self.x() {
                                self.memory[at + i]
                            } else {
                                self.v[i]
                            },
                    ),
                    ..self
                },
            )
        }
    }

    /// What the fetched instruction makes of this state, given the keys that
    /// are down and the random byte of this step. A word that selects no
    /// operation changes nothing.
    pub open spec fn execute(self, keys: Seq<bool>, byte: u8) -> Result<MachineState, Chip8Error> {
        match decode_of(self.opcode) {
            Operation::ClearScreen => Ok(self.clear_screen()),
            Operation::Return => self.ret(),
            Operation::Jump => Ok(self.jump()),
            Operation::Call => self.call(),
            Operation::SkipIfEqual => Ok(self.skip_if_equal()),
            Operation::SkipIfNotEqual => Ok(self.skip_if_not_equal()),
            Operation::SkipIfRegistersEqual => Ok(self.skip_if_registers_equal()),
            Operation::LoadImmediate => Ok(self.load_immediate()),
            Operation::AddImmediate => Ok(self.add_immediate()),
            Operation::CopyRegister => Ok(self.copy_register()),
            Operation::Or => Ok(self.or_register()),
            Operation::And => Ok(self.and_register()),
            Operation::Xor => Ok(self.xor_register()),
            Operation::AddRegister => Ok(self.add_register()),
            Operation::Subtract => Ok(self.subtract()),
            Operation::ShiftRight => Ok(self.shift_right()),
            Operation::SubtractReversed => Ok(self.subtract_reversed()),
            Operation::ShiftLeft => Ok(self.shift_left()),
            Operation::SkipIfRegistersDiffer => Ok(self.skip_if_registers_differ()),
            Operation::LoadIndex => Ok(self.load_index()),
            Operation::JumpWithOffset => Ok(self.jump_with_offset()),
            Operation::Random => Ok(self.random(byte)),
            Operation::Draw => self.draw(),
            Operation::SkipIfKeyDown => self.skip_if_key_down(keys),
            Operation::SkipIfKeyUp => self.skip_if_key_up(keys),
            Operation::ReadDelay => Ok(self.read_delay()),
            Operation::WaitForKey => Ok(self.wait_for_key()),
            Operation::SetDelay => Ok(self.set_delay()),
            Operation::SetSound => Ok(self.set_sound()),
            Operation::AddToIndex => Ok(self.add_to_index()),
            Operation::FontAddress => Ok(self.font_address()),
            Operation::StoreDecimal => self.store_decimal(),
            Operation::StoreRegisters => self.store_registers(),
            Operation::LoadRegisters => self.load_registers(),
            Operation::Unknown => Ok(self),
        }
    }

    /// Whether both bytes of the next instruction lie in memory.
    pub open spec fn can_fetch(self) -> bool {
        self.pc + 1 < MEMORY_SIZE
    }

    /// This state after the instruction at the program counter has been
    /// fetched: its word is recorded, the first byte most significant, and
    /// the program counter points behind it.
    pub open spec fn fetched(self) -> MachineState {
        MachineState {
            opcode: word_of(self.memory[self.pc as int], self.memory[self.pc + 1]) as u16,
            pc: (self.pc + 2) as u16,
            ..self
        }
    }

    /// This state after the keypad has been looked at while the machine waits
    /// for a key: the lowest key that is down goes to `register` and the
    /// machine runs again; with no key down nothing changes.
    pub open spec fn key_awaited(self, register: u8, keys: Seq<bool>) -> StepResult {
        match lowest_down(keys) {
            Some(code) => (
                MachineState { run: RunState::Running, ..self.with_v(register as int, code) },
                Ok(latency_of(Operation::WaitForKey)),
            ),
            None => (self, Ok(KEY_POLL_MICROS)),
        }
    }

    /// One step of the machine. While it waits for a key, the step looks at
    /// the keypad and runs no instruction. Otherwise it fetches the
    /// instruction at the program counter and executes it; the result is
    /// the latency of that instruction. Where the instruction fails, the
    /// state is the one after the fetch.
    pub open spec fn step(self, keys: Seq<bool>, byte: u8) -> StepResult {
        match self.run {
            RunState::AwaitingKey(register) => self.key_awaited(register, keys),
            RunState::Running => if !self.can_fetch() {
                (self, Err(Chip8Error::AddressOutOfRange))
            } else {
                match self.fetched().execute(keys, byte) {
                    Ok(next) => (next, Ok(latency_of(decode_of(self.fetched().opcode)))),
                    Err(e) => (self.fetched(), Err(e)),
                }
            },
        }
    }
}

} // verus!
