//! What holds of the instructions, for every state and every operand.

use vstd::prelude::*;
use crate::display::{drawing_twice_restores, lit, on_screen, sprite_covers};
use crate::keypad::{HostKey, host_key_of, key_code_of};
use crate::memory::MEMORY_SIZE;
use crate::opcode::{Operation, decode_of, lead_of, nnn_of, word_of};
use crate::registers::FLAG_REGISTER;
use crate::stack::STACK_DEPTH;
use crate::state::{MachineState, RunState, flag_of};
use crate::timers::{TimerPair, FRACTION_PER_TICK};

verus! {

/// `7XNN` leaves in `VX` the sum of `VX` and `NN` modulo 256 and changes no
/// other register: the flag register `VF` is written only where `X` names
/// it.
pub proof fn add_immediate_wraps(s: MachineState)
    requires
        s.wf(),
    ensures
        s.add_immediate().v[s.x()] as int == (s.vx() + s.nn()) % 256,
        forall|i: int| 0 <= i < 16 && i != s.x() ==> s.add_immediate().v[i] == s.v[i],
        s.add_immediate() == (MachineState { v: s.add_immediate().v, ..s }),
{
}

/// `8XY4` with `X` other than `F`: `VF` is 1 exactly where `VX + VY` exceeds
/// 255, `VX` is the sum modulo 256, and no other register changes.
pub proof fn add_register_carries(s: MachineState)
    requires
        s.wf(),
        s.x() != FLAG_REGISTER,
    ensures
        s.add_register().v[FLAG_REGISTER as int] == 1 <==> s.vx() + s.vy() > 255,
        s.add_register().v[FLAG_REGISTER as int] == 0 <==> s.vx() + s.vy() <= 255,
        s.add_register().v[s.x()] as int == (s.vx() + s.vy()) % 256,
        forall|i: int|
            0 <= i < 16 && i != s.x() && i != FLAG_REGISTER ==> s.add_register().v[i] == s.v[i],
{
}

/// `8XY5` with `X` other than `F`: `VF` is 1 exactly where `VX >= VY`, so
/// where nothing is borrowed, and `VX` is the difference modulo 256.
pub proof fn subtract_borrows(s: MachineState)
    requires
        s.wf(),
        s.x() != FLAG_REGISTER,
    ensures
        s.subtract().v[FLAG_REGISTER as int] == 1 <==> s.vx() >= s.vy(),
        s.subtract().v[FLAG_REGISTER as int] == 0 <==> s.vx() < s.vy(),
        s.vx() >= s.vy() ==> s.subtract().v[s.x()] as int == s.vx() - s.vy(),
        s.vx() < s.vy() ==> s.subtract().v[s.x()] as int == s.vx() - s.vy() + 256,
        forall|i: int|
            0 <= i < 16 && i != s.x() && i != FLAG_REGISTER ==> s.subtract().v[i] == s.v[i],
{
}

/// `8XY7` with `X` other than `F`: `VF` is 1 exactly where `VY >= VX`, so
/// where nothing is borrowed, and `VX` is `VY - VX` modulo 256.
pub proof fn subtract_reversed_borrows(s: MachineState)
    requires
        s.wf(),
        s.x() != FLAG_REGISTER,
    ensures
        s.subtract_reversed().v[FLAG_REGISTER as int] == 1 <==> s.vy() >= s.vx(),
        s.subtract_reversed().v[FLAG_REGISTER as int] == 0 <==> s.vy() < s.vx(),
        s.vy() >= s.vx() ==> s.subtract_reversed().v[s.x()] as int == s.vy() - s.vx(),
        s.vy() < s.vx() ==> s.subtract_reversed().v[s.x()] as int == s.vy() - s.vx() + 256,
        forall|i: int|
            0 <= i < 16 && i != s.x() && i != FLAG_REGISTER ==> s.subtract_reversed().v[i]
                == s.v[i],
{
}

/// `8XY6` and `8XYE` with `X` other than `F`: `VF` is the bit that the shift
/// pushes out of `VX` as it was before the shift, and the old `VX` is the
/// new one with that bit put back.
pub proof fn shifts_keep_the_lost_bit(s: MachineState)
    requires
        s.wf(),
        s.x() != FLAG_REGISTER,
    ensures
        s.shift_right().v[FLAG_REGISTER as int] as int == s.vx() % 2,
        s.shift_right().v[s.x()] * 2 + s.shift_right().v[FLAG_REGISTER as int] == s.vx(),
        s.shift_left().v[FLAG_REGISTER as int] as int == s.vx() / 128,
        s.shift_left().v[s.x()] + 256 * s.shift_left().v[FLAG_REGISTER as int] == 2 * s.vx(),
{
}

/// `DXYN` run twice on the same operands, with neither `X` nor `Y` naming
/// `VF`: the screen is as it was before the first draw, and the second draw
/// sets `VF` exactly where the sprite covers a pixel that was off before the
/// first.
pub proof fn draw_twice_restores_screen(s: MachineState)
    requires
        s.wf(),
        s.x() != FLAG_REGISTER,
        s.y() != FLAG_REGISTER,
        s.draw() is Ok,
    ensures
        s.draw()->Ok_0.draw() is Ok,
        s.draw()->Ok_0.draw()->Ok_0.display == s.display,
        s.draw()->Ok_0.draw()->Ok_0.v[FLAG_REGISTER as int] == flag_of(
            exists|px: int, py: int|
                on_screen(px, py) && !lit(s.display, px, py) && #[trigger] sprite_covers(
                    s.sprite(),
                    s.vx() as int,
                    s.vy() as int,
                    px,
                    py,
                ),
        ),
{
    let once = s.draw()->Ok_0;
    assert(once.sprite() == s.sprite());
    assert(once.vx() == s.vx() && once.vy() == s.vy());
    drawing_twice_restores(s.display, s.vx() as int, s.vy() as int, s.sprite());
}

/// `FX65` gives back what `FX55` stored: where `t` has the memory that
/// `FX55` left and the same index and `X`, `FX65` sets `V0` to `VX` to the
/// values they had when they were stored, whatever the registers of `t`
/// hold, and leaves the registers above `VX` alone.
pub proof fn load_restores_stored(s: MachineState, t: MachineState)
    requires
        s.wf(),
        t.wf(),
        s.store_registers() is Ok,
        t.memory == s.store_registers()->Ok_0.memory,
        t.index == s.index,
        t.x() == s.x(),
    ensures
        t.load_registers() is Ok,
        forall|i: int| 0 <= i <= s.x() ==> t.load_registers()->Ok_0.v[i] == s.v[i],
        forall|i: int| s.x() < i < 16 ==> t.load_registers()->Ok_0.v[i] == t.v[i],
{
}

/// `FX55` followed by `FX65` with the same index and `X` leaves every
/// register as it was.
pub proof fn store_then_load_is_identity(s: MachineState)
    requires
        s.wf(),
        s.store_registers() is Ok,
    ensures
        s.store_registers()->Ok_0.load_registers() is Ok,
        s.store_registers()->Ok_0.load_registers()->Ok_0.v == s.v,
{
    let stored = s.store_registers()->Ok_0;
    load_restores_stored(s, stored);
    assert(stored.load_registers()->Ok_0.v =~= s.v);
}

/// `00EE` undoes `2NNN`: whatever ran in between, where the stack is again
/// as the call left it, the return puts the program counter back to where
/// it was when the call was executed, which is behind the call, and the
/// stack back to what it was.
pub proof fn return_undoes_call(s: MachineState, t: MachineState)
    requires
        s.stack.len() < STACK_DEPTH,
        t.stack == s.call()->Ok_0.stack,
    ensures
        s.call() is Ok,
        t.ret() is Ok,
        t.ret()->Ok_0.pc == s.pc,
        t.ret()->Ok_0.stack == s.stack,
{
    assert(s.stack.push(s.pc).drop_last() =~= s.stack);
}

/// A step that calls a subroutine whose first instruction is a return, and
/// the step after it: the program counter ends on the instruction behind the
/// call and the stack is as it was.
pub proof fn call_and_return_steps(s: MachineState, keys: Seq<bool>, first: u8, second: u8)
    requires
        s.wf(),
        s.run == RunState::Running,
        s.can_fetch(),
        decode_of(s.fetched().opcode) == Operation::Call,
        s.stack.len() < STACK_DEPTH,
        nnn_of(s.fetched().opcode) + 1 < MEMORY_SIZE,
        s.memory[nnn_of(s.fetched().opcode)] == 0x00,
        s.memory[nnn_of(s.fetched().opcode) + 1] == 0xEE,
    ensures
        s.step(keys, first).1 is Ok,
        s.step(keys, first).0.step(keys, second).1 is Ok,
        s.step(keys, first).0.step(keys, second).0.pc == s.pc + 2,
        s.step(keys, first).0.step(keys, second).0.stack == s.stack,
{
    let called = s.step(keys, first).0;
    assert(called == s.fetched().call()->Ok_0);
    assert(called.can_fetch());
    assert(word_of(0x00, 0xEE) == 0x00EE);
    assert(called.fetched().opcode == 0x00EEu16);
    return_undoes_call(s.fetched(), called.fetched());
}

/// Ticks add up: `a` ticks and then `b` ticks are `a + b` ticks, and no
/// timer goes below zero.
pub proof fn ticks_add_up(timers: TimerPair, a: int, b: int)
    requires
        0 <= a,
        0 <= b,
    ensures
        timers.after_ticks(a).after_ticks(b) == timers.after_ticks(a + b),
        timers.after_ticks(a).delay as int == if a >= timers.delay {
            0
        } else {
            timers.delay - a
        },
{
}

/// Time adds up: the timers do not depend on how the host cuts the time that
/// goes by into calls. Letting `a` and then `b` microseconds pass is letting
/// `a + b` pass.
pub proof fn time_adds_up(timers: TimerPair, a: u64, b: u64)
    requires
        a + b <= u64::MAX,
    ensures
        timers.after_micros(a).after_micros(b) == timers.after_micros((a + b) as u64),
{
    let m = FRACTION_PER_TICK as int;
    let first = timers.fraction as int + 60 * a;
    let q = first / m;
    let r = first % m;
    let whole = timers.fraction as int + 60 * (a + b);
    assert(whole == q * m + (r + 60 * b));
    assert(whole / m == q + (r + 60 * b) / m && whole % m == (r + 60 * b) % m) by {
        vstd::arithmetic::div_mod::lemma_fundamental_div_mod_converse(
            whole,
            m,
            q + (r + 60 * b) / m,
            (r + 60 * b) % m,
        );
    }
}

/// The two key mappings undo each other: a key code and the host key that
/// stands for it name each other, and every code up to `0xF` has a host key.
pub proof fn key_mappings_agree(code: u8, key: HostKey)
    ensures
        host_key_of(code) is Some <==> code <= 0xF,
        key_code_of(key) is Some <==> key != HostKey::Other,
        host_key_of(code) == Some(key) <==> key_code_of(key) == Some(code),
{
}

/// An instruction word selects `Unknown` only outside the instruction set:
/// in the `0` family but for `00E0` and `00EE`, and in the `8`, `E` and `F`
/// families where the last nibble or byte names nothing.
pub proof fn unknown_words(opcode: u16)
    ensures
        decode_of(opcode) == Operation::Unknown ==> {
            let lead = lead_of(opcode);
            lead == 0x0 || lead == 0x8 || lead == 0xE || lead == 0xF
        },
{
}

} // verus!
