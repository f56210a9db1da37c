//! Laws of the machine: what holds of every state, and of loading, stepping
//! and the bulk register transfers taken together.

use vstd::prelude::*;
use crate::chip8_instruction_set::{decode_spec, Instruction};
use crate::state::{glyph_table, lowest_pressed, Fault, MachineState, GLYPH_BYTES, SCREEN_HEIGHT, SCREEN_WIDTH};

verus! {

/// The instructions that report a carry, a borrow or a shifted-out bit in the
/// flag register.
pub open spec fn sets_flag(instruction: Instruction) -> bool {
    ||| instruction is AddWithCarry
    ||| instruction is SubWithCarry
    ||| instruction is ShiftRight
    ||| instruction is SubWithCarry2
    ||| instruction is ShiftLeft
}

/// No key of the keypad is pressed.
pub open spec fn no_key_pressed(keys: Seq<bool>) -> bool {
    forall|k: int| 0 <= k < keys.len() ==> !#[trigger] keys[k]
}

/// The word at the instruction pointer of `s` is the instruction that waits
/// for a key and writes it to register `x`.
pub open spec fn waits_for_key(s: MachineState, x: u8) -> bool {
    s.fetched() matches Some(raw) && decode_spec(raw) == Some(Instruction::WaitForKey(x))
}

/// Executing an instruction keeps the shape of the state: sixteen registers,
/// sixteen keys, a full screen, and a call stack within its capacity.
pub proof fn lemma_execute_preserves_valid(s: MachineState, instruction: Instruction, random: u8)
    requires
        s.valid(),
        instruction.well_formed(),
    ensures
        s.execute_spec(instruction, random) matches Ok(next) ==> next.valid(),
{
}

/// A step keeps the shape of the state, whatever word it fetched.
pub proof fn lemma_step_preserves_valid(s: MachineState, random: u8)
    requires
        s.valid(),
    ensures
        s.step_spec(random) matches Ok(next) ==> next.valid(),
{
    match s.fetched() {
        Some(raw) => {
            crate::chip8_instruction_set::lemma_encoding_of_decode(raw);
            match decode_spec(raw) {
                Some(instruction) => lemma_execute_preserves_valid(s, instruction, random),
                None => {},
            }
        },
        None => {},
    }
}

/// An instruction that reports in the flag register leaves exactly 0 or 1
/// there, whatever the register held before.
pub proof fn lemma_flag_is_bit(s: MachineState, instruction: Instruction, random: u8)
    requires
        s.valid(),
        instruction.well_formed(),
        sets_flag(instruction),
    ensures
        s.execute_spec(instruction, random) matches Ok(next) ==> next.reg(0xF) == 0 || next.reg(0xF) == 1,
{
}

/// Only the random-with-mask instruction looks at the random byte: a step
/// that fetches anything else ends the same whatever byte the source gave.
pub proof fn lemma_step_ignores_random(s: MachineState, first: u8, second: u8)
    requires
        !(s.fetched() matches Some(raw) && decode_spec(raw) matches Some(instruction)
            && instruction is RandWithMask),
    ensures
        s.step_spec(first) == s.step_spec(second),
{
}

/// A step changes neither the size of memory, nor the capacity of the call
/// stack, nor the keypad, nor the display configuration.
pub proof fn lemma_step_keeps_configuration(s: MachineState, random: u8)
    requires
        s.valid(),
    ensures
        s.step_spec(random) matches Ok(next) ==> {
            &&& next.memory.len() == s.memory.len()
            &&& next.stack_limit == s.stack_limit
            &&& next.keys == s.keys
            &&& next.keymap == s.keymap
            &&& next.display_scale == s.display_scale
            &&& next.display_color == s.display_color
        },
{
    match s.fetched() {
        Some(raw) => match decode_spec(raw) {
            Some(instruction) => lemma_execute_keeps_configuration(s, instruction, random),
            None => {},
        },
        None => {},
    }
}

/// Executing an instruction changes neither the size of memory, nor the
/// capacity of the call stack, nor the keypad, nor the display configuration.
pub proof fn lemma_execute_keeps_configuration(s: MachineState, instruction: Instruction, random: u8)
    ensures
        s.execute_spec(instruction, random) matches Ok(next) ==> {
            &&& next.memory.len() == s.memory.len()
            &&& next.stack_limit == s.stack_limit
            &&& next.keys == s.keys
            &&& next.keymap == s.keymap
            &&& next.display_scale == s.display_scale
            &&& next.display_color == s.display_color
        },
{
}

/// A step writes memory only where the address register points: at it and at
/// the fifteen bytes that follow. With the address register at or above 80
/// the glyph table stays as it is.
pub proof fn lemma_step_writes_at_address_register(s: MachineState, random: u8)
    requires
        s.valid(),
    ensures
        s.step_spec(random) matches Ok(next) ==> forall|k: int|
            0 <= k < s.memory.len() && !(s.address_register <= k < s.address_register + 16)
                ==> #[trigger] next.memory[k] == s.memory[k],
{
    match s.fetched() {
        Some(raw) => {
            crate::chip8_instruction_set::lemma_encoding_of_decode(raw);
        },
        None => {},
    }
}

/// A call followed at once by a return comes back to the instruction after
/// the call, with the call stack as it was before.
pub proof fn lemma_call_then_return(s: MachineState, target: u16, random: u8)
    requires
        s.valid(),
        s.stack.len() < s.stack_limit,
        s.instruction_pointer + 2 <= 0xFFFF,
    ensures
        s.execute_spec(Instruction::ExecSubroutine(target), random) matches Ok(called) && {
            &&& called.instruction_pointer == target
            &&& called.stack == s.stack.push(s.instruction_pointer)
            &&& called.execute_spec(Instruction::ReturnFromSubroutine, random) == Ok::<MachineState, Fault>(
                MachineState { instruction_pointer: (s.instruction_pointer + 2) as u16, ..s },
            )
        },
{
    assert(s.stack.push(s.instruction_pointer).drop_last() =~= s.stack);
}

/// The delay timer never wraps: a tick of the timer clock takes one from a
/// timer above zero and leaves a timer at zero there, and touches nothing
/// else.
pub proof fn lemma_timer_saturates(s: MachineState)
    ensures
        s.after_timer_tick().delay_timer == if s.delay_timer == 0 {
            0
        } else {
            s.delay_timer - 1
        },
        s.after_timer_tick().delay_timer <= s.delay_timer,
        s.after_timer_tick() == (MachineState { delay_timer: s.after_timer_tick().delay_timer, ..s }),
{
}

/// A load resets the machine whatever state it was in: the pointer is at
/// 0x200, registers, timers and the address register are zero, the call stack
/// is empty, the screen is unlit, the first 80 bytes of memory are the glyph
/// table and the program follows from 0x200.
pub proof fn lemma_load_resets(s: MachineState, program: Seq<u8>)
    requires
        s.valid(),
        0x200 + program.len() <= s.memory.len(),
    ensures
        s.loaded(program).valid(),
        s.loaded(program).instruction_pointer == 0x200,
        s.loaded(program).address_register == 0,
        s.loaded(program).delay_timer == 0,
        s.loaded(program).sound_timer == 0,
        s.loaded(program).stack.len() == 0,
        forall|x: u8| x < 16 ==> s.loaded(program).reg(x) == 0,
        forall|k: int| 0 <= k < SCREEN_WIDTH * SCREEN_HEIGHT ==> !#[trigger] s.loaded(program).screen[k],
        s.loaded(program).memory.len() == s.memory.len(),
        s.loaded(program).memory.subrange(0, GLYPH_BYTES as int) == glyph_table(),
        s.loaded(program).memory.subrange(0x200, 0x200 + program.len() as int) == program,
        s.loaded(program).keys == s.keys,
        s.loaded(program).keymap == s.keymap,
{
    let t = s.loaded(program);
    assert(t.memory.subrange(0, GLYPH_BYTES as int) =~= glyph_table());
    assert(t.memory.subrange(0x200, 0x200 + program.len() as int) =~= program);
}

/// Stepping through zero words only moves the instruction pointer: after one
/// step for each of `randoms.len()` zero words, the pointer has advanced by
/// two for each and nothing else has changed.
pub proof fn lemma_zero_words_only_advance(s: MachineState, randoms: Seq<u8>)
    requires
        s.valid(),
        s.instruction_pointer + 2 * randoms.len() <= 0xFFFF,
        s.instruction_pointer + 2 * randoms.len() <= s.memory.len(),
        forall|k: int|
            s.instruction_pointer <= k < s.instruction_pointer + 2 * randoms.len() ==> #[trigger] s.memory[k] == 0,
    ensures
        s.run_spec(randoms) == Ok::<MachineState, Fault>(
            MachineState { instruction_pointer: (s.instruction_pointer + 2 * randoms.len()) as u16, ..s },
        ),
    decreases randoms.len(),
{
    if randoms.len() == 0 {
        assert(s == MachineState { instruction_pointer: s.instruction_pointer, ..s });
    } else {
        let ip = s.instruction_pointer as int;
        assert(s.memory[ip] == 0 && s.memory[ip + 1] == 0);
        assert(decode_spec((0u8, 0u8)) == Some(Instruction::ExecSubroutineML(0)));
        let next = MachineState { instruction_pointer: (ip + 2) as u16, ..s };
        assert(s.step_spec(randoms[0]) == Ok::<MachineState, Fault>(next));
        lemma_zero_words_only_advance(next, randoms.skip(1));
    }
}

/// Where a key at or above `from` is pressed and none between `from` and it,
/// it is the lowest pressed key from `from` on; where none is pressed there is
/// no such key.
pub proof fn lemma_lowest_pressed(keys: Seq<bool>, from: int, key: int)
    requires
        0 <= from <= key <= keys.len(),
        keys.len() <= 256,
        forall|j: int| from <= j < key ==> !#[trigger] keys[j],
        key < keys.len() ==> keys[key],
    ensures
        lowest_pressed(keys, from) == if key < keys.len() {
            Some(key as u8)
        } else {
            None
        },
    decreases key - from,
{
    if from < key {
        lemma_lowest_pressed(keys, from + 1, key);
    }
}

/// With no key pressed the machine stays at a wait for a key: however many
/// steps it takes, nothing changes.
pub proof fn lemma_wait_for_key_blocks(s: MachineState, x: u8, randoms: Seq<u8>)
    requires
        s.valid(),
        waits_for_key(s, x),
        no_key_pressed(s.keys),
    ensures
        s.run_spec(randoms) == Ok::<MachineState, Fault>(s),
    decreases randoms.len(),
{
    if randoms.len() > 0 {
        lemma_lowest_pressed(s.keys, 0, 16);
        assert(s.step_spec(randoms[0]) == Ok::<MachineState, Fault>(s));
        lemma_wait_for_key_blocks(s, x, randoms.skip(1));
    }
}

/// With a key pressed a wait for a key ends in one step: the lowest pressed
/// key is written to the destination register and the pointer moves past the
/// instruction.
pub proof fn lemma_wait_for_key_takes_lowest(s: MachineState, x: u8, key: u8, random: u8)
    requires
        s.valid(),
        waits_for_key(s, x),
        key < 16,
        s.keys[key as int],
        forall|j: int| 0 <= j < key ==> !#[trigger] s.keys[j],
        s.instruction_pointer + 2 <= 0xFFFF,
    ensures
        s.step_spec(random) == Ok::<MachineState, Fault>(
            MachineState {
                registers: s.registers.update(x as int, key),
                instruction_pointer: (s.instruction_pointer + 2) as u16,
                ..s
            },
        ),
{
    lemma_lowest_pressed(s.keys, 0, key as int);
}

/// Storing registers 0 to `last` at the address register and filling them
/// again from the same address, into any register file, gives the stored
/// values back; each of the two leaves the address register `last + 1` past
/// where it was.
pub proof fn lemma_store_fill_round_trip(s: MachineState, last: u8, scratch: Seq<u8>, random: u8)
    requires
        s.valid(),
        last < 16,
        scratch.len() == 16,
        s.address_register + last < s.memory.len(),
        s.address_register + last + 1 <= 0xFFFF,
        s.instruction_pointer + 4 <= 0xFFFF,
    ensures
        s.execute_spec(Instruction::StoreRegisters(last), random) matches Ok(stored) && {
            &&& stored.address_register == s.address_register + last + 1
            &&& stored.registers == s.registers
            &&& (MachineState {
                registers: scratch,
                address_register: s.address_register,
                ..stored
            }).execute_spec(Instruction::FillRegisters(last), random) matches Ok(filled) && {
                &&& filled.address_register == s.address_register + last + 1
                &&& forall|k: int| 0 <= k <= last ==> #[trigger] filled.registers[k] == s.registers[k]
                &&& forall|k: int| last < k < 16 ==> #[trigger] filled.registers[k] == scratch[k]
            }
        },
{
}

} // verus!
