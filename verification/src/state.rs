//! The mathematical model of the machine: its state as plain sequences, and
//! the effect of every instruction on it.

use vstd::prelude::*;
use crate::chip8_instruction_set::{decode_spec, Instruction, RawInstruction};

verus! {

pub const SCREEN_WIDTH: usize = 64;

pub const SCREEN_HEIGHT: usize = 32;

/// Number of bytes in the glyph table: sixteen glyphs of five rows each.
pub const GLYPH_BYTES: usize = 80;

/// Packed colour of an unlit pixel: opaque black.
pub const UNLIT_PIXEL: u32 = 0xFF00_0000;

/// The conditions that halt the machine.
#[derive(Debug, Clone, Copy, PartialEq, Eq, Structural)]
pub enum Fault {
    /// A return with no call to return from.
    StackUnderflow,
    /// A call with the call stack at its configured capacity.
    StackOverflow,
    /// A fetch, a read or a write beyond the configured memory, or an
    /// instruction pointer beyond what sixteen bits address.
    MemoryOutOfBounds,
    /// A key query for a key number above 15.
    KeyOutOfRange,
}

/// The state of the machine.
pub struct MachineState {
    pub memory: Seq<u8>,
    pub stack: Seq<u16>,
    pub stack_limit: nat,
    pub instruction_pointer: u16,
    pub registers: Seq<u8>,
    pub keys: Seq<bool>,
    /// The logical key that each mapped physical key stands for.
    pub keymap: Map<u64, u8>,
    pub address_register: u16,
    pub delay_timer: u8,
    pub sound_timer: u8,
    /// The logical pixels, row by row; `true` is lit.
    pub screen: Seq<bool>,
    pub display_scale: u32,
    /// Foreground colour as (alpha, red, green, blue).
    pub display_color: (u8, u8, u8, u8),
}

/// The built-in font: for each hexadecimal digit five rows of eight pixels.
pub open spec fn glyph_table() -> Seq<u8> {
    seq![
        0xf0u8, 0x90, 0x90, 0x90, 0xf0,
        0x20, 0x60, 0x20, 0x20, 0x70,
        0xf0, 0x10, 0xf0, 0x80, 0xf0,
        0xf0, 0x10, 0xf0, 0x10, 0xf0,
        0x90, 0x90, 0xf0, 0x10, 0x10,
        0xf0, 0x80, 0xf0, 0x10, 0xf0,
        0xf0, 0x80, 0xf0, 0x90, 0xf0,
        0xf0, 0x10, 0x20, 0x40, 0x40,
        0xf0, 0x90, 0xf0, 0x90, 0xf0,
        0xf0, 0x90, 0xf0, 0x10, 0xf0,
        0xf0, 0x90, 0xf0, 0x90, 0x90,
        0xe0, 0x90, 0xe0, 0x90, 0xe0,
        0xf0, 0x80, 0x80, 0x80, 0xf0,
        0xe0, 0x90, 0x90, 0x90, 0xe0,
        0xf0, 0x80, 0xf0, 0x80, 0xf0,
        0xf0, 0x80, 0xf0, 0x80, 0x80,
    ]
}

/// Whether column `col` of the sprite row `row` is lit: the leftmost column,
/// column 0, is the most significant bit.
pub open spec fn sprite_bit(row: u8, col: int) -> bool {
    if col == 0 {
        row / 128 % 2 == 1
    } else if col == 1 {
        row / 64 % 2 == 1
    } else if col == 2 {
        row / 32 % 2 == 1
    } else if col == 3 {
        row / 16 % 2 == 1
    } else if col == 4 {
        row / 8 % 2 == 1
    } else if col == 5 {
        row / 4 % 2 == 1
    } else if col == 6 {
        row / 2 % 2 == 1
    } else {
        row % 2 == 1
    }
}

/// The lowest pressed key at or above `from`.
pub open spec fn lowest_pressed(keys: Seq<bool>, from: int) -> Option<u8>
    decreases keys.len() - from,
{
    if from < 0 || from >= keys.len() {
        None
    } else if keys[from] {
        Some(from as u8)
    } else {
        lowest_pressed(keys, from + 1)
    }
}

/// Every mapped physical key stands for one of the sixteen logical keys.
pub open spec fn maps_to_logical_keys(keymap: Map<u64, u8>) -> bool {
    forall|physical: u64| #[trigger] keymap.contains_key(physical) ==> keymap[physical] < 16
}

/// The packed 32-bit value of a colour given as (alpha, red, green, blue).
pub open spec fn packed_color(color: (u8, u8, u8, u8)) -> u32 {
    (color.0 * 0x100_0000 + color.1 * 0x1_0000 + color.2 * 0x100 + color.3) as u32
}

impl MachineState {
    /// The shape that every state has: sixteen registers, sixteen keys, a
    /// key map into those sixteen, a full logical screen, and a call stack
    /// within its capacity.
    pub open spec fn valid(self) -> bool {
        &&& self.registers.len() == 16
        &&& self.keys.len() == 16
        &&& maps_to_logical_keys(self.keymap)
        &&& self.screen.len() == SCREEN_WIDTH * SCREEN_HEIGHT
        &&& self.stack.len() <= self.stack_limit
    }

    pub open spec fn reg(self, x: u8) -> u8 {
        self.registers[x as int]
    }

    pub open spec fn with_reg(self, x: u8, value: u8) -> MachineState {
        MachineState { registers: self.registers.update(x as int, value), ..self }
    }

    /// The state with the flag register, register 15, set to `value`.
    pub open spec fn with_flag(self, value: u8) -> MachineState {
        self.with_reg(0xF, value)
    }

    pub open spec fn with_address_register(self, value: int) -> MachineState {
        MachineState { address_register: (value % 0x1_0000) as u16, ..self }
    }

    /// The state with the instruction pointer at `target`, which must fit
    /// sixteen bits.
    pub open spec fn moved_to(self, target: int) -> Result<MachineState, Fault> {
        if 0 <= target <= 0xFFFF {
            Ok(MachineState { instruction_pointer: target as u16, ..self })
        } else {
            Err(Fault::MemoryOutOfBounds)
        }
    }

    /// The state with the instruction pointer at the next instruction.
    pub open spec fn advanced(self) -> Result<MachineState, Fault> {
        self.moved_to(self.instruction_pointer + 2)
    }

    /// The state with the instruction pointer past the next instruction where
    /// `condition` holds, and at the next instruction otherwise.
    pub open spec fn skipped(self, condition: bool) -> Result<MachineState, Fault> {
        self.moved_to(
            if condition {
                self.instruction_pointer + 4
            } else {
                self.instruction_pointer + 2
            },
        )
    }

    /// The word at the instruction pointer, where memory holds one.
    pub open spec fn fetched(self) -> Option<RawInstruction> {
        if self.instruction_pointer + 1 < self.memory.len() {
            Some(
                (
                    self.memory[self.instruction_pointer as int],
                    self.memory[self.instruction_pointer + 1],
                ),
            )
        } else {
            None
        }
    }

    /// The pixel at column `px` and row `py` after a sprite of `height` rows,
    /// read from memory at the address register, was drawn with its top left
    /// corner at (`x0`, `y0`). Rows wrap at 256; columns do not wrap. A pixel
    /// that the sprite covers takes the sprite's bit, lit or unlit; every
    /// other pixel stays.
    pub open spec fn pixel_after_draw(self, px: int, py: int, x0: u8, y0: u8, height: u8) -> bool {
        let row = (py - y0) % 256;
        let col = px - x0;
        if 0 <= col < 8 && row < height {
            sprite_bit(self.memory[self.address_register + row], col)
        } else {
            self.screen[py * SCREEN_WIDTH + px]
        }
    }

    /// The pixel at column `px` and row `py` while the sprite is being drawn:
    /// `rows_done` rows are complete, and `cols_done` columns of the next.
    pub open spec fn pixel_during_draw(
        self,
        px: int,
        py: int,
        x0: u8,
        y0: u8,
        height: u8,
        rows_done: int,
        cols_done: int,
    ) -> bool {
        let row = (py - y0) % 256;
        let col = px - x0;
        if 0 <= col < 8 && row < height && (row < rows_done || (row == rows_done && col < cols_done)) {
            sprite_bit(self.memory[self.address_register + row], col)
        } else {
            self.screen[py * SCREEN_WIDTH + px]
        }
    }

    pub open spec fn screen_after_draw(self, x0: u8, y0: u8, height: u8) -> Seq<bool> {
        Seq::new(
            (SCREEN_WIDTH * SCREEN_HEIGHT) as nat,
            |k: int| self.pixel_after_draw(k % (SCREEN_WIDTH as int), k / (SCREEN_WIDTH as int), x0, y0, height),
        )
    }

    /// Memory after registers 0 to `last` were stored at the address register.
    pub open spec fn memory_after_store(self, last: u8) -> Seq<u8> {
        Seq::new(
            self.memory.len(),
            |k: int|
                if self.address_register <= k <= self.address_register + last {
                    self.registers[k - self.address_register]
                } else {
                    self.memory[k]
                },
        )
    }

    /// The registers after registers 0 to `last` were filled from memory at
    /// the address register.
    pub open spec fn registers_after_fill(self, last: u8) -> Seq<u8> {
        Seq::new(
            16,
            |k: int|
                if k <= last {
                    self.memory[self.address_register + k]
                } else {
                    self.registers[k]
                },
        )
    }

    /// The state after `instruction` was executed and the instruction pointer
    /// moved on, or the fault that halts the machine. `random` is the byte
    /// that the random source gave.
    pub open spec fn execute_spec(self, instruction: Instruction, random: u8) -> Result<MachineState, Fault> {
        let ip = self.instruction_pointer;
        let i_reg = self.address_register;
        match instruction {
            Instruction::ExecSubroutineML(_) => self.advanced(),
            Instruction::ClearScreen => MachineState {
                screen: Seq::new((SCREEN_WIDTH * SCREEN_HEIGHT) as nat, |k: int| false),
                ..self
            }.advanced(),
            Instruction::ReturnFromSubroutine => if self.stack.len() == 0 {
                Err(Fault::StackUnderflow)
            } else {
                MachineState { stack: self.stack.drop_last(), ..self }.moved_to(self.stack.last() + 2)
            },
            Instruction::JumpToAddress(addr) => self.moved_to(addr as int),
            Instruction::ExecSubroutine(addr) => if self.stack.len() >= self.stack_limit {
                Err(Fault::StackOverflow)
            } else {
                MachineState { stack: self.stack.push(ip), ..self }.moved_to(addr as int)
            },
            Instruction::SkipFollowingIfRegEq(x, value) => self.skipped(self.reg(x) == value),
            Instruction::SkipFollowingIfRegNeq(x, value) => self.skipped(self.reg(x) != value),
            Instruction::SkipFollowingIfRegEqReg(x, y) => self.skipped(self.reg(x) == self.reg(y)),
            Instruction::StoreToReg(x, value) => self.with_reg(x, value).advanced(),
            Instruction::AddToReg(x, value) => self.with_reg(x, ((self.reg(x) + value) % 256) as u8).advanced(),
            Instruction::MoveValue(x, y) => self.with_reg(x, self.reg(y)).advanced(),
            Instruction::OrRegister(x, y) => self.with_reg(x, self.reg(x) | self.reg(y)).advanced(),
            Instruction::AndRegister(x, y) => self.with_reg(x, self.reg(x) & self.reg(y)).advanced(),
            Instruction::XorRegister(x, y) => self.with_reg(x, self.reg(x) ^ self.reg(y)).advanced(),
            Instruction::AddWithCarry(x, y) => {
                let sum = self.reg(x) + self.reg(y);
                self.with_reg(x, (sum % 256) as u8).with_flag(if sum > 255 { 1 } else { 0 }).advanced()
            },
            Instruction::SubWithCarry(x, y) => {
                let difference = self.reg(x) - self.reg(y);
                self.with_reg(x, (difference % 256) as u8).with_flag(if difference < 0 { 0 } else { 1 }).advanced()
            },
            Instruction::ShiftRight(x, y) => {
                let value = self.reg(y);
                self.with_reg(x, value / 2).with_flag(value % 2).advanced()
            },
            Instruction::SubWithCarry2(x, y) => {
                let difference = self.reg(y) - self.reg(x);
                self.with_reg(x, (difference % 256) as u8).with_flag(if difference < 0 { 0 } else { 1 }).advanced()
            },
            Instruction::ShiftLeft(x, y) => {
                let value = self.reg(y);
                self.with_reg(x, ((value * 2) % 256) as u8).with_flag(value / 128).advanced()
            },
            Instruction::SkipIfNE(x, y) => self.skipped(self.reg(x) != self.reg(y)),
            Instruction::StoreAddressToI(addr) => self.with_address_register(addr as int).advanced(),
            Instruction::JumpWithOffset(addr) => self.moved_to(addr + self.reg(0)),
            Instruction::RandWithMask(x, mask) => self.with_reg(x, random & mask).advanced(),
            Instruction::DrawSprite(x, y, height) => if i_reg + height > self.memory.len() {
                Err(Fault::MemoryOutOfBounds)
            } else {
                MachineState {
                    screen: self.screen_after_draw(self.reg(x), self.reg(y), height),
                    ..self
                }.advanced()
            },
            Instruction::SkipIfKeyPressed(x) => if self.reg(x) >= 16 {
                Err(Fault::KeyOutOfRange)
            } else {
                self.skipped(self.keys[self.reg(x) as int])
            },
            Instruction::SkipIfKeyNotPressed(x) => if self.reg(x) >= 16 {
                Err(Fault::KeyOutOfRange)
            } else {
                self.skipped(!self.keys[self.reg(x) as int])
            },
            Instruction::ReadDelayTimer(x) => self.with_reg(x, self.delay_timer).advanced(),
            Instruction::WaitForKey(x) => match lowest_pressed(self.keys, 0) {
                Some(key) => self.with_reg(x, key).advanced(),
                None => Ok(self),
            },
            Instruction::WriteDelayTimer(x) => MachineState { delay_timer: self.reg(x), ..self }.advanced(),
            Instruction::WriteSoundTimer(x) => MachineState { sound_timer: self.reg(x), ..self }.advanced(),
            Instruction::IncrementIWithReg(x) => self.with_address_register(i_reg + self.reg(x)).advanced(),
            Instruction::GetSpriteDataAddress(x) => self.with_address_register(self.reg(x) * 5).advanced(),
            Instruction::StoreBCD(x) => if i_reg + 2 >= self.memory.len() {
                Err(Fault::MemoryOutOfBounds)
            } else {
                let value = self.reg(x);
                MachineState {
                    memory: self.memory.update(i_reg as int, value / 100).update(
                        i_reg + 1,
                        (value / 10) % 10,
                    ).update(i_reg + 2, value % 10),
                    ..self
                }.advanced()
            },
            Instruction::StoreRegisters(last) => if i_reg + last >= self.memory.len() {
                Err(Fault::MemoryOutOfBounds)
            } else {
                MachineState { memory: self.memory_after_store(last), ..self }.with_address_register(
                    i_reg + last + 1,
                ).advanced()
            },
            Instruction::FillRegisters(last) => if i_reg + last >= self.memory.len() {
                Err(Fault::MemoryOutOfBounds)
            } else {
                MachineState { registers: self.registers_after_fill(last), ..self }.with_address_register(
                    i_reg + last + 1,
                ).advanced()
            },
        }
    }

    /// The state after one fetch, decode and execute cycle. A word that is no
    /// instruction only moves the instruction pointer on.
    pub open spec fn step_spec(self, random: u8) -> Result<MachineState, Fault> {
        match self.fetched() {
            None => Err(Fault::MemoryOutOfBounds),
            Some(raw) => match decode_spec(raw) {
                None => self.advanced(),
                Some(instruction) => self.execute_spec(instruction, random),
            },
        }
    }

    /// The state after one step for each byte of `randoms`, in order, each
    /// step taking its byte as what the random source gave.
    pub open spec fn run_spec(self, randoms: Seq<u8>) -> Result<MachineState, Fault>
        decreases randoms.len(),
    {
        if randoms.len() == 0 {
            Ok(self)
        } else {
            match self.step_spec(randoms[0]) {
                Ok(next) => next.run_spec(randoms.skip(1)),
                Err(fault) => Err(fault),
            }
        }
    }

    /// The state after the logical key `key` went down or up.
    pub open spec fn with_key(self, key: u8, pressed: bool) -> MachineState {
        MachineState { keys: self.keys.update(key as int, pressed), ..self }
    }

    /// The state after the physical key `physical` went down or up: the
    /// logical key that it is mapped to follows, and an unmapped key changes
    /// nothing.
    pub open spec fn with_physical_key(self, physical: u64, pressed: bool) -> MachineState {
        if self.keymap.contains_key(physical) {
            self.with_key(self.keymap[physical], pressed)
        } else {
            self
        }
    }

    /// The state after a tick of the external timer clock.
    pub open spec fn after_timer_tick(self) -> MachineState {
        MachineState {
            delay_timer: if self.delay_timer > 0 {
                (self.delay_timer - 1) as u8
            } else {
                0
            },
            ..self
        }
    }

    /// Memory after a load: the glyph table at the lowest addresses, the
    /// program from 0x200 on, and zero everywhere else.
    pub open spec fn memory_after_load(self, program: Seq<u8>) -> Seq<u8> {
        Seq::new(
            self.memory.len(),
            |k: int|
                if k < GLYPH_BYTES {
                    glyph_table()[k]
                } else if 0x200 <= k < 0x200 + program.len() {
                    program[k - 0x200]
                } else {
                    0u8
                },
        )
    }

    /// The state after `program` was loaded: everything reset but the keypad
    /// and the configuration.
    pub open spec fn loaded(self, program: Seq<u8>) -> MachineState {
        MachineState {
            memory: self.memory_after_load(program),
            stack: Seq::empty(),
            instruction_pointer: 0x200,
            registers: Seq::new(16, |k: int| 0u8),
            address_register: 0,
            delay_timer: 0,
            sound_timer: 0,
            screen: Seq::new((SCREEN_WIDTH * SCREEN_HEIGHT) as nat, |k: int| false),
            ..self
        }
    }

    /// The packed value of pixel `k` of the scaled screen, counted row by
    /// row: the colour of the logical pixel that it lies in.
    pub open spec fn rendered_pixel(self, k: int) -> u32 {
        let width = SCREEN_WIDTH * self.display_scale;
        let column = (k % width) / (self.display_scale as int);
        let row = (k / width) / (self.display_scale as int);
        if self.screen[row * SCREEN_WIDTH + column] {
            packed_color(self.display_color)
        } else {
            UNLIT_PIXEL
        }
    }

    /// The packed pixels that the host presents: each logical pixel scaled to
    /// a square of `display_scale` pixels, row by row.
    pub open spec fn rendered(self) -> Seq<u32> {
        Seq::new(
            ((SCREEN_WIDTH * self.display_scale) * (SCREEN_HEIGHT * self.display_scale)) as nat,
            |k: int| self.rendered_pixel(k),
        )
    }

    /// The number of whole two-byte slots from 0x200 to the end of memory.
    pub open spec fn slot_count(self) -> nat {
        if self.memory.len() <= 0x200 {
            0
        } else {
            ((self.memory.len() - 0x200) / 2) as nat
        }
    }

    /// The decode result of every two-byte slot from 0x200 to the end of
    /// memory.
    pub open spec fn disassembly(self) -> Seq<Option<Instruction>> {
        Seq::new(
            self.slot_count(),
            |j: int| decode_spec((self.memory[0x200 + 2 * j], self.memory[0x200 + 2 * j + 1])),
        )
    }
}

} // verus!
