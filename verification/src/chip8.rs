//! The execution engine: the machine's state and the operations that the host
//! drives it with.

use vstd::prelude::*;
use std::collections::HashMap;
use rand::Rng;
use vstd::arithmetic::div_mod::lemma_fundamental_div_mod_converse;
use crate::chip8_instruction_set::{Address, Instruction, RawInstruction};
use crate::cli::CliColor;
use crate::state::{
    glyph_table, lowest_pressed, maps_to_logical_keys, packed_color, sprite_bit, Fault, MachineState, GLYPH_BYTES,
    SCREEN_HEIGHT, SCREEN_WIDTH, UNLIT_PIXEL,
};

verus! {

broadcast use vstd::std_specs::hash::group_hash_axioms;

pub struct Chip8 {
    screen: Vec<bool>,
    display_color: CliColor,
    display_scale: u32,
    memory: Vec<u8>,
    stack_memory: Vec<Address>,
    stack_limit: usize,
    instruction_pointer: Address,
    registers: [u8; 16],
    keys: [bool; 16],
    address_register: Address,
    delay_timer: u8,
    sound_timer: u8,
    keymap: HashMap<u64, u8>,
}

/// The scale factors whose screen the machine can hold: the scaled width fits
/// a signed 32-bit number, and the scaled pixel count fits `usize`.
pub open spec fn scale_fits(display_scale: u32) -> bool {
    &&& SCREEN_WIDTH * display_scale <= i32::MAX
    &&& SCREEN_WIDTH * SCREEN_HEIGHT * display_scale * display_scale <= usize::MAX
}

/// How a call that returns `result` and leaves the machine in `post` matches
/// `expected`: on success the machine is in the expected state, and on a fault
/// that fault is returned and the machine is as it was, `pre`.
pub open spec fn outcome_matches(
    pre: MachineState,
    expected: Result<MachineState, Fault>,
    post: MachineState,
    result: Result<(), Fault>,
) -> bool {
    match expected {
        Ok(state) => result is Ok && post == state,
        Err(fault) => result == Err::<(), Fault>(fault) && post == pre,
    }
}

/// One byte from the random source: `Rng::gen::<u8>` on `rand::thread_rng()`,
/// the generator that each thread seeds from the operating system. The byte
/// differs from call to call, so nothing is claimed of it: what uses it is
/// verified for every byte.
#[verifier::external_body]
fn random_byte() -> (byte: u8) {
    rand::thread_rng().gen::<u8>()
}

/// The difference of two bytes modulo 256.
fn wrapping_difference(minuend: u8, subtrahend: u8) -> (difference: u8)
    ensures
        difference == (minuend - subtrahend) % 256,
{
    if minuend >= subtrahend {
        minuend - subtrahend
    } else {
        (256 + minuend as u16 - subtrahend as u16) as u8
    }
}

/// The screen row `ky` is where row `row` of a sprite drawn from `y0` lands
/// exactly if `row` is the distance from `y0` up to `ky`, counted modulo 256.
proof fn lemma_row_of_pixel(ky: int, y0: u8, row: int)
    requires
        0 <= ky < 256,
        0 <= row < 256,
    ensures
        ((ky - y0) % 256 == row) <==> (ky == (y0 + row) % 256),
{
}

/// Whether column `col` of a sprite row is lit.
fn sprite_bit_of(row: u8, col: u8) -> (lit: bool)
    requires
        col < 8,
    ensures
        lit == sprite_bit(row, col as int),
{
    let shifted: u8 = if col == 0 {
        row / 128
    } else if col == 1 {
        row / 64
    } else if col == 2 {
        row / 32
    } else if col == 3 {
        row / 16
    } else if col == 4 {
        row / 8
    } else if col == 5 {
        row / 4
    } else if col == 6 {
        row / 2
    } else {
        row
    };
    shifted % 2 == 1
}

/// The packed 32-bit value of a colour.
fn pack_color(color: &CliColor) -> (packed: u32)
    ensures
        packed == packed_color(color@),
{
    let (a, r, g, b) = color.channels();
    (a as u32) * 0x100_0000 + (r as u32) * 0x1_0000 + (g as u32) * 0x100 + (b as u32)
}

fn zeroed_memory(len: usize) -> (memory: Vec<u8>)
    ensures
        memory@ == Seq::new(len as nat, |k: int| 0u8),
{
    let memory = vec![0u8; len];
    assert(memory@ =~= Seq::new(len as nat, |k: int| 0u8));
    memory
}

fn unlit_screen() -> (screen: Vec<bool>)
    ensures
        screen@ == Seq::new((SCREEN_WIDTH * SCREEN_HEIGHT) as nat, |k: int| false),
{
    let screen = vec![false; SCREEN_WIDTH * SCREEN_HEIGHT];
    assert(screen@ =~= Seq::new((SCREEN_WIDTH * SCREEN_HEIGHT) as nat, |k: int| false));
    screen
}

fn glyph_byte(index: usize) -> (byte: u8)
    requires
        index < GLYPH_BYTES,
    ensures
        byte == glyph_table()[index as int],
{
    let table: [u8; 80] = [
        0xf0, 0x90, 0x90, 0x90, 0xf0,
        0x20, 0x60, 0x20, 0x20, 0x70,
        0xf0, 0x10, 0xf0, 0x80, 0xf0,
        0xf0, 0x10, 0xf0, 0x10, 0xf0,
        0x90, 0x90, 0xf0, 0x10, 0x10,
        0xf0, 0x80, 0xf0, 0x10, 0xf0,
        0xf0, 0x80, 0xf0, 0x90, 0xf0,
        0xf0, 0x10, 0x20, 0x40, 0x40,
        0xf0, 0x90, 0xf0, 0x90, 0xf0,
        0xf0, 0x90, 0xf0, 0x10, 0xf0,
        0xf0, 0x90, 0xf0, 0x90, 0x90,
        0xe0, 0x90, 0xe0, 0x90, 0xe0,
        0xf0, 0x80, 0x80, 0x80, 0xf0,
        0xe0, 0x90, 0x90, 0x90, 0xe0,
        0xf0, 0x80, 0xf0, 0x80, 0xf0,
        0xf0, 0x80, 0xf0, 0x80, 0x80,
    ];
    table[index]
}

impl Chip8 {
    /// The machine's state as the model sees it.
    pub closed spec fn view(&self) -> MachineState {
        MachineState {
            memory: self.memory@,
            stack: self.stack_memory@,
            stack_limit: self.stack_limit as nat,
            instruction_pointer: self.instruction_pointer,
            registers: self.registers@,
            keys: self.keys@,
            keymap: self.keymap@,
            address_register: self.address_register,
            delay_timer: self.delay_timer,
            sound_timer: self.sound_timer,
            screen: self.screen@,
            display_scale: self.display_scale,
            display_color: self.display_color@,
        }
    }

    /// The machine's invariant: its state has the shape of every state, and
    /// its scale factor is one that it can render.
    pub open spec fn wf(&self) -> bool {
        &&& self@.valid()
        &&& scale_fits(self@.display_scale)
    }

    /// A machine with `memory` bytes of zeroed memory, an empty call stack that
    /// holds up to `stack_memory` return addresses, and the instruction
    /// pointer at 0x200. `keymap` gives for each physical key of the host, by
    /// its number, the logical key from 0 to 15 that it stands for.
    pub fn new(
        memory: usize,
        stack_memory: usize,
        display_scale: u32,
        display_color: CliColor,
        keymap: HashMap<u64, u8>,
    ) -> (machine: Self)
        requires
            scale_fits(display_scale),
            maps_to_logical_keys(keymap@),
        ensures
            machine.wf(),
            machine@ == (MachineState {
                memory: Seq::new(memory as nat, |k: int| 0u8),
                stack: Seq::empty(),
                stack_limit: stack_memory as nat,
                instruction_pointer: 0x200,
                registers: Seq::new(16, |k: int| 0u8),
                keys: Seq::new(16, |k: int| false),
                keymap: keymap@,
                address_register: 0,
                delay_timer: 0,
                sound_timer: 0,
                screen: Seq::new((SCREEN_WIDTH * SCREEN_HEIGHT) as nat, |k: int| false),
                display_scale: display_scale,
                display_color: display_color@,
            }),
    {
        let machine = Chip8 {
            screen: unlit_screen(),
            display_color,
            display_scale,
            memory: zeroed_memory(memory),
            stack_memory: Vec::new(),
            stack_limit: stack_memory,
            registers: [0; 16],
            address_register: 0,
            keys: [false; 16],
            instruction_pointer: 0x200,
            delay_timer: 0,
            sound_timer: 0,
            keymap,
        };
        assert(machine.registers@ =~= Seq::new(16, |k: int| 0u8));
        assert(machine.keys@ =~= Seq::new(16, |k: int| false));
        machine
    }

    /// The size in pixels of the scaled screen, width first.
    pub fn get_screen_size(&self) -> (size: (usize, usize))
        requires
            self.wf(),
        ensures
            size.0 == SCREEN_WIDTH * self@.display_scale,
            size.1 == SCREEN_HEIGHT * self@.display_scale,
    {
        (SCREEN_WIDTH * (self.display_scale as usize), SCREEN_HEIGHT * (self.display_scale as usize))
    }

    /// The scaled screen as packed 32-bit pixels, row by row: a lit pixel has
    /// the foreground colour, an unlit one is opaque black.
    pub fn get_screen_buffer(&self) -> (buffer: Vec<u32>)
        requires
            self.wf(),
        ensures
            buffer@ == self@.rendered(),
    {
        let scale = self.display_scale as usize;
        let width = SCREEN_WIDTH * scale;
        let height = SCREEN_HEIGHT * scale;
        let lit = pack_color(&self.display_color);
        let mut buffer: Vec<u32> = Vec::new();
        let mut y: usize = 0;
        while y < height
            invariant
                self.wf(),
                scale == self.display_scale,
                width == SCREEN_WIDTH * scale,
                height == SCREEN_HEIGHT * scale,
                lit == packed_color(self@.display_color),
                y <= height,
                buffer@.len() == y * width,
                forall|k: int| 0 <= k < buffer@.len() ==> #[trigger] buffer@[k] == self@.rendered_pixel(k),
            decreases height - y,
        {
            let mut x: usize = 0;
            while x < width
                invariant
                    self.wf(),
                    scale == self.display_scale,
                    width == SCREEN_WIDTH * scale,
                    height == SCREEN_HEIGHT * scale,
                    lit == packed_color(self@.display_color),
                    y < height,
                    x <= width,
                    buffer@.len() == y * width + x,
                    forall|k: int| 0 <= k < buffer@.len() ==> #[trigger] buffer@[k] == self@.rendered_pixel(k),
                decreases width - x,
            {
                proof {
                    lemma_fundamental_div_mod_converse(y * width + x, width as int, y as int, x as int);
                    assert(y / scale < SCREEN_HEIGHT) by (nonlinear_arith)
                        requires
                            0 <= y < SCREEN_HEIGHT * scale,
                            0 < scale,
                    ;
                    assert(x / scale < SCREEN_WIDTH) by (nonlinear_arith)
                        requires
                            0 <= x < SCREEN_WIDTH * scale,
                            0 < scale,
                    ;
                }
                let source = (y / scale) * SCREEN_WIDTH + x / scale;
                let pixel = if self.screen[source] {
                    lit
                } else {
                    UNLIT_PIXEL
                };
                buffer.push(pixel);
                x += 1;
            }
            proof {
                assert((y + 1) * width == y * width + width) by (nonlinear_arith);
            }
            y += 1;
        }
        proof {
            assert(height * width == (SCREEN_WIDTH * self@.display_scale) * (SCREEN_HEIGHT * self@.display_scale))
                by (nonlinear_arith)
                requires
                    width == SCREEN_WIDTH * self@.display_scale,
                    height == SCREEN_HEIGHT * self@.display_scale,
            ;
            assert(buffer@ =~= self@.rendered());
        }
        buffer
    }

    /// The decode result of every two-byte slot from 0x200 to the end of
    /// memory. Nothing is changed.
    pub fn disassemble(&self) -> (listing: Vec<Option<Instruction>>)
        requires
            self.wf(),
        ensures
            listing@ == self@.disassembly(),
    {
        let mut listing: Vec<Option<Instruction>> = Vec::new();
        let size = self.memory.len();
        let mut address: usize = 0x200;
        while address < size && address + 1 < size
            invariant
                size == self.memory@.len(),
                address == 0x200 + 2 * listing@.len(),
                listing@.len() <= self@.slot_count(),
                forall|j: int|
                    0 <= j < listing@.len() ==> #[trigger] listing@[j] == self@.disassembly()[j],
            decreases size - address,
        {
            let raw = (self.memory[address], self.memory[address + 1]);
            listing.push(Instruction::decode(raw));
            address += 2;
        }
        assert(listing@ =~= self@.disassembly());
        listing
    }

    pub fn register(&self, index: u8) -> (value: u8)
        requires
            self.wf(),
            index < 16,
        ensures
            value == self@.reg(index),
    {
        self.registers[index as usize]
    }

    pub fn instruction_pointer(&self) -> (pointer: Address)
        ensures
            pointer == self@.instruction_pointer,
    {
        self.instruction_pointer
    }

    pub fn address_register(&self) -> (address: Address)
        ensures
            address == self@.address_register,
    {
        self.address_register
    }

    pub fn delay_timer(&self) -> (timer: u8)
        ensures
            timer == self@.delay_timer,
    {
        self.delay_timer
    }

    pub fn sound_timer(&self) -> (timer: u8)
        ensures
            timer == self@.sound_timer,
    {
        self.sound_timer
    }

    pub fn memory_size(&self) -> (size: usize)
        ensures
            size == self@.memory.len(),
    {
        self.memory.len()
    }

    /// The byte at `address`, or `None` beyond the end of memory.
    pub fn memory_at(&self, address: usize) -> (byte: Option<u8>)
        ensures
            byte == if address < self@.memory.len() {
                Some(self@.memory[address as int])
            } else {
                None
            },
    {
        if address < self.memory.len() {
            Some(self.memory[address])
        } else {
            None
        }
    }

    /// The number of return addresses on the call stack.
    pub fn stack_depth(&self) -> (depth: usize)
        ensures
            depth == self@.stack.len(),
    {
        self.stack_memory.len()
    }

    pub fn is_pressed(&self, key: u8) -> (pressed: bool)
        requires
            self.wf(),
            key < 16,
        ensures
            pressed == self@.keys[key as int],
    {
        self.keys[key as usize]
    }

    /// Whether the logical pixel at column `x` and row `y` is lit.
    pub fn is_lit(&self, x: usize, y: usize) -> (lit: bool)
        requires
            self.wf(),
            x < SCREEN_WIDTH,
            y < SCREEN_HEIGHT,
        ensures
            lit == self@.screen[y * SCREEN_WIDTH + x],
    {
        self.screen[y * SCREEN_WIDTH + x]
    }

    fn get_instruction(&self, address: u16) -> (raw: RawInstruction)
        requires
            address + 1 < self@.memory.len(),
        ensures
            raw == (self@.memory[address as int], self@.memory[address + 1]),
    {
        (self.memory[address as usize], self.memory[address as usize + 1])
    }

    /// Loads `program` at 0x200 and resets the machine: memory holds the
    /// glyph table, the program and zeros; registers, timers and the address
    /// register are zero; the call stack is empty and the screen unlit. The
    /// keypad and the configuration stay.
    pub fn load(&mut self, program: &[u8])
        requires
            old(self).wf(),
            0x200 + program@.len() <= old(self)@.memory.len(),
        ensures
            final(self).wf(),
            final(self)@ == old(self)@.loaded(program@),
    {
        let size = self.memory.len();
        self.memory = zeroed_memory(size);
        let mut i: usize = 0;
        while i < program.len()
            invariant
                i <= program@.len(),
                0x200 + program@.len() <= size,
                self.memory@.len() == size,
                forall|k: int|
                    0 <= k < size ==> #[trigger] self.memory@[k] == if 0x200 <= k < 0x200 + i {
                        program@[k - 0x200]
                    } else {
                        0u8
                    },
                self.display_scale == old(self).display_scale,
                self.display_color == old(self).display_color,
                self.keys == old(self).keys,
                self.keymap == old(self).keymap,
                self.stack_limit == old(self).stack_limit,
            decreases program@.len() - i,
        {
            self.memory.set(0x200 + i, program[i]);
            i += 1;
        }
        let mut g: usize = 0;
        while g < GLYPH_BYTES
            invariant
                g <= GLYPH_BYTES,
                0x200 + program@.len() <= size,
                self.memory@.len() == size,
                forall|k: int|
                    0 <= k < size ==> #[trigger] self.memory@[k] == if k < g {
                        glyph_table()[k]
                    } else if 0x200 <= k < 0x200 + program@.len() {
                        program@[k - 0x200]
                    } else {
                        0u8
                    },
                self.display_scale == old(self).display_scale,
                self.display_color == old(self).display_color,
                self.keys == old(self).keys,
                self.keymap == old(self).keymap,
                self.stack_limit == old(self).stack_limit,
            decreases GLYPH_BYTES - g,
        {
            self.memory.set(g, glyph_byte(g));
            g += 1;
        }
        self.stack_memory = Vec::new();
        self.registers = [0; 16];
        self.address_register = 0;
        self.instruction_pointer = 0x200;
        self.delay_timer = 0;
        self.sound_timer = 0;
        self.screen = unlit_screen();
        proof {
            assert(self.memory@ =~= old(self)@.memory_after_load(program@));
            assert(self.registers@ =~= Seq::new(16, |k: int| 0u8));
            assert(self.stack_memory@ =~= Seq::empty());
        }
    }

    /// One fetch, decode and execute cycle, with a byte from the random
    /// source. Whatever byte came, the machine is afterwards as the model's
    /// step on that byte says.
    pub fn tick(&mut self) -> (result: Result<(), Fault>)
        requires
            old(self).wf(),
        ensures
            final(self).wf(),
            exists|random: u8|
                outcome_matches(old(self)@, #[trigger] old(self)@.step_spec(random), final(self)@, result),
    {
        let random = random_byte();
        let result = self.tick_with(random);
        assert(outcome_matches(old(self)@, old(self)@.step_spec(random), self@, result));
        result
    }

    /// One fetch, decode and execute cycle, with `random` as the byte that
    /// the random source gave.
    pub fn tick_with(&mut self, random: u8) -> (result: Result<(), Fault>)
        requires
            old(self).wf(),
        ensures
            final(self).wf(),
            outcome_matches(old(self)@, old(self)@.step_spec(random), final(self)@, result),
    {
        let ip = self.instruction_pointer;
        if ip as usize + 1 >= self.memory.len() {
            return Err(Fault::MemoryOutOfBounds);
        }
        let to_execute = self.get_instruction(ip);
        match Instruction::decode(to_execute) {
            None => {
                let next = self.pointer_after(false)?;
                self.instruction_pointer = next;
                Ok(())
            },
            Some(instruction) => self.execute(&instruction, random),
        }
    }

    /// A tick of the external timer clock: the delay timer counts down and
    /// stays at zero.
    pub fn decrement_time(&mut self)
        requires
            old(self).wf(),
        ensures
            final(self).wf(),
            final(self)@ == old(self)@.after_timer_tick(),
    {
        if self.delay_timer > 0 {
            self.delay_timer = self.delay_timer - 1;
        }
    }

    /// Records that the physical key `key` went down or up: the logical key
    /// that it is mapped to follows. A key that is not mapped is ignored.
    pub fn set_pressed(&mut self, key: u64, pressed: bool)
        requires
            old(self).wf(),
        ensures
            final(self).wf(),
            final(self)@ == old(self)@.with_physical_key(key, pressed),
    {
        let mapped = match self.keymap.get(&key) {
            Some(v) => Some(*v),
            None => None,
        };
        if let Some(v) = mapped {
            self.keys[v as usize] = pressed;
        }
    }

    /// Records that the logical key `key` went down or up.
    pub fn set_key(&mut self, key: u8, pressed: bool)
        requires
            old(self).wf(),
            key < 16,
        ensures
            final(self).wf(),
            final(self)@ == old(self)@.with_key(key, pressed),
    {
        self.keys[key as usize] = pressed;
    }

    /// Executes `instruction` and moves the instruction pointer on: to the
    /// target of a control transfer, past the next instruction where a skip's
    /// condition holds, back to the instruction itself where it waits for a
    /// key and none is pressed, and to the next instruction otherwise.
    /// `random` is the byte that the random source gave. On a fault nothing
    /// has changed.
    ///
    /// A sprite overwrites what it covers: a set bit lights its pixel and a
    /// clear bit puts it out. No pixel is toggled and the flag register is
    /// left alone.
    pub fn execute(&mut self, instruction: &Instruction, random: u8) -> (result: Result<(), Fault>)
        requires
            old(self).wf(),
            instruction.well_formed(),
        ensures
            final(self).wf(),
            outcome_matches(
                old(self)@,
                old(self)@.execute_spec(*instruction, random),
                final(self)@,
                result,
            ),
    {
        match *instruction {
            Instruction::ExecSubroutineML(_)
            | Instruction::ClearScreen
            | Instruction::ReturnFromSubroutine
            | Instruction::JumpToAddress(_)
            | Instruction::ExecSubroutine(_)
            | Instruction::JumpWithOffset(_) => self.execute_flow(instruction, random),
            Instruction::SkipFollowingIfRegEq(_, _)
            | Instruction::SkipFollowingIfRegNeq(_, _)
            | Instruction::SkipFollowingIfRegEqReg(_, _)
            | Instruction::SkipIfNE(_, _)
            | Instruction::SkipIfKeyPressed(_)
            | Instruction::SkipIfKeyNotPressed(_) => self.execute_skip(instruction, random),
            Instruction::StoreToReg(_, _)
            | Instruction::AddToReg(_, _)
            | Instruction::MoveValue(_, _)
            | Instruction::OrRegister(_, _)
            | Instruction::AndRegister(_, _)
            | Instruction::XorRegister(_, _)
            | Instruction::RandWithMask(_, _)
            | Instruction::ReadDelayTimer(_)
            | Instruction::WriteDelayTimer(_)
            | Instruction::WriteSoundTimer(_) => self.execute_transfer(instruction, random),
            Instruction::AddWithCarry(_, _)
            | Instruction::SubWithCarry(_, _)
            | Instruction::ShiftRight(_, _)
            | Instruction::SubWithCarry2(_, _)
            | Instruction::ShiftLeft(_, _) => self.execute_flagged(instruction, random),
            Instruction::StoreAddressToI(_)
            | Instruction::IncrementIWithReg(_)
            | Instruction::GetSpriteDataAddress(_)
            | Instruction::StoreBCD(_)
            | Instruction::StoreRegisters(_)
            | Instruction::FillRegisters(_)
            | Instruction::DrawSprite(_, _, _)
            | Instruction::WaitForKey(_) => self.execute_memory(instruction, random),
        }
    }

    /// Executes a control transfer, a screen clear or the legacy call.
    fn execute_flow(&mut self, instruction: &Instruction, random: u8) -> (result: Result<(), Fault>)
        requires
            old(self).wf(),
            instruction.well_formed(),
            instruction is ExecSubroutineML
                || instruction is ClearScreen
                || instruction is ReturnFromSubroutine
                || instruction is JumpToAddress
                || instruction is ExecSubroutine
                || instruction is JumpWithOffset,
        ensures
            final(self).wf(),
            outcome_matches(
                old(self)@,
                old(self)@.execute_spec(*instruction, random),
                final(self)@,
                result,
            ),
    {
        match *instruction {
            Instruction::ExecSubroutineML(_) => {
                let next = self.pointer_after(false)?;
                self.instruction_pointer = next;
            },
            Instruction::ClearScreen => {
                let next = self.pointer_after(false)?;
                self.screen = unlit_screen();
                self.instruction_pointer = next;
            },
            Instruction::ReturnFromSubroutine => {
                let depth = self.stack_memory.len();
                if depth == 0 {
                    return Err(Fault::StackUnderflow);
                }
                let saved = self.stack_memory[depth - 1];
                if saved > 0xFFFD {
                    return Err(Fault::MemoryOutOfBounds);
                }
                self.stack_memory.pop();
                self.instruction_pointer = saved + 2;
                assert(self.stack_memory@ =~= old(self).stack_memory@.drop_last());
            },
            Instruction::JumpToAddress(addr) => {
                self.instruction_pointer = addr;
            },
            Instruction::ExecSubroutine(addr) => {
                if self.stack_memory.len() >= self.stack_limit {
                    return Err(Fault::StackOverflow);
                }
                self.stack_memory.push(self.instruction_pointer);
                self.instruction_pointer = addr;
            },
            Instruction::JumpWithOffset(addr) => {
                let target: u32 = addr as u32 + self.registers[0] as u32;
                if target > 0xFFFF {
                    return Err(Fault::MemoryOutOfBounds);
                }
                self.instruction_pointer = target as u16;
            },
            _ => {},
        }
        Ok(())
    }

    /// Executes a conditional skip.
    fn execute_skip(&mut self, instruction: &Instruction, random: u8) -> (result: Result<(), Fault>)
        requires
            old(self).wf(),
            instruction.well_formed(),
            instruction is SkipFollowingIfRegEq
                || instruction is SkipFollowingIfRegNeq
                || instruction is SkipFollowingIfRegEqReg
                || instruction is SkipIfNE
                || instruction is SkipIfKeyPressed
                || instruction is SkipIfKeyNotPressed,
        ensures
            final(self).wf(),
            outcome_matches(
                old(self)@,
                old(self)@.execute_spec(*instruction, random),
                final(self)@,
                result,
            ),
    {
        match *instruction {
            Instruction::SkipFollowingIfRegEq(reg0, value) => {
                let next = self.pointer_after(self.registers[reg0 as usize] == value)?;
                self.instruction_pointer = next;
            },
            Instruction::SkipFollowingIfRegNeq(reg0, value) => {
                let next = self.pointer_after(self.registers[reg0 as usize] != value)?;
                self.instruction_pointer = next;
            },
            Instruction::SkipFollowingIfRegEqReg(reg0, reg1) => {
                let next = self.pointer_after(self.registers[reg0 as usize] == self.registers[reg1 as usize])?;
                self.instruction_pointer = next;
            },
            Instruction::SkipIfNE(reg0, reg1) => {
                let next = self.pointer_after(self.registers[reg0 as usize] != self.registers[reg1 as usize])?;
                self.instruction_pointer = next;
            },
            Instruction::SkipIfKeyPressed(reg0) => {
                let key = self.registers[reg0 as usize];
                if key >= 16 {
                    return Err(Fault::KeyOutOfRange);
                }
                let next = self.pointer_after(self.keys[key as usize])?;
                self.instruction_pointer = next;
            },
            Instruction::SkipIfKeyNotPressed(reg0) => {
                let key = self.registers[reg0 as usize];
                if key >= 16 {
                    return Err(Fault::KeyOutOfRange);
                }
                let next = self.pointer_after(!self.keys[key as usize])?;
                self.instruction_pointer = next;
            },
            _ => {},
        }
        Ok(())
    }

    /// Executes a register or timer transfer without a flag.
    fn execute_transfer(&mut self, instruction: &Instruction, random: u8) -> (result: Result<(), Fault>)
        requires
            old(self).wf(),
            instruction.well_formed(),
            instruction is StoreToReg
                || instruction is AddToReg
                || instruction is MoveValue
                || instruction is OrRegister
                || instruction is AndRegister
                || instruction is XorRegister
                || instruction is RandWithMask
                || instruction is ReadDelayTimer
                || instruction is WriteDelayTimer
                || instruction is WriteSoundTimer,
        ensures
            final(self).wf(),
            outcome_matches(
                old(self)@,
                old(self)@.execute_spec(*instruction, random),
                final(self)@,
                result,
            ),
    {
        match *instruction {
            Instruction::StoreToReg(reg0, value) => {
                let next = self.pointer_after(false)?;
                self.registers[reg0 as usize] = value;
                self.instruction_pointer = next;
            },
            Instruction::AddToReg(reg0, value) => {
                let next = self.pointer_after(false)?;
                let sum: u16 = self.registers[reg0 as usize] as u16 + value as u16;
                self.registers[reg0 as usize] = (sum % 256) as u8;
                self.instruction_pointer = next;
            },
            Instruction::MoveValue(reg0, reg1) => {
                let next = self.pointer_after(false)?;
                self.registers[reg0 as usize] = self.registers[reg1 as usize];
                self.instruction_pointer = next;
            },
            Instruction::OrRegister(reg0, reg1) => {
                let next = self.pointer_after(false)?;
                self.registers[reg0 as usize] = self.registers[reg0 as usize] | self.registers[reg1 as usize];
                self.instruction_pointer = next;
            },
            Instruction::AndRegister(reg0, reg1) => {
                let next = self.pointer_after(false)?;
                self.registers[reg0 as usize] = self.registers[reg0 as usize] & self.registers[reg1 as usize];
                self.instruction_pointer = next;
            },
            Instruction::XorRegister(reg0, reg1) => {
                let next = self.pointer_after(false)?;
                self.registers[reg0 as usize] = self.registers[reg0 as usize] ^ self.registers[reg1 as usize];
                self.instruction_pointer = next;
            },
            Instruction::RandWithMask(reg0, mask) => {
                let next = self.pointer_after(false)?;
                self.registers[reg0 as usize] = random & mask;
                self.instruction_pointer = next;
            },
            Instruction::ReadDelayTimer(reg0) => {
                let next = self.pointer_after(false)?;
                self.registers[reg0 as usize] = self.delay_timer;
                self.instruction_pointer = next;
            },
            Instruction::WriteDelayTimer(reg0) => {
                let next = self.pointer_after(false)?;
                self.delay_timer = self.registers[reg0 as usize];
                self.instruction_pointer = next;
            },
            Instruction::WriteSoundTimer(reg0) => {
                let next = self.pointer_after(false)?;
                self.sound_timer = self.registers[reg0 as usize];
                self.instruction_pointer = next;
            },
            _ => {},
        }
        Ok(())
    }

    /// Executes an arithmetic or shift instruction that sets the flag register.
    fn execute_flagged(&mut self, instruction: &Instruction, random: u8) -> (result: Result<(), Fault>)
        requires
            old(self).wf(),
            instruction.well_formed(),
            instruction is AddWithCarry
                || instruction is SubWithCarry
                || instruction is ShiftRight
                || instruction is SubWithCarry2
                || instruction is ShiftLeft,
        ensures
            final(self).wf(),
            outcome_matches(
                old(self)@,
                old(self)@.execute_spec(*instruction, random),
                final(self)@,
                result,
            ),
    {
        match *instruction {
            Instruction::AddWithCarry(reg0, reg1) => {
                let next = self.pointer_after(false)?;
                let sum: u16 = self.registers[reg0 as usize] as u16 + self.registers[reg1 as usize] as u16;
                self.registers[reg0 as usize] = (sum % 256) as u8;
                self.registers[0xF] = if sum > 255 { 1 } else { 0 };
                self.instruction_pointer = next;
            },
            Instruction::SubWithCarry(reg0, reg1) => {
                let next = self.pointer_after(false)?;
                let minuend = self.registers[reg0 as usize];
                let subtrahend = self.registers[reg1 as usize];
                self.registers[reg0 as usize] = wrapping_difference(minuend, subtrahend);
                self.registers[0xF] = if minuend < subtrahend { 0 } else { 1 };
                self.instruction_pointer = next;
            },
            Instruction::ShiftRight(reg0, reg1) => {
                let next = self.pointer_after(false)?;
                let value = self.registers[reg1 as usize];
                self.registers[reg0 as usize] = value / 2;
                self.registers[0xF] = value % 2;
                self.instruction_pointer = next;
            },
            Instruction::SubWithCarry2(reg0, reg1) => {
                let next = self.pointer_after(false)?;
                let minuend = self.registers[reg1 as usize];
                let subtrahend = self.registers[reg0 as usize];
                self.registers[reg0 as usize] = wrapping_difference(minuend, subtrahend);
                self.registers[0xF] = if minuend < subtrahend { 0 } else { 1 };
                self.instruction_pointer = next;
            },
            Instruction::ShiftLeft(reg0, reg1) => {
                let next = self.pointer_after(false)?;
                let value = self.registers[reg1 as usize];
                self.registers[reg0 as usize] = ((value as u16 * 2) % 256) as u8;
                self.registers[0xF] = value / 128;
                self.instruction_pointer = next;
            },
            _ => {},
        }
        Ok(())
    }

    /// Executes an instruction on the address register, memory, the keypad or the screen.
    fn execute_memory(&mut self, instruction: &Instruction, random: u8) -> (result: Result<(), Fault>)
        requires
            old(self).wf(),
            instruction.well_formed(),
            instruction is StoreAddressToI
                || instruction is IncrementIWithReg
                || instruction is GetSpriteDataAddress
                || instruction is StoreBCD
                || instruction is StoreRegisters
                || instruction is FillRegisters
                || instruction is DrawSprite
                || instruction is WaitForKey,
        ensures
            final(self).wf(),
            outcome_matches(
                old(self)@,
                old(self)@.execute_spec(*instruction, random),
                final(self)@,
                result,
            ),
    {
        match *instruction {
            Instruction::StoreAddressToI(addr) => {
                let next = self.pointer_after(false)?;
                self.address_register = addr;
                self.instruction_pointer = next;
            },
            Instruction::IncrementIWithReg(reg0) => {
                let next = self.pointer_after(false)?;
                let sum: u32 = self.address_register as u32 + self.registers[reg0 as usize] as u32;
                self.address_register = (sum % 0x1_0000) as u16;
                self.instruction_pointer = next;
            },
            Instruction::GetSpriteDataAddress(reg0) => {
                let next = self.pointer_after(false)?;
                let sprite_num = self.registers[reg0 as usize];
                self.address_register = sprite_num as u16 * 5;
                self.instruction_pointer = next;
            },
            Instruction::StoreBCD(reg0) => {
                let base = self.address_register as usize;
                if base + 2 >= self.memory.len() {
                    return Err(Fault::MemoryOutOfBounds);
                }
                let next = self.pointer_after(false)?;
                let v = self.registers[reg0 as usize];
                self.memory.set(base, v / 100);
                self.memory.set(base + 1, (v / 10) % 10);
                self.memory.set(base + 2, v % 10);
                self.instruction_pointer = next;
            },
            Instruction::StoreRegisters(reg0) => {
                if self.address_register as usize + reg0 as usize >= self.memory.len() {
                    return Err(Fault::MemoryOutOfBounds);
                }
                let next = self.pointer_after(false)?;
                self.store_registers(reg0);
                self.instruction_pointer = next;
            },
            Instruction::FillRegisters(reg0) => {
                if self.address_register as usize + reg0 as usize >= self.memory.len() {
                    return Err(Fault::MemoryOutOfBounds);
                }
                let next = self.pointer_after(false)?;
                self.fill_registers(reg0);
                self.instruction_pointer = next;
            },
            Instruction::DrawSprite(reg0, reg1, len) => {
                if self.address_register as usize + len as usize > self.memory.len() {
                    return Err(Fault::MemoryOutOfBounds);
                }
                let next = self.pointer_after(false)?;
                let x = self.registers[reg0 as usize];
                let y = self.registers[reg1 as usize];
                self.draw_sprite(x, y, len);
                self.instruction_pointer = next;
            },
            Instruction::WaitForKey(reg0) => {
                match self.first_pressed_key() {
                    Some(key) => {
                        let next = self.pointer_after(false)?;
                        self.registers[reg0 as usize] = key;
                        self.instruction_pointer = next;
                    },
                    None => {},
                }
            },
            _ => {},
        }
        Ok(())
    }

    /// The lowest pressed key.
    fn first_pressed_key(&self) -> (key: Option<u8>)
        requires
            self.wf(),
        ensures
            key == lowest_pressed(self@.keys, 0),
    {
        let mut k: u8 = 0;
        while k < 16
            invariant
                k <= 16,
                self.keys@.len() == 16,
                lowest_pressed(self.keys@, 0) == lowest_pressed(self.keys@, k as int),
            decreases 16 - k,
        {
            if self.keys[k as usize] {
                return Some(k);
            }
            k += 1;
        }
        None
    }

    /// Writes registers 0 to `last` to memory at the address register, and
    /// moves the address register past them.
    fn store_registers(&mut self, last: u8)
        requires
            old(self).wf(),
            last < 16,
            old(self)@.address_register + last < old(self)@.memory.len(),
        ensures
            final(self)@ == (MachineState {
                memory: old(self)@.memory_after_store(last),
                ..old(self)@
            }).with_address_register(old(self)@.address_register + last + 1),
    {
        let base = self.address_register as usize;
        let mut i: usize = 0;
        while i <= last as usize
            invariant
                i <= last + 1,
                last < 16,
                base == old(self).address_register,
                base + last < self.memory@.len(),
                self.memory@.len() == old(self).memory@.len(),
                forall|k: int|
                    0 <= k < self.memory@.len() ==> #[trigger] self.memory@[k] == if base <= k < base + i {
                        old(self).registers@[k - base]
                    } else {
                        old(self).memory@[k]
                    },
                self@ == (MachineState { memory: self.memory@, ..old(self)@ }),
            decreases last + 1 - i,
        {
            self.memory.set(base + i, self.registers[i]);
            i += 1;
        }
        assert(self.memory@ =~= old(self)@.memory_after_store(last));
        self.address_register = ((base as u32 + last as u32 + 1) % 0x1_0000) as u16;
    }

    /// Reads registers 0 to `last` from memory at the address register, and
    /// moves the address register past them.
    fn fill_registers(&mut self, last: u8)
        requires
            old(self).wf(),
            last < 16,
            old(self)@.address_register + last < old(self)@.memory.len(),
        ensures
            final(self)@ == (MachineState {
                registers: old(self)@.registers_after_fill(last),
                ..old(self)@
            }).with_address_register(old(self)@.address_register + last + 1),
    {
        let base = self.address_register as usize;
        let mut i: usize = 0;
        while i <= last as usize
            invariant
                i <= last + 1,
                last < 16,
                base == old(self).address_register,
                base + last < self.memory@.len(),
                forall|k: int|
                    0 <= k < 16 ==> #[trigger] self.registers@[k] == if k < i {
                        old(self).memory@[base + k]
                    } else {
                        old(self).registers@[k]
                    },
                self@ == (MachineState { registers: self.registers@, ..old(self)@ }),
            decreases last + 1 - i,
        {
            self.registers[i] = self.memory[base + i];
            i += 1;
        }
        assert(self.registers@ =~= old(self)@.registers_after_fill(last));
        self.address_register = ((base as u32 + last as u32 + 1) % 0x1_0000) as u16;
    }

    /// Draws the sprite of `height` rows at the address register with its top
    /// left corner at (`x0`, `y0`).
    fn draw_sprite(&mut self, x0: u8, y0: u8, height: u8)
        requires
            old(self).wf(),
            old(self)@.address_register + height <= old(self)@.memory.len(),
        ensures
            final(self)@ == (MachineState {
                screen: old(self)@.screen_after_draw(x0, y0, height),
                ..old(self)@
            }),
    {
        let base = self.address_register as usize;
        let mut row: u8 = 0;
        while row < height
            invariant
                row <= height,
                base == old(self).address_register,
                base + height <= self.memory@.len(),
                self.screen@.len() == SCREEN_WIDTH * SCREEN_HEIGHT,
                forall|k: int|
                    0 <= k < SCREEN_WIDTH * SCREEN_HEIGHT ==> #[trigger] self.screen@[k] == old(self)@.pixel_during_draw(
                        k % (SCREEN_WIDTH as int),
                        k / (SCREEN_WIDTH as int),
                        x0,
                        y0,
                        height,
                        row as int,
                        0,
                    ),
                self@ == (MachineState { screen: self.screen@, ..old(self)@ }),
            decreases height - row,
        {
            let bits = self.memory[base + row as usize];
            let py: usize = (y0 as usize + row as usize) % 256;
            let ghost row_start = self.screen@;
            let mut col: u8 = 0;
            while col < 8
                invariant
                    col <= 8,
                    py < 256,
                    self.screen@.len() == SCREEN_WIDTH * SCREEN_HEIGHT,
                    row_start.len() == SCREEN_WIDTH * SCREEN_HEIGHT,
                    forall|k: int|
                        0 <= k < SCREEN_WIDTH * SCREEN_HEIGHT ==> #[trigger] self.screen@[k] == if k / 64 == py && 0
                            <= k % 64 - x0 < col {
                            sprite_bit(bits, k % 64 - x0)
                        } else {
                            row_start[k]
                        },
                    self@ == (MachineState { screen: self.screen@, ..old(self)@ }),
                decreases 8 - col,
            {
                let px: usize = x0 as usize + col as usize;
                if px < SCREEN_WIDTH && py < SCREEN_HEIGHT {
                    self.screen.set(py * SCREEN_WIDTH + px, sprite_bit_of(bits, col));
                }
                col += 1;
            }
            proof {
                assert forall|k: int| 0 <= k < SCREEN_WIDTH * SCREEN_HEIGHT implies #[trigger] self.screen@[k] == old(
                    self,
                )@.pixel_during_draw(
                    k % (SCREEN_WIDTH as int),
                    k / (SCREEN_WIDTH as int),
                    x0,
                    y0,
                    height,
                    row + 1,
                    0,
                ) by {
                    lemma_row_of_pixel(k / 64, y0, row as int);
                }
            }
            row += 1;
        }
        assert(self.screen@ =~= old(self)@.screen_after_draw(x0, y0, height));
    }

    /// The instruction pointer after the current instruction: past the next
    /// one where `condition` holds, at the next one otherwise.
    fn pointer_after(&self, condition: bool) -> (result: Result<u16, Fault>)
        ensures
            match self@.skipped(condition) {
                Ok(state) => result == Ok::<u16, Fault>(state.instruction_pointer),
                Err(fault) => result == Err::<u16, Fault>(fault),
            },
            !condition ==> self@.skipped(condition) == self@.advanced(),
    {
        let step: u16 = if condition { 4 } else { 2 };
        if self.instruction_pointer > 0xFFFF - step {
            Err(Fault::MemoryOutOfBounds)
        } else {
            Ok(self.instruction_pointer + step)
        }
    }
}

} // verus!
