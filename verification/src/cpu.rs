//! The executable machine: the state containers, the decoder, and one
//! method per instruction, each verified against the corresponding
//! function of the abstract model.

use vstd::prelude::*;

use crate::model;
use crate::model::VmError;
use rand::Rng;

verus! {

use crate::model::{
    RAM_SIZE, SCREEN_WIDTH, SCREEN_HEIGHT, NUM_REGISTERS, NUM_KEYS, STACK_DEPTH, FONT_BASE,
    PROGRAM_START, MAX_PROGRAM_SIZE, PC_BOUND,
};

/// The machine state: memory, framebuffer, registers, call stack, timers
/// and keypad flags.
pub struct CPU {
    ram: Vec<u8>,
    vram: Vec<bool>,
    stack: Vec<u16>,
    pc: usize,
    i: usize,
    delay_timer: u8,
    sound_timer: u8,
    registers: Vec<u8>,
    inputs: Vec<bool>,
}

impl View for CPU {
    type V = model::State;

    closed spec fn view(&self) -> model::State {
        model::State {
            mem: self.ram@,
            fb: self.vram@,
            regs: self.registers@,
            stack: self.stack@.map_values(|v: u16| v as int),
            pc: self.pc as int,
            i: self.i as int,
            delay: self.delay_timer,
            sound: self.sound_timer,
            keys: self.inputs@,
        }
    }
}

/// A decoded instruction: the four nibbles of the raw word and the derived
/// operand fields.
#[derive(Clone, Copy, Debug)]
pub struct Opcode {
    /// The four nibbles of the word, most significant first.
    pub nibbles: (u16, u16, u16, u16),
    /// Second nibble: a register index.
    pub x: u16,
    /// Third nibble: a register index.
    pub y: u16,
    /// Lowest nibble: a sprite height.
    pub n: u16,
    /// Low byte: an immediate.
    pub nn: u16,
    /// Low 12 bits: an address.
    pub nnn: u16,
}

impl Opcode {
    /// The ranges of the derived fields, and their agreement with the
    /// nibble tuple.
    pub open spec fn wf(&self) -> bool {
        &&& self.nibbles.0 < 16
        &&& self.nibbles.1 == self.x
        &&& self.nibbles.2 == self.y
        &&& self.nibbles.3 == self.n
        &&& self.x < 16
        &&& self.y < 16
        &&& self.n < 16
        &&& self.nn < 256
        &&& self.nnn < 4096
    }

    /// Whether this descriptor is the decoding of the raw word `w`.
    pub open spec fn decodes(&self, w: u16) -> bool {
        &&& self.nibbles == (model::nib_hi(w), model::op_x(w), model::op_y(w), model::op_n(w))
        &&& self.x == model::op_x(w)
        &&& self.y == model::op_y(w)
        &&& self.n == model::op_n(w)
        &&& self.nn == model::op_nn(w)
        &&& self.nnn == model::op_nnn(w)
    }

    /// Decode a raw 16-bit word into its nibbles and derived fields. Pure
    /// and total: every word decodes to some descriptor.
    pub fn decode(word: u16) -> (r: Opcode)
        ensures
            r.wf(),
            r.decodes(word),
    {
        proof {
            assert((word >> 12) & 0xF < 16 && (word >> 8) & 0xF < 16 && (word >> 4) & 0xF < 16
                && word & 0xF < 16 && word & 0xFF < 256 && word & 0xFFF < 4096) by (bit_vector);
        }
        Opcode {
            nibbles: ((word >> 12) & 0xF, (word >> 8) & 0xF, (word >> 4) & 0xF, word & 0xF),
            x: (word >> 8) & 0xF,
            y: (word >> 4) & 0xF,
            n: word & 0xF,
            nn: word & 0xFF,
            nnn: word & 0xFFF,
        }
    }
}

/// A vector of `len` zero bytes.
fn zero_bytes(len: usize) -> (v: Vec<u8>)
    ensures
        v@.len() == len,
        forall|k: int| 0 <= k < len ==> v@[k] == 0u8,
{
    let mut v: Vec<u8> = Vec::new();
    let mut a: usize = 0;
    while a < len
        invariant
            a <= len,
            v@.len() == a,
            forall|k: int| 0 <= k < a ==> v@[k] == 0u8,
        decreases len - a,
    {
        v.push(0);
        a += 1;
    }
    v
}

/// A vector of `len` cleared flags.
fn false_flags(len: usize) -> (v: Vec<bool>)
    ensures
        v@.len() == len,
        forall|k: int| 0 <= k < len ==> v@[k] == false,
{
    let mut v: Vec<bool> = Vec::new();
    let mut a: usize = 0;
    while a < len
        invariant
            a <= len,
            v@.len() == a,
            forall|k: int| 0 <= k < a ==> v@[k] == false,
        decreases len - a,
    {
        v.push(false);
        a += 1;
    }
    v
}

/// The built-in font table: sixteen 5-byte glyphs for the hexadecimal
/// digits 0 through F.
fn font_table() -> (v: Vec<u8>)
    ensures
        v@ == model::font(),
{
    let v: Vec<u8> = vec![
        0xF0, 0x90, 0x90, 0x90, 0xF0, 0x20, 0x60, 0x20, 0x20, 0x70, 0xF0, 0x10, 0xF0, 0x80, 0xF0,
        0xF0, 0x10, 0xF0, 0x10, 0xF0, 0x90, 0x90, 0xF0, 0x10, 0x10, 0xF0, 0x80, 0xF0, 0x10, 0xF0,
        0xF0, 0x80, 0xF0, 0x90, 0xF0, 0xF0, 0x10, 0x20, 0x40, 0x40, 0xF0, 0x90, 0xF0, 0x90, 0xF0,
        0xF0, 0x90, 0xF0, 0x10, 0xF0, 0xF0, 0x90, 0xF0, 0x90, 0x90, 0xE0, 0x90, 0xE0, 0x90, 0xE0,
        0xF0, 0x80, 0x80, 0x80, 0xF0, 0xE0, 0x90, 0x90, 0x90, 0xE0, 0xF0, 0x80, 0xF0, 0x80, 0xF0,
        0xF0, 0x80, 0xF0, 0x80, 0x80,
    ];
    proof {
        assert(v@ =~= model::font());
    }
    v
}

impl CPU {
    /// Well-formedness: the containers have their fixed sizes and every
    /// address-valued component is in range.
    pub open spec fn wf(&self) -> bool {
        model::wf(self@)
    }

    /// Build a machine with the font table at `FONT_BASE` and the program
    /// image at `PROGRAM_START`; rejected when the image does not fit in
    /// memory.
    pub fn new(rom: &Vec<u8>) -> (r: Result<CPU, VmError>)
        ensures
            rom@.len() <= MAX_PROGRAM_SIZE ==> (r matches Ok(cpu) && cpu.wf() && cpu@
                == model::initial_state(rom@)),
            rom@.len() > MAX_PROGRAM_SIZE ==> r == Err::<CPU, VmError>(
                VmError::OutOfBoundsAddress,
            ),
    {
        if rom.len() > MAX_PROGRAM_SIZE {
            return Err(VmError::OutOfBoundsAddress);
        }
        let mut ram = zero_bytes(RAM_SIZE);
        let font = font_table();
        let mut k: usize = 0;
        while k < 80
            invariant
                k <= 80,
                ram@.len() == RAM_SIZE,
                font@ == model::font(),
                forall|j: int| 0 <= j < k ==> ram@[FONT_BASE + j] == model::font()[j],
                forall|a: int|
                    0 <= a < RAM_SIZE && !(FONT_BASE <= a < FONT_BASE + k) ==> ram@[a] == 0u8,
            decreases 80 - k,
        {
            ram[FONT_BASE + k] = font[k];
            k += 1;
        }
        let mut k: usize = 0;
        while k < rom.len()
            invariant
                k <= rom@.len(),
                rom@.len() <= MAX_PROGRAM_SIZE,
                ram@.len() == RAM_SIZE,
                forall|j: int| 0 <= j < 80 ==> ram@[FONT_BASE + j] == model::font()[j],
                forall|j: int| 0 <= j < k ==> ram@[PROGRAM_START + j] == rom@[j],
                forall|a: int|
                    0 <= a < RAM_SIZE && !(FONT_BASE <= a < FONT_BASE + 80) && !(PROGRAM_START
                        <= a < PROGRAM_START + k) ==> ram@[a] == 0u8,
            decreases rom@.len() - k,
        {
            ram[PROGRAM_START + k] = rom[k];
            k += 1;
        }
        let cpu = CPU {
            ram,
            vram: false_flags(SCREEN_WIDTH * SCREEN_HEIGHT),
            stack: Vec::new(),
            pc: PROGRAM_START,
            i: 0,
            delay_timer: 0,
            sound_timer: 0,
            registers: zero_bytes(NUM_REGISTERS),
            inputs: false_flags(NUM_KEYS),
        };
        proof {
            assert(cpu@.mem =~= model::initial_mem(rom@));
            assert(cpu@.fb =~= model::blank_fb());
            assert(cpu@.regs =~= model::initial_state(rom@).regs);
            assert(cpu@.keys =~= model::initial_state(rom@).keys);
            assert(cpu@.stack =~= Seq::<int>::empty());
            assert(cpu@ =~= model::initial_state(rom@));
        }
        Ok(cpu)
    }

    /// The value of a general-purpose register.
    pub fn register(&self, r: usize) -> (b: u8)
        requires
            self.wf(),
            r < NUM_REGISTERS,
        ensures
            b == self@.regs[r as int],
    {
        self.registers[r]
    }

    /// The program counter.
    pub fn program_counter(&self) -> (r: usize)
        ensures
            r == self@.pc,
    {
        self.pc
    }

    /// The index register.
    pub fn index_register(&self) -> (r: usize)
        ensures
            r == self@.i,
    {
        self.i
    }

    /// The delay timer.
    pub fn delay(&self) -> (r: u8)
        ensures
            r == self@.delay,
    {
        self.delay_timer
    }

    /// The sound timer.
    pub fn sound(&self) -> (r: u8)
        ensures
            r == self@.sound,
    {
        self.sound_timer
    }

    /// The byte in memory at `addr`.
    pub fn memory(&self, addr: usize) -> (b: u8)
        requires
            self.wf(),
            addr < RAM_SIZE,
        ensures
            b == self@.mem[addr as int],
    {
        self.ram[addr]
    }

    /// The framebuffer pixel at column `x`, row `y`.
    pub fn pixel(&self, x: usize, y: usize) -> (b: bool)
        requires
            self.wf(),
            x < SCREEN_WIDTH,
            y < SCREEN_HEIGHT,
        ensures
            b == self@.fb[y * SCREEN_WIDTH + x],
    {
        self.vram[y * SCREEN_WIDTH + x]
    }

    /// How many return addresses the call stack currently holds.
    pub fn stack_depth(&self) -> (r: usize)
        ensures
            r == self@.stack.len(),
    {
        self.stack.len()
    }

    /// Decrement each timer that is above zero; a timer at zero stays
    /// there.
    pub fn update_timers(&mut self)
        requires
            old(self).wf(),
        ensures
            final(self).wf(),
            final(self)@ == model::tick_timers(old(self)@),
    {
        if self.delay_timer > 0 {
            self.delay_timer = self.delay_timer - 1;
        }
        if self.sound_timer > 0 {
            self.sound_timer = self.sound_timer - 1;
        }
    }

    /// A key-down event for the canonical key index `key`; indices outside
    /// the keypad are ignored.
    pub fn key_down(&mut self, key: usize)
        requires
            old(self).wf(),
        ensures
            final(self).wf(),
            final(self)@ == model::set_key(old(self)@, key as int, true),
    {
        if key < NUM_KEYS {
            self.inputs[key] = true;
        }
    }

    /// A key-up event for the canonical key index `key`; indices outside
    /// the keypad are ignored.
    pub fn key_up(&mut self, key: usize)
        requires
            old(self).wf(),
        ensures
            final(self).wf(),
            final(self)@ == model::set_key(old(self)@, key as int, false),
    {
        if key < NUM_KEYS {
            self.inputs[key] = false;
        }
    }

    /// 00E0: clear every framebuffer cell.
    pub fn clear_screen(&mut self)
        requires
            old(self).wf(),
        ensures
            final(self).wf(),
            final(self)@ == model::clear_screen(old(self)@),
    {
        self.vram = false_flags(SCREEN_WIDTH * SCREEN_HEIGHT);
        proof {
            assert(self@.fb =~= model::blank_fb());
        }
    }

    /// 1nnn: jump to the address in the opcode.
    pub fn jump(&mut self, opcode: Opcode)
        requires
            old(self).wf(),
            opcode.wf(),
        ensures
            final(self).wf(),
            final(self)@ == model::jump(old(self)@, opcode.nnn),
    {
        self.pc = opcode.nnn as usize;
    }

    /// 6xnn: load the immediate into the register.
    pub fn set_register(&mut self, opcode: Opcode)
        requires
            old(self).wf(),
            opcode.wf(),
        ensures
            final(self).wf(),
            final(self)@ == model::set_register(old(self)@, opcode.x as int, opcode.nn as u8),
    {
        self.registers[opcode.x as usize] = opcode.nn as u8;
    }

    /// 7xnn: add the immediate to the register, wrapping modulo 256, with
    /// no flag side effect.
    pub fn add_to_register(&mut self, opcode: Opcode)
        requires
            old(self).wf(),
            opcode.wf(),
        ensures
            final(self).wf(),
            final(self)@ == model::add_to_register(old(self)@, opcode.x as int, opcode.nn as u8),
    {
        let sum: u16 = self.registers[opcode.x as usize] as u16 + opcode.nn;
        self.registers[opcode.x as usize] = (sum % 256) as u8;
    }

    /// Annn: load the index register.
    pub fn set_index_register(&mut self, opcode: Opcode)
        requires
            old(self).wf(),
            opcode.wf(),
        ensures
            final(self).wf(),
            final(self)@ == model::set_index_register(old(self)@, opcode.nnn),
    {
        self.i = opcode.nnn as usize;
    }

    /// 8xy0: copy register `y` into register `x`.
    pub fn copy_register(&mut self, opcode: Opcode)
        requires
            old(self).wf(),
            opcode.wf(),
        ensures
            final(self).wf(),
            final(self)@ == model::copy_register(old(self)@, opcode.x as int, opcode.y as int),
    {
        self.registers[opcode.x as usize] = self.registers[opcode.y as usize];
    }

    /// 8xy1: bitwise or of the two registers into register `x`.
    pub fn binary_or(&mut self, opcode: Opcode)
        requires
            old(self).wf(),
            opcode.wf(),
        ensures
            final(self).wf(),
            final(self)@ == model::binary_or(old(self)@, opcode.x as int, opcode.y as int),
    {
        let v = self.registers[opcode.x as usize] | self.registers[opcode.y as usize];
        self.registers[opcode.x as usize] = v;
    }

    /// 8xy2: bitwise and of the two registers into register `x`.
    pub fn binary_and(&mut self, opcode: Opcode)
        requires
            old(self).wf(),
            opcode.wf(),
        ensures
            final(self).wf(),
            final(self)@ == model::binary_and(old(self)@, opcode.x as int, opcode.y as int),
    {
        let v = self.registers[opcode.x as usize] & self.registers[opcode.y as usize];
        self.registers[opcode.x as usize] = v;
    }

    /// 8xy3: bitwise xor of the two registers into register `x`.
    pub fn binary_xor(&mut self, opcode: Opcode)
        requires
            old(self).wf(),
            opcode.wf(),
        ensures
            final(self).wf(),
            final(self)@ == model::binary_xor(old(self)@, opcode.x as int, opcode.y as int),
    {
        let v = self.registers[opcode.x as usize] ^ self.registers[opcode.y as usize];
        self.registers[opcode.x as usize] = v;
    }

    /// 8xy4: wrapping add; the flag register records whether the unwrapped
    /// sum exceeded 255.
    pub fn add_register(&mut self, opcode: Opcode)
        requires
            old(self).wf(),
            opcode.wf(),
        ensures
            final(self).wf(),
            final(self)@ == model::add_register(old(self)@, opcode.x as int, opcode.y as int),
    {
        let sum: u16 = self.registers[opcode.x as usize] as u16 + self.registers[opcode.y
            as usize] as u16;
        self.registers[opcode.x as usize] = (sum % 256) as u8;
        self.registers[15] = if sum > 255 {
            1
        } else {
            0
        };
    }

    /// 8xy5 / 8xy7: wrapping subtraction (`Vx - Vy`, or `Vy - Vx` with
    /// `opposite`); the flag register records 0 on borrow, 1 otherwise.
    pub fn subtract_register(&mut self, opcode: Opcode, opposite: bool)
        requires
            old(self).wf(),
            opcode.wf(),
        ensures
            final(self).wf(),
            final(self)@ == model::subtract_register(
                old(self)@,
                opcode.x as int,
                opcode.y as int,
                opposite,
            ),
    {
        let a: u8 = if opposite {
            self.registers[opcode.y as usize]
        } else {
            self.registers[opcode.x as usize]
        };
        let b: u8 = if opposite {
            self.registers[opcode.x as usize]
        } else {
            self.registers[opcode.y as usize]
        };
        let diff: u16 = (a as u16 + 256 - b as u16) % 256;
        self.registers[opcode.x as usize] = diff as u8;
        self.registers[15] = if a < b {
            0
        } else {
            1
        };
    }

    /// 8xy6: shift right by one; the flag register takes the bit shifted
    /// out.
    pub fn shift_right(&mut self, opcode: Opcode)
        requires
            old(self).wf(),
            opcode.wf(),
        ensures
            final(self).wf(),
            final(self)@ == model::shift_right(old(self)@, opcode.x as int),
    {
        let v = self.registers[opcode.x as usize];
        self.registers[15] = v & 1;
        self.registers[opcode.x as usize] = v >> 1u8;
    }

    /// 8xyE: shift left by one, truncated to 8 bits; the flag register
    /// takes the bit shifted out.
    pub fn shift_left(&mut self, opcode: Opcode)
        requires
            old(self).wf(),
            opcode.wf(),
        ensures
            final(self).wf(),
            final(self)@ == model::shift_left(old(self)@, opcode.x as int),
    {
        let v = self.registers[opcode.x as usize];
        self.registers[15] = (v >> 7u8) & 1;
        self.registers[opcode.x as usize] = (v & 0x7F) << 1u8;
    }

    /// Bnnn: jump to the address in the opcode plus register 0.
    pub fn jump_with_offset(&mut self, opcode: Opcode)
        requires
            old(self).wf(),
            opcode.wf(),
        ensures
            final(self).wf(),
            final(self)@ == model::jump_with_offset(old(self)@, opcode.nnn),
    {
        self.pc = opcode.nnn as usize + self.registers[0] as usize;
    }

    /// Fx07: copy the delay timer into the register.
    pub fn copy_delay_timer_to_register(&mut self, opcode: Opcode)
        requires
            old(self).wf(),
            opcode.wf(),
        ensures
            final(self).wf(),
            final(self)@ == model::copy_delay_timer_to_register(old(self)@, opcode.x as int),
    {
        self.registers[opcode.x as usize] = self.delay_timer;
    }

    /// Fx15: copy the register into the delay timer.
    pub fn copy_register_to_delay_timer(&mut self, opcode: Opcode)
        requires
            old(self).wf(),
            opcode.wf(),
        ensures
            final(self).wf(),
            final(self)@ == model::copy_register_to_delay_timer(old(self)@, opcode.x as int),
    {
        self.delay_timer = self.registers[opcode.x as usize];
    }

    /// Fx18: copy the register into the sound timer.
    pub fn copy_register_to_sound_timer(&mut self, opcode: Opcode)
        requires
            old(self).wf(),
            opcode.wf(),
        ensures
            final(self).wf(),
            final(self)@ == model::copy_register_to_sound_timer(old(self)@, opcode.x as int),
    {
        self.sound_timer = self.registers[opcode.x as usize];
    }

    /// Fx1E: add the register to the index register, masked to 12 bits;
    /// the flag register records whether the unmasked sum reached the end
    /// of memory.
    pub fn add_to_index(&mut self, opcode: Opcode)
        requires
            old(self).wf(),
            opcode.wf(),
        ensures
            final(self).wf(),
            final(self)@ == model::add_to_index(old(self)@, opcode.x as int),
    {
        let sum: usize = self.i + self.registers[opcode.x as usize] as usize;
        self.i = sum % RAM_SIZE;
        self.registers[15] = if sum >= RAM_SIZE {
            1
        } else {
            0
        };
    }

    /// Fx29: point the index register at the built-in glyph for the digit
    /// in the register.
    pub fn font_character(&mut self, opcode: Opcode)
        requires
            old(self).wf(),
            opcode.wf(),
        ensures
            final(self).wf(),
            final(self)@ == model::font_character(old(self)@, opcode.x as int),
    {
        self.i = FONT_BASE + self.registers[opcode.x as usize] as usize * 5;
    }

    /// 3xnn / 4xnn: skip the next instruction if the register equals
    /// (`equal`) or differs from (`!equal`) the immediate.
    pub fn skip_compare_reg_value(&mut self, opcode: Opcode, equal: bool)
        requires
            old(self).wf(),
            opcode.wf(),
            old(self)@.pc + 2 < PC_BOUND,
        ensures
            final(self).wf(),
            final(self)@ == model::skip_compare_reg_value(
                old(self)@,
                opcode.x as int,
                opcode.nn as u8,
                equal,
            ),
    {
        let reg = self.registers[opcode.x as usize];
        let nn = opcode.nn as u8;
        if (equal && reg == nn) || (!equal && reg != nn) {
            self.pc = self.pc + 2;
        }
    }

    /// 5xy0 / 9xy0: skip the next instruction if the two registers are
    /// equal (`equal`) or different (`!equal`).
    pub fn skip_compare_registers(&mut self, opcode: Opcode, equal: bool)
        requires
            old(self).wf(),
            opcode.wf(),
            old(self)@.pc + 2 < PC_BOUND,
        ensures
            final(self).wf(),
            final(self)@ == model::skip_compare_registers(
                old(self)@,
                opcode.x as int,
                opcode.y as int,
                equal,
            ),
    {
        let reg_x = self.registers[opcode.x as usize];
        let reg_y = self.registers[opcode.y as usize];
        if (equal && reg_x == reg_y) || (!equal && reg_x != reg_y) {
            self.pc = self.pc + 2;
        }
    }

    /// Ex9E / ExA1: skip the next instruction if the key whose index is in
    /// the register is down (`pressed`) or up (`!pressed`). A register
    /// value outside 0-15 names no key, so it is never down.
    pub fn skip_if_key(&mut self, opcode: Opcode, pressed: bool)
        requires
            old(self).wf(),
            opcode.wf(),
            old(self)@.pc + 2 < PC_BOUND,
        ensures
            final(self).wf(),
            final(self)@ == model::skip_if_key(old(self)@, opcode.x as int, pressed),
    {
        let k = self.registers[opcode.x as usize] as usize;
        let down = if k < NUM_KEYS {
            self.inputs[k]
        } else {
            false
        };
        if (pressed && down) || (!pressed && !down) {
            self.pc = self.pc + 2;
        }
    }

    /// 2nnn: push the program counter and jump to the address in the
    /// opcode; at maximum call depth the call fails with `StackOverflow`
    /// and the machine is unchanged.
    pub fn call_subroutine(&mut self, opcode: Opcode) -> (r: Result<(), VmError>)
        requires
            old(self).wf(),
            opcode.wf(),
        ensures
            final(self).wf(),
            old(self)@.stack.len() < STACK_DEPTH ==> r == Ok::<(), VmError>(()) && final(self)@
                == model::call_subroutine(old(self)@, opcode.nnn),
            old(self)@.stack.len() >= STACK_DEPTH ==> r == Err::<(), VmError>(
                VmError::StackOverflow,
            ) && final(self)@ == old(self)@,
    {
        if self.stack.len() >= STACK_DEPTH {
            return Err(VmError::StackOverflow);
        }
        self.stack.push(self.pc as u16);
        self.pc = opcode.nnn as usize;
        proof {
            assert(self@.stack =~= old(self)@.stack.push(old(self)@.pc));
        }
        Ok(())
    }

    /// 00EE: pop the call stack into the program counter; on an empty
    /// stack the return fails with `StackUnderflow` and the machine is
    /// unchanged.
    pub fn return_from_subroutine(&mut self) -> (r: Result<(), VmError>)
        requires
            old(self).wf(),
        ensures
            final(self).wf(),
            old(self)@.stack.len() > 0 ==> r == Ok::<(), VmError>(()) && final(self)@
                == model::return_from_subroutine(old(self)@),
            old(self)@.stack.len() == 0 ==> r == Err::<(), VmError>(VmError::StackUnderflow)
                && final(self)@ == old(self)@,
    {
        match self.stack.pop() {
            Some(addr) => {
                proof {
                    let last = old(self)@.stack.len() - 1;
                    assert(old(self)@.stack[last] == addr as int);
                    assert(0 <= old(self)@.stack[last] < PC_BOUND);
                }
                self.pc = addr as usize;
                proof {
                    assert(self@.stack =~= old(self)@.stack.drop_last());
                }
                Ok(())
            },
            None => Err(VmError::StackUnderflow),
        }
    }
}

/// Whether the partially-drawn sprite — all of the first `rows` rows, plus
/// the first `cols` columns of row `rows` — covers the pixel `(px, py)`
/// with a set bit.
spec fn hit_upto(
    mem: Seq<u8>,
    i0: int,
    x0: int,
    y0: int,
    rows: int,
    cols: int,
    px: int,
    py: int,
) -> bool {
    let rr = py - y0;
    let cc = px - x0;
    &&& 0 <= rr
    &&& 0 <= cc < 8
    &&& (rr < rows || (rr == rows && cc < cols))
    &&& model::sprite_row_bit(mem[i0 + rr], cc as u8)
}

/// The framebuffer of `s` with the partially-drawn sprite toggled on.
spec fn fb_upto(s: model::State, x0: int, y0: int, rows: int, cols: int) -> Seq<bool> {
    Seq::new(
        s.fb.len(),
        |idx: int|
            s.fb[idx] ^ hit_upto(
                s.mem,
                s.i,
                x0,
                y0,
                rows,
                cols,
                idx % (SCREEN_WIDTH as int),
                idx / (SCREEN_WIDTH as int),
            ),
    )
}

impl CPU {
    /// Dxyn: toggle the `n`-row sprite at the index register onto the
    /// framebuffer at the position taken from the two registers, clipping
    /// at the screen edges, and record in the flag register whether any
    /// pixel was turned off; fatal when a sprite row that reaches the
    /// screen lies outside memory, with the machine unchanged.
    pub fn draw(&mut self, opcode: Opcode) -> (r: Result<(), VmError>)
        requires
            old(self).wf(),
            opcode.wf(),
        ensures
            final(self).wf(),
            model::draw_ok(
                old(self)@,
                old(self)@.regs[opcode.y as int] as int,
                opcode.n as int,
            ) ==> r == Ok::<(), VmError>(()) && final(self)@ == model::draw(
                old(self)@,
                opcode.x as int,
                opcode.y as int,
                opcode.n as int,
            ),
            !model::draw_ok(
                old(self)@,
                old(self)@.regs[opcode.y as int] as int,
                opcode.n as int,
            ) ==> r == Err::<(), VmError>(VmError::OutOfBoundsAddress) && final(self)@ == old(
                self,
            )@,
    {
        let x0 = self.registers[opcode.x as usize] as usize;
        let y0 = self.registers[opcode.y as usize] as usize;
        let n = opcode.n as usize;
        let rows_eff: usize = if y0 >= SCREEN_HEIGHT {
            0
        } else if n <= SCREEN_HEIGHT - y0 {
            n
        } else {
            SCREEN_HEIGHT - y0
        };
        if self.i + rows_eff > RAM_SIZE {
            return Err(VmError::OutOfBoundsAddress);
        }
        let base = self.i;
        let mut vf = false;
        let mut row: usize = 0;
        proof {
            assert(self@.fb =~= fb_upto(old(self)@, x0 as int, y0 as int, 0, 0));
        }
        while row < rows_eff
            invariant
                old(self).wf(),
                opcode.wf(),
                x0 == old(self)@.regs[opcode.x as int],
                y0 == old(self)@.regs[opcode.y as int],
                n == opcode.n,
                rows_eff == model::clipped_rows(y0 as int, n as int),
                y0 + rows_eff <= SCREEN_HEIGHT || rows_eff == 0,
                base == old(self)@.i,
                base + rows_eff <= RAM_SIZE,
                row <= rows_eff,
                self@ == (model::State { fb: self@.fb, ..old(self)@ }),
                self@.fb.len() == SCREEN_WIDTH * SCREEN_HEIGHT,
                self@.fb == fb_upto(old(self)@, x0 as int, y0 as int, row as int, 0),
                vf == model::draw_collision(old(self)@.fb, self@.fb),
            decreases rows_eff - row,
        {
            let sprite = self.ram[base + row];
            let ypos = y0 + row;
            let mut col: usize = 0;
            while col < 8
                invariant
                    old(self).wf(),
                    opcode.wf(),
                    x0 == old(self)@.regs[opcode.x as int],
                    y0 == old(self)@.regs[opcode.y as int],
                    base == old(self)@.i,
                    row < rows_eff,
                    y0 + rows_eff <= SCREEN_HEIGHT,
                    sprite == old(self)@.mem[base + row],
                    ypos == y0 + row,
                    ypos < SCREEN_HEIGHT,
                    col <= 8,
                    self@ == (model::State { fb: self@.fb, ..old(self)@ }),
                    self@.fb.len() == SCREEN_WIDTH * SCREEN_HEIGHT,
                    self@.fb == fb_upto(old(self)@, x0 as int, y0 as int, row as int, col as int),
                    vf == model::draw_collision(old(self)@.fb, self@.fb),
                decreases 8 - col,
            {
                let xpos = x0 + col;
                if xpos < SCREEN_WIDTH {
                    let mask: u8 = 0x80u8 >> (col as u8);
                    if sprite & mask != 0 {
                        let idx = ypos * SCREEN_WIDTH + xpos;
                        proof {
                            assert((ypos * 64 + xpos) % 64 == xpos && (ypos * 64 + xpos) / 64
                                == ypos) by (nonlinear_arith)
                                requires
                                    0 <= xpos < 64,
                                    0 <= ypos,
                            ;
                            assert(self@.fb[idx as int] == old(self)@.fb[idx as int]);
                        }
                        if self.vram[idx] {
                            self.vram[idx] = false;
                            vf = true;
                            proof {
                                assert(old(self)@.fb[idx as int] && !self@.fb[idx as int]);
                            }
                        } else {
                            self.vram[idx] = true;
                        }
                    }
                }
                proof {
                    assert(self@.fb =~= fb_upto(
                        old(self)@,
                        x0 as int,
                        y0 as int,
                        row as int,
                        col + 1,
                    ));
                }
                col += 1;
            }
            proof {
                assert(self@.fb =~= fb_upto(old(self)@, x0 as int, y0 as int, row + 1, 0));
            }
            row += 1;
        }
        proof {
            assert(self@.fb =~= model::draw_fb(old(self)@, x0 as int, y0 as int, n as int));
        }
        let flag: u8 = if vf {
            1
        } else {
            0
        };
        self.registers[15] = flag;
        proof {
            assert(self@ =~= model::draw(old(self)@, opcode.x as int, opcode.y as int, opcode.n as int));
        }
        Ok(())
    }
}

/// The scan of `first_down_key_from` finds `j` itself when key `j` is down
/// and everything below the scan start is up; it finds nothing when every
/// key is up.
proof fn lemma_first_down_key_scan(keys: Seq<bool>, j: int)
    requires
        keys.len() == NUM_KEYS,
        0 <= j <= NUM_KEYS,
        forall|m: int| 0 <= m < j ==> !keys[m],
    ensures
        model::first_down_key(keys) == model::first_down_key_from(keys, j),
    decreases j,
{
    if j > 0 {
        lemma_first_down_key_scan(keys, j - 1);
    }
}

impl CPU {
    /// The lowest keypad index whose key is down, if any key is down.
    fn first_pressed(&self) -> (r: Option<usize>)
        requires
            self.wf(),
        ensures
            (r matches Some(k) ==> k == model::first_down_key(self@.keys) && k < NUM_KEYS),
            r is None ==> model::first_down_key(self@.keys) == NUM_KEYS,
    {
        let mut k: usize = 0;
        while k < NUM_KEYS
            invariant
                self.wf(),
                k <= NUM_KEYS,
                forall|m: int| 0 <= m < k ==> !self@.keys[m],
            decreases NUM_KEYS - k,
        {
            if self.inputs[k] {
                proof {
                    lemma_first_down_key_scan(self@.keys, k as int);
                }
                return Some(k);
            }
            k += 1;
        }
        proof {
            lemma_first_down_key_scan(self@.keys, NUM_KEYS as int);
        }
        None
    }

    /// Fx0A: block until a key is down. While no key is down the program
    /// counter is rewound by 2, so the same instruction is presented again
    /// on the next step; once some key is down, the lowest such index is
    /// stored and execution resumes.
    pub fn wait_for_key(&mut self, opcode: Opcode)
        requires
            old(self).wf(),
            opcode.wf(),
            old(self)@.pc >= 2,
        ensures
            final(self).wf(),
            final(self)@ == model::wait_for_key(old(self)@, opcode.x as int),
    {
        match self.first_pressed() {
            Some(k) => {
                self.registers[opcode.x as usize] = k as u8;
            },
            None => {
                self.pc = self.pc - 2;
            },
        }
    }

    /// Fx33: write the hundreds, tens and ones digits of the register to
    /// memory at the index register; fatal when the three bytes do not
    /// fit in memory, with the machine unchanged.
    pub fn binary_coded_decimal_conversion(&mut self, opcode: Opcode) -> (r: Result<(), VmError>)
        requires
            old(self).wf(),
            opcode.wf(),
        ensures
            final(self).wf(),
            model::bcd_ok(old(self)@) ==> r == Ok::<(), VmError>(()) && final(self)@
                == model::binary_coded_decimal_conversion(old(self)@, opcode.x as int),
            !model::bcd_ok(old(self)@) ==> r == Err::<(), VmError>(VmError::OutOfBoundsAddress)
                && final(self)@ == old(self)@,
    {
        if self.i + 2 >= RAM_SIZE {
            return Err(VmError::OutOfBoundsAddress);
        }
        let v = self.registers[opcode.x as usize];
        self.ram[self.i] = v / 100;
        self.ram[self.i + 1] = (v / 10) % 10;
        self.ram[self.i + 2] = v % 10;
        Ok(())
    }

    /// Fx55: write registers 0 through `x` to memory starting at the index
    /// register; fatal when the block does not fit in memory, with the
    /// machine unchanged.
    pub fn store_registers_to_memory(&mut self, opcode: Opcode) -> (r: Result<(), VmError>)
        requires
            old(self).wf(),
            opcode.wf(),
        ensures
            final(self).wf(),
            model::reg_block_ok(old(self)@, opcode.x as int) ==> r == Ok::<(), VmError>(())
                && final(self)@ == model::store_registers_to_memory(old(self)@, opcode.x as int),
            !model::reg_block_ok(old(self)@, opcode.x as int) ==> r == Err::<(), VmError>(
                VmError::OutOfBoundsAddress,
            ) && final(self)@ == old(self)@,
    {
        let x = opcode.x as usize;
        if self.i + x >= RAM_SIZE {
            return Err(VmError::OutOfBoundsAddress);
        }
        let base = self.i;
        let mut k: usize = 0;
        while k < x + 1
            invariant
                old(self).wf(),
                opcode.wf(),
                x == opcode.x,
                k <= x + 1,
                base == old(self)@.i,
                base + x < RAM_SIZE,
                self@ == (model::State { mem: self@.mem, ..old(self)@ }),
                self@.mem.len() == RAM_SIZE,
                forall|a: int| base <= a < base + k ==> self@.mem[a] == old(self)@.regs[a - base],
                forall|a: int|
                    0 <= a < RAM_SIZE && !(base <= a < base + k) ==> self@.mem[a] == old(
                        self,
                    )@.mem[a],
            decreases x + 1 - k,
        {
            self.ram[base + k] = self.registers[k];
            k += 1;
        }
        proof {
            assert(self@.mem =~= model::store_registers_to_memory(old(self)@, opcode.x as int).mem);
        }
        Ok(())
    }

    /// Fx65: load registers 0 through `x` from memory starting at the
    /// index register; fatal when the block does not fit in memory, with
    /// the machine unchanged.
    pub fn load_registers_from_memory(&mut self, opcode: Opcode) -> (r: Result<(), VmError>)
        requires
            old(self).wf(),
            opcode.wf(),
        ensures
            final(self).wf(),
            model::reg_block_ok(old(self)@, opcode.x as int) ==> r == Ok::<(), VmError>(())
                && final(self)@ == model::load_registers_from_memory(old(self)@, opcode.x as int),
            !model::reg_block_ok(old(self)@, opcode.x as int) ==> r == Err::<(), VmError>(
                VmError::OutOfBoundsAddress,
            ) && final(self)@ == old(self)@,
    {
        let x = opcode.x as usize;
        if self.i + x >= RAM_SIZE {
            return Err(VmError::OutOfBoundsAddress);
        }
        let base = self.i;
        let mut k: usize = 0;
        while k < x + 1
            invariant
                old(self).wf(),
                opcode.wf(),
                x == opcode.x,
                k <= x + 1,
                base == old(self)@.i,
                base + x < RAM_SIZE,
                self@ == (model::State { regs: self@.regs, ..old(self)@ }),
                self@.regs.len() == NUM_REGISTERS,
                forall|j: int| 0 <= j < k ==> self@.regs[j] == old(self)@.mem[base + j],
                forall|j: int| k <= j < NUM_REGISTERS ==> self@.regs[j] == old(self)@.regs[j],
            decreases x + 1 - k,
        {
            self.registers[k] = self.ram[base + k];
            k += 1;
        }
        proof {
            assert(self@.regs =~= model::load_registers_from_memory(old(self)@, opcode.x as int).regs);
        }
        Ok(())
    }
}

/// Relies on `rand::thread_rng` and `rand::Rng::gen` for a uniformly
/// distributed byte; nothing is promised of the value.
#[verifier::external_body]
fn random_byte() -> u8 {
    rand::thread_rng().gen()
}

impl CPU {
    /// Cxnn: store a random byte, masked with the immediate, into the
    /// register. Which byte is drawn is not specified; every outcome
    /// satisfies the contract.
    pub fn random(&mut self, opcode: Opcode)
        requires
            old(self).wf(),
            opcode.wf(),
        ensures
            final(self).wf(),
            exists|b: u8|
                final(self)@ == model::set_register(
                    old(self)@,
                    opcode.x as int,
                    #[trigger] (b & (opcode.nn as u8)),
                ),
    {
        let b = random_byte();
        self.registers[opcode.x as usize] = b & (opcode.nn as u8);
        proof {
            assert(self@ == model::set_register(old(self)@, opcode.x as int, b & (opcode.nn as u8)));
        }
    }

    /// Fetch the two bytes at the program counter as a big-endian word,
    /// advance the counter past them, and decode; fatal when the counter
    /// points outside memory, with the machine unchanged.
    pub fn get_next_opcode(&mut self) -> (r: Result<Opcode, VmError>)
        requires
            old(self).wf(),
        ensures
            final(self).wf(),
            model::fetch_ok(old(self)@) ==> (r matches Ok(op) && op.wf() && op.decodes(
                model::fetch_word(old(self)@),
            ) && final(self)@ == (model::State { pc: old(self)@.pc + 2, ..old(self)@ })),
            !model::fetch_ok(old(self)@) ==> r == Err::<Opcode, VmError>(
                VmError::OutOfBoundsAddress,
            ) && final(self)@ == old(self)@,
    {
        if self.pc + 1 >= RAM_SIZE {
            return Err(VmError::OutOfBoundsAddress);
        }
        let hi = self.ram[self.pc];
        let lo = self.ram[self.pc + 1];
        let word: u16 = ((hi as u16) << 8u16) | (lo as u16);
        self.pc = self.pc + 2;
        Ok(Opcode::decode(word))
    }

    /// Execute exactly one instruction: fetch, decode, dispatch. An
    /// unmatched pattern is consumed as a no-op; the fatal conditions —
    /// stack overflow and underflow, and out-of-bounds addressing during a
    /// fetch or a memory-block instruction — are surfaced in the result,
    /// with the machine left as the failing instruction found it.
    pub fn execute_tick(&mut self) -> (r: Result<(), VmError>)
        requires
            old(self).wf(),
        ensures
            final(self).wf(),
            model::step(old(self)@, final(self)@, r),
    {
        let opcode = match self.get_next_opcode() {
            Ok(op) => op,
            Err(e) => {
                return Err(e);
            },
        };
        match (opcode.nibbles.0, opcode.nibbles.1, opcode.nibbles.2, opcode.nibbles.3) {
            (0x0, 0x0, 0xE, 0x0) => {
                self.clear_screen();
                Ok(())
            },
            (0x0, 0x0, 0xE, 0xE) => self.return_from_subroutine(),
            (0x1, _, _, _) => {
                self.jump(opcode);
                Ok(())
            },
            (0x2, _, _, _) => self.call_subroutine(opcode),
            (0x3, _, _, _) => {
                self.skip_compare_reg_value(opcode, true);
                Ok(())
            },
            (0x4, _, _, _) => {
                self.skip_compare_reg_value(opcode, false);
                Ok(())
            },
            (0x5, _, _, 0x0) => {
                self.skip_compare_registers(opcode, true);
                Ok(())
            },
            (0x6, _, _, _) => {
                self.set_register(opcode);
                Ok(())
            },
            (0x7, _, _, _) => {
                self.add_to_register(opcode);
                Ok(())
            },
            (0x8, _, _, 0x0) => {
                self.copy_register(opcode);
                Ok(())
            },
            (0x8, _, _, 0x1) => {
                self.binary_or(opcode);
                Ok(())
            },
            (0x8, _, _, 0x2) => {
                self.binary_and(opcode);
                Ok(())
            },
            (0x8, _, _, 0x3) => {
                self.binary_xor(opcode);
                Ok(())
            },
            (0x8, _, _, 0x4) => {
                self.add_register(opcode);
                Ok(())
            },
            (0x8, _, _, 0x5) => {
                self.subtract_register(opcode, false);
                Ok(())
            },
            (0x8, _, _, 0x6) => {
                self.shift_right(opcode);
                Ok(())
            },
            (0x8, _, _, 0x7) => {
                self.subtract_register(opcode, true);
                Ok(())
            },
            (0x8, _, _, 0xE) => {
                self.shift_left(opcode);
                Ok(())
            },
            (0x9, _, _, 0x0) => {
                self.skip_compare_registers(opcode, false);
                Ok(())
            },
            (0xA, _, _, _) => {
                self.set_index_register(opcode);
                Ok(())
            },
            (0xB, _, _, _) => {
                self.jump_with_offset(opcode);
                Ok(())
            },
            (0xC, _, _, _) => {
                self.random(opcode);
                Ok(())
            },
            (0xD, _, _, _) => self.draw(opcode),
            (0xE, _, 0x9, 0xE) => {
                self.skip_if_key(opcode, true);
                Ok(())
            },
            (0xE, _, 0xA, 0x1) => {
                self.skip_if_key(opcode, false);
                Ok(())
            },
            (0xF, _, 0x0, 0x7) => {
                self.copy_delay_timer_to_register(opcode);
                Ok(())
            },
            (0xF, _, 0x0, 0xA) => {
                self.wait_for_key(opcode);
                Ok(())
            },
            (0xF, _, 0x1, 0x5) => {
                self.copy_register_to_delay_timer(opcode);
                Ok(())
            },
            (0xF, _, 0x1, 0x8) => {
                self.copy_register_to_sound_timer(opcode);
                Ok(())
            },
            (0xF, _, 0x1, 0xE) => {
                self.add_to_index(opcode);
                Ok(())
            },
            (0xF, _, 0x2, 0x9) => {
                self.font_character(opcode);
                Ok(())
            },
            (0xF, _, 0x3, 0x3) => self.binary_coded_decimal_conversion(opcode),
            (0xF, _, 0x5, 0x5) => self.store_registers_to_memory(opcode),
            (0xF, _, 0x6, 0x5) => self.load_registers_from_memory(opcode),
            _ => Ok(()),
        }
    }
}

} // verus!
