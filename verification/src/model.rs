//! Abstract model of the machine: the ghost state, its well-formedness
//! condition, and the meaning of every instruction as a function (or, for
//! the whole fetch-decode-execute cycle, a relation) over that state.

use vstd::prelude::*;

verus! {

/// Size of the flat byte memory.
pub const RAM_SIZE: usize = 4096;

/// Width of the monochrome framebuffer in pixels.
pub const SCREEN_WIDTH: usize = 64;

/// Height of the monochrome framebuffer in pixels.
pub const SCREEN_HEIGHT: usize = 32;

/// Number of general-purpose registers.
pub const NUM_REGISTERS: usize = 16;

/// Number of keypad keys.
pub const NUM_KEYS: usize = 16;

/// Maximum depth of the call stack.
pub const STACK_DEPTH: usize = 16;

/// Address at which the font glyph table is placed.
pub const FONT_BASE: usize = 0x50;

/// Address at which the program image is placed, and the initial program
/// counter.
pub const PROGRAM_START: usize = 0x200;

/// Largest program image that fits between `PROGRAM_START` and the end of
/// memory.
pub const MAX_PROGRAM_SIZE: usize = 3584;

/// Strict upper bound on the program counter. The counter normally stays
/// below `RAM_SIZE` (an out-of-range counter is caught at the next fetch),
/// but a jump with offset can place it as high as `0xFFF + 0xFF`; this bound
/// is preserved by every operation.
pub const PC_BOUND: usize = 4352;

/// The abstract machine state: every observable component of the machine,
/// as mathematical values.
#[verifier::ext_equal]
pub ghost struct State {
    /// Flat byte memory of `RAM_SIZE` cells.
    pub mem: Seq<u8>,
    /// Framebuffer pixels, row-major: the pixel at column `x`, row `y` is
    /// `fb[y * SCREEN_WIDTH + x]`.
    pub fb: Seq<bool>,
    /// The sixteen general-purpose registers; register 15 doubles as the
    /// flag register.
    pub regs: Seq<u8>,
    /// Return addresses of the pending subroutine calls, oldest first.
    pub stack: Seq<int>,
    /// Program counter: address of the next instruction to fetch.
    pub pc: int,
    /// Index register.
    pub i: int,
    /// Delay timer.
    pub delay: u8,
    /// Sound timer.
    pub sound: u8,
    /// Key-down flag of each keypad key.
    pub keys: Seq<bool>,
}

/// Well-formedness of a machine state: the containers have their fixed
/// sizes, the stack respects its depth bound, and every address-valued
/// component is in range.
pub open spec fn wf(s: State) -> bool {
    &&& s.mem.len() == RAM_SIZE
    &&& s.fb.len() == SCREEN_WIDTH * SCREEN_HEIGHT
    &&& s.regs.len() == NUM_REGISTERS
    &&& s.keys.len() == NUM_KEYS
    &&& s.stack.len() <= STACK_DEPTH
    &&& forall|k: int| 0 <= k < s.stack.len() ==> 0 <= #[trigger] s.stack[k] < PC_BOUND
    &&& 0 <= s.pc < PC_BOUND
    &&& 0 <= s.i < RAM_SIZE
}

/// The errors a step can surface to the host. Unknown opcodes are not among
/// them: an unmatched pattern is consumed as a no-op.
#[derive(Clone, Copy, Debug, PartialEq, Eq, Structural)]
pub enum VmError {
    /// A subroutine call was attempted at maximum call depth.
    StackOverflow,
    /// A return was attempted on an empty call stack.
    StackUnderflow,
    /// The program counter or an index-register-derived address fell outside
    /// memory during a fetch or a memory-block instruction.
    OutOfBoundsAddress,
}

// ---------------------------------------------------------------------------
// Decoding
// ---------------------------------------------------------------------------

/// Highest nibble of an instruction word.
pub open spec fn nib_hi(w: u16) -> u16 {
    (w >> 12) & 0xF
}

/// Second nibble: the register index `x`.
pub open spec fn op_x(w: u16) -> u16 {
    (w >> 8) & 0xF
}

/// Third nibble: the register index `y`.
pub open spec fn op_y(w: u16) -> u16 {
    (w >> 4) & 0xF
}

/// Lowest nibble: the sprite height `n`.
pub open spec fn op_n(w: u16) -> u16 {
    w & 0xF
}

/// Low byte: the immediate `nn`.
pub open spec fn op_nn(w: u16) -> u8 {
    (w & 0xFF) as u8
}

/// Low 12 bits: the address `nnn`.
pub open spec fn op_nnn(w: u16) -> u16 {
    w & 0xFFF
}

// ---------------------------------------------------------------------------
// Instruction semantics, one function per instruction
// ---------------------------------------------------------------------------

/// A framebuffer with every pixel off.
pub open spec fn blank_fb() -> Seq<bool> {
    Seq::new((SCREEN_WIDTH * SCREEN_HEIGHT) as nat, |k: int| false)
}

/// 00E0: clear every framebuffer cell.
pub open spec fn clear_screen(s: State) -> State {
    State { fb: blank_fb(), ..s }
}

/// 00EE: pop the call stack into the program counter. Defined only for a
/// non-empty stack; on an empty stack the step relation yields
/// `StackUnderflow` instead.
pub open spec fn return_from_subroutine(s: State) -> State {
    State { pc: s.stack.last(), stack: s.stack.drop_last(), ..s }
}

/// 1nnn: jump.
pub open spec fn jump(s: State, nnn: u16) -> State {
    State { pc: nnn as int, ..s }
}

/// 2nnn: push the program counter and jump. Defined only below maximum call
/// depth; at full depth the step relation yields `StackOverflow` instead.
pub open spec fn call_subroutine(s: State, nnn: u16) -> State {
    State { stack: s.stack.push(s.pc), pc: nnn as int, ..s }
}

/// 3xnn / 4xnn: skip the next instruction if the register equals (`equal`)
/// or differs from (`!equal`) the immediate.
pub open spec fn skip_compare_reg_value(s: State, x: int, nn: u8, equal: bool) -> State {
    let taken = if equal { s.regs[x] == nn } else { s.regs[x] != nn };
    State { pc: if taken { s.pc + 2 } else { s.pc }, ..s }
}

/// 5xy0 / 9xy0: skip the next instruction if the two registers are equal
/// (`equal`) or different (`!equal`).
pub open spec fn skip_compare_registers(s: State, x: int, y: int, equal: bool) -> State {
    let taken = if equal { s.regs[x] == s.regs[y] } else { s.regs[x] != s.regs[y] };
    State { pc: if taken { s.pc + 2 } else { s.pc }, ..s }
}

/// 6xnn: load an immediate into a register.
pub open spec fn set_register(s: State, x: int, nn: u8) -> State {
    State { regs: s.regs.update(x, nn), ..s }
}

/// 7xnn: add an immediate to a register, wrapping modulo 256, with no flag
/// side effect.
pub open spec fn add_to_register(s: State, x: int, nn: u8) -> State {
    State { regs: s.regs.update(x, ((s.regs[x] + nn) % 256) as u8), ..s }
}

/// 8xy0: copy one register into another.
pub open spec fn copy_register(s: State, x: int, y: int) -> State {
    State { regs: s.regs.update(x, s.regs[y]), ..s }
}

/// 8xy1: bitwise or.
pub open spec fn binary_or(s: State, x: int, y: int) -> State {
    State { regs: s.regs.update(x, s.regs[x] | s.regs[y]), ..s }
}

/// 8xy2: bitwise and.
pub open spec fn binary_and(s: State, x: int, y: int) -> State {
    State { regs: s.regs.update(x, s.regs[x] & s.regs[y]), ..s }
}

/// 8xy3: bitwise xor.
pub open spec fn binary_xor(s: State, x: int, y: int) -> State {
    State { regs: s.regs.update(x, s.regs[x] ^ s.regs[y]), ..s }
}

/// 8xy4: wrapping add of two registers; the flag register records whether
/// the unwrapped sum exceeded 255. The flag is written after the result, so
/// it survives even when `x` is the flag register itself.
pub open spec fn add_register(s: State, x: int, y: int) -> State {
    let sum = s.regs[x] + s.regs[y];
    let flag: u8 = if sum > 255 { 1 } else { 0 };
    State { regs: s.regs.update(x, (sum % 256) as u8).update(15, flag), ..s }
}

/// 8xy5 / 8xy7: wrapping subtraction; with `opposite` the operand order is
/// reversed (`Vy - Vx`). The flag register records 0 on borrow, 1 otherwise,
/// and is written after the result.
pub open spec fn subtract_register(s: State, x: int, y: int, opposite: bool) -> State {
    let a = if opposite { s.regs[y] } else { s.regs[x] };
    let b = if opposite { s.regs[x] } else { s.regs[y] };
    let flag: u8 = if a - b < 0 { 0 } else { 1 };
    State { regs: s.regs.update(x, ((a - b) % 256) as u8).update(15, flag), ..s }
}

/// 8xy6: shift right by one; the flag register takes the bit shifted out.
/// The result is written after the flag, so when `x` is the flag register
/// the shifted value wins.
pub open spec fn shift_right(s: State, x: int) -> State {
    State { regs: s.regs.update(15, s.regs[x] & 1).update(x, s.regs[x] >> 1u8), ..s }
}

/// 8xyE: shift left by one, truncated to 8 bits; the flag register takes
/// the bit shifted out. The result is written after the flag.
pub open spec fn shift_left(s: State, x: int) -> State {
    State { regs: s.regs.update(15, (s.regs[x] >> 7u8) & 1).update(x, (s.regs[x] & 0x7F) << 1u8), ..s }
}

/// Annn: load the index register.
pub open spec fn set_index_register(s: State, nnn: u16) -> State {
    State { i: nnn as int, ..s }
}

/// Bnnn: jump to `nnn` plus register 0. The result is not masked; an
/// out-of-range counter is caught at the next fetch.
pub open spec fn jump_with_offset(s: State, nnn: u16) -> State {
    State { pc: nnn + s.regs[0], ..s }
}

/// Fx07: copy the delay timer into a register.
pub open spec fn copy_delay_timer_to_register(s: State, x: int) -> State {
    State { regs: s.regs.update(x, s.delay), ..s }
}

/// Fx15: copy a register into the delay timer.
pub open spec fn copy_register_to_delay_timer(s: State, x: int) -> State {
    State { delay: s.regs[x], ..s }
}

/// Fx18: copy a register into the sound timer.
pub open spec fn copy_register_to_sound_timer(s: State, x: int) -> State {
    State { sound: s.regs[x], ..s }
}

/// Fx1E: add a register to the index register, masked to 12 bits; the flag
/// register records whether the unmasked sum reached the end of memory.
pub open spec fn add_to_index(s: State, x: int) -> State {
    let sum = s.i + s.regs[x];
    let flag: u8 = if sum >= RAM_SIZE { 1 } else { 0 };
    State { i: sum % (RAM_SIZE as int), regs: s.regs.update(15, flag), ..s }
}

/// Whether the key with index `k` is currently down. A register value
/// outside 0-15 names no key, so it is never down.
pub open spec fn key_is_down(s: State, k: int) -> bool {
    0 <= k < NUM_KEYS && s.keys[k]
}

/// Ex9E / ExA1: skip the next instruction if the key whose index is in the
/// register is down (`pressed`) or up (`!pressed`).
pub open spec fn skip_if_key(s: State, x: int, pressed: bool) -> State {
    let down = key_is_down(s, s.regs[x] as int);
    let taken = if pressed { down } else { !down };
    State { pc: if taken { s.pc + 2 } else { s.pc }, ..s }
}

/// Fx29: point the index register at the built-in glyph for the digit in
/// the register.
pub open spec fn font_character(s: State, x: int) -> State {
    State { i: FONT_BASE + s.regs[x] * 5, ..s }
}

/// Smallest index of a key that is down, starting the scan at `k`;
/// `NUM_KEYS` when none is down.
pub open spec fn first_down_key_from(keys: Seq<bool>, k: int) -> int
    decreases NUM_KEYS - k,
{
    if k < 0 || k >= NUM_KEYS {
        NUM_KEYS as int
    } else if keys[k] {
        k
    } else {
        first_down_key_from(keys, k + 1)
    }
}

/// Smallest index of a key that is down; `NUM_KEYS` when none is down.
pub open spec fn first_down_key(keys: Seq<bool>) -> int {
    first_down_key_from(keys, 0)
}

/// Fx0A: block until a key is down. While no key is down the program
/// counter is rewound by 2, so the same instruction is presented again on
/// the next step; once some key is down, the lowest such index is stored
/// and execution resumes.
pub open spec fn wait_for_key(s: State, x: int) -> State {
    let k = first_down_key(s.keys);
    if k < NUM_KEYS {
        State { regs: s.regs.update(x, k as u8), ..s }
    } else {
        State { pc: s.pc - 2, ..s }
    }
}

/// Fx33: whether the three-byte binary-coded-decimal write fits in memory.
pub open spec fn bcd_ok(s: State) -> bool {
    s.i + 2 < RAM_SIZE
}

/// Fx33: write the hundreds, tens and ones digits of the register to
/// memory at the index register. Defined only where `bcd_ok` holds.
pub open spec fn binary_coded_decimal_conversion(s: State, x: int) -> State {
    let v = s.regs[x];
    State {
        mem: s.mem.update(s.i, (v / 100) as u8).update(s.i + 1, ((v / 10) % 10) as u8).update(
            s.i + 2,
            (v % 10) as u8,
        ),
        ..s
    }
}

/// Fx55 / Fx65: whether the block touching registers 0 through `x` fits in
/// memory.
pub open spec fn reg_block_ok(s: State, x: int) -> bool {
    s.i + x < RAM_SIZE
}

/// Fx55: write registers 0 through `x` to memory starting at the index
/// register. Defined only where `reg_block_ok` holds.
pub open spec fn store_registers_to_memory(s: State, x: int) -> State {
    State {
        mem: Seq::new(
            s.mem.len(),
            |a: int| if s.i <= a <= s.i + x { s.regs[a - s.i] } else { s.mem[a] },
        ),
        ..s
    }
}

/// Fx65: load registers 0 through `x` from memory starting at the index
/// register. Defined only where `reg_block_ok` holds.
pub open spec fn load_registers_from_memory(s: State, x: int) -> State {
    State {
        regs: Seq::new(
            s.regs.len(),
            |r: int| if r <= x { s.mem[s.i + r] } else { s.regs[r] },
        ),
        ..s
    }
}

// ---------------------------------------------------------------------------
// The draw instruction
// ---------------------------------------------------------------------------

/// Whether bit `c` (counted from the most significant) of a sprite row
/// byte is set.
pub open spec fn sprite_row_bit(row: u8, c: u8) -> bool {
    row & (0x80u8 >> c) != 0
}

/// Whether the sprite drawn at `(x0, y0)` from `n` rows at address `i0`
/// covers the pixel `(px, py)` with a set bit.
pub open spec fn sprite_hit(
    mem: Seq<u8>,
    i0: int,
    x0: int,
    y0: int,
    n: int,
    px: int,
    py: int,
) -> bool {
    &&& y0 <= py < y0 + n
    &&& x0 <= px < x0 + 8
    &&& sprite_row_bit(mem[i0 + (py - y0)], (px - x0) as u8)
}

/// The framebuffer after a draw: every pixel covered by a set sprite bit is
/// toggled; clipping is implicit, since only on-screen pixels exist.
pub open spec fn draw_fb(s: State, x0: int, y0: int, n: int) -> Seq<bool> {
    Seq::new(
        s.fb.len(),
        |idx: int|
            s.fb[idx] ^ sprite_hit(
                s.mem,
                s.i,
                x0,
                y0,
                n,
                idx % (SCREEN_WIDTH as int),
                idx / (SCREEN_WIDTH as int),
            ),
    )
}

/// Whether a draw turned some previously-on pixel off.
pub open spec fn draw_collision(old_fb: Seq<bool>, new_fb: Seq<bool>) -> bool {
    exists|idx: int| 0 <= idx < old_fb.len() && old_fb[idx] && !new_fb[idx]
}

/// How many of the `n` sprite rows starting at scanline `y0` reach the
/// screen. Rows clipped off the bottom are never read from memory.
pub open spec fn clipped_rows(y0: int, n: int) -> int {
    if y0 >= SCREEN_HEIGHT {
        0
    } else if n <= SCREEN_HEIGHT - y0 {
        n
    } else {
        SCREEN_HEIGHT - y0
    }
}

/// Dxyn: whether every sprite row that reaches an on-screen scanline lies
/// inside memory.
pub open spec fn draw_ok(s: State, y0: int, n: int) -> bool {
    s.i + clipped_rows(y0, n) <= RAM_SIZE
}

/// Dxyn: toggle the sprite onto the framebuffer and record in the flag
/// register whether any pixel was turned off. Defined only where `draw_ok`
/// holds of the coordinates taken from the registers.
pub open spec fn draw(s: State, x: int, y: int, n: int) -> State {
    let fb2 = draw_fb(s, s.regs[x] as int, s.regs[y] as int, n);
    State {
        fb: fb2,
        regs: s.regs.update(15, if draw_collision(s.fb, fb2) { 1u8 } else { 0u8 }),
        ..s
    }
}

// ---------------------------------------------------------------------------
// Host-facing operations
// ---------------------------------------------------------------------------

/// One timer tick: each timer is decremented when above zero and left at
/// zero otherwise.
pub open spec fn tick_timers(s: State) -> State {
    State {
        delay: if s.delay > 0 { (s.delay - 1) as u8 } else { 0 },
        sound: if s.sound > 0 { (s.sound - 1) as u8 } else { 0 },
        ..s
    }
}

/// A key event: the flag of key `k` becomes `down`; an index outside the
/// keypad is ignored.
pub open spec fn set_key(s: State, k: int, down: bool) -> State {
    if 0 <= k < NUM_KEYS {
        State { keys: s.keys.update(k, down), ..s }
    } else {
        s
    }
}

// ---------------------------------------------------------------------------
// The fetch-decode-execute step
// ---------------------------------------------------------------------------

/// Whether both bytes of the next instruction lie inside memory.
pub open spec fn fetch_ok(s: State) -> bool {
    s.pc + 1 < RAM_SIZE
}

/// The big-endian instruction word at the program counter.
pub open spec fn fetch_word(s: State) -> u16 {
    ((s.mem[s.pc] as u16) << 8u16) | (s.mem[s.pc + 1] as u16)
}

/// The meaning of executing the already-fetched instruction word `w` from
/// state `s` (the program counter in `s` already points past `w`): the
/// machine ends in state `post` with step result `r`. Deterministic for
/// every instruction except Cxnn, whose random byte is unconstrained.
pub open spec fn execute(s: State, w: u16, post: State, r: Result<(), VmError>) -> bool {
    let x = op_x(w) as int;
    let y = op_y(w) as int;
    let n = op_n(w) as int;
    let nn = op_nn(w);
    let nnn = op_nnn(w);
    if nib_hi(w) == 0x0 && op_x(w) == 0x0 && op_y(w) == 0xE && op_n(w) == 0x0 {
        post == clear_screen(s) && r == Ok::<(), VmError>(())
    } else if nib_hi(w) == 0x0 && op_x(w) == 0x0 && op_y(w) == 0xE && op_n(w) == 0xE {
        if s.stack.len() > 0 {
            post == return_from_subroutine(s) && r == Ok::<(), VmError>(())
        } else {
            post == s && r == Err::<(), VmError>(VmError::StackUnderflow)
        }
    } else if nib_hi(w) == 0x1 {
        post == jump(s, nnn) && r == Ok::<(), VmError>(())
    } else if nib_hi(w) == 0x2 {
        if s.stack.len() < STACK_DEPTH {
            post == call_subroutine(s, nnn) && r == Ok::<(), VmError>(())
        } else {
            post == s && r == Err::<(), VmError>(VmError::StackOverflow)
        }
    } else if nib_hi(w) == 0x3 {
        post == skip_compare_reg_value(s, x, nn, true) && r == Ok::<(), VmError>(())
    } else if nib_hi(w) == 0x4 {
        post == skip_compare_reg_value(s, x, nn, false) && r == Ok::<(), VmError>(())
    } else if nib_hi(w) == 0x5 && op_n(w) == 0 {
        post == skip_compare_registers(s, x, y, true) && r == Ok::<(), VmError>(())
    } else if nib_hi(w) == 0x6 {
        post == set_register(s, x, nn) && r == Ok::<(), VmError>(())
    } else if nib_hi(w) == 0x7 {
        post == add_to_register(s, x, nn) && r == Ok::<(), VmError>(())
    } else if nib_hi(w) == 0x8 && op_n(w) == 0x0 {
        post == copy_register(s, x, y) && r == Ok::<(), VmError>(())
    } else if nib_hi(w) == 0x8 && op_n(w) == 0x1 {
        post == binary_or(s, x, y) && r == Ok::<(), VmError>(())
    } else if nib_hi(w) == 0x8 && op_n(w) == 0x2 {
        post == binary_and(s, x, y) && r == Ok::<(), VmError>(())
    } else if nib_hi(w) == 0x8 && op_n(w) == 0x3 {
        post == binary_xor(s, x, y) && r == Ok::<(), VmError>(())
    } else if nib_hi(w) == 0x8 && op_n(w) == 0x4 {
        post == add_register(s, x, y) && r == Ok::<(), VmError>(())
    } else if nib_hi(w) == 0x8 && op_n(w) == 0x5 {
        post == subtract_register(s, x, y, false) && r == Ok::<(), VmError>(())
    } else if nib_hi(w) == 0x8 && op_n(w) == 0x6 {
        post == shift_right(s, x) && r == Ok::<(), VmError>(())
    } else if nib_hi(w) == 0x8 && op_n(w) == 0x7 {
        post == subtract_register(s, x, y, true) && r == Ok::<(), VmError>(())
    } else if nib_hi(w) == 0x8 && op_n(w) == 0xE {
        post == shift_left(s, x) && r == Ok::<(), VmError>(())
    } else if nib_hi(w) == 0x9 && op_n(w) == 0 {
        post == skip_compare_registers(s, x, y, false) && r == Ok::<(), VmError>(())
    } else if nib_hi(w) == 0xA {
        post == set_index_register(s, nnn) && r == Ok::<(), VmError>(())
    } else if nib_hi(w) == 0xB {
        post == jump_with_offset(s, nnn) && r == Ok::<(), VmError>(())
    } else if nib_hi(w) == 0xC {
        (exists|b: u8| post == set_register(s, x, b & nn)) && r == Ok::<(), VmError>(())
    } else if nib_hi(w) == 0xD {
        if draw_ok(s, s.regs[y] as int, n) {
            post == draw(s, x, y, n) && r == Ok::<(), VmError>(())
        } else {
            post == s && r == Err::<(), VmError>(VmError::OutOfBoundsAddress)
        }
    } else if nib_hi(w) == 0xE && op_y(w) == 0x9 && op_n(w) == 0xE {
        post == skip_if_key(s, x, true) && r == Ok::<(), VmError>(())
    } else if nib_hi(w) == 0xE && op_y(w) == 0xA && op_n(w) == 0x1 {
        post == skip_if_key(s, x, false) && r == Ok::<(), VmError>(())
    } else if nib_hi(w) == 0xF && op_y(w) == 0x0 && op_n(w) == 0x7 {
        post == copy_delay_timer_to_register(s, x) && r == Ok::<(), VmError>(())
    } else if nib_hi(w) == 0xF && op_y(w) == 0x0 && op_n(w) == 0xA {
        post == wait_for_key(s, x) && r == Ok::<(), VmError>(())
    } else if nib_hi(w) == 0xF && op_y(w) == 0x1 && op_n(w) == 0x5 {
        post == copy_register_to_delay_timer(s, x) && r == Ok::<(), VmError>(())
    } else if nib_hi(w) == 0xF && op_y(w) == 0x1 && op_n(w) == 0x8 {
        post == copy_register_to_sound_timer(s, x) && r == Ok::<(), VmError>(())
    } else if nib_hi(w) == 0xF && op_y(w) == 0x1 && op_n(w) == 0xE {
        post == add_to_index(s, x) && r == Ok::<(), VmError>(())
    } else if nib_hi(w) == 0xF && op_y(w) == 0x2 && op_n(w) == 0x9 {
        post == font_character(s, x) && r == Ok::<(), VmError>(())
    } else if nib_hi(w) == 0xF && op_y(w) == 0x3 && op_n(w) == 0x3 {
        if bcd_ok(s) {
            post == binary_coded_decimal_conversion(s, x) && r == Ok::<(), VmError>(())
        } else {
            post == s && r == Err::<(), VmError>(VmError::OutOfBoundsAddress)
        }
    } else if nib_hi(w) == 0xF && op_y(w) == 0x5 && op_n(w) == 0x5 {
        if reg_block_ok(s, x) {
            post == store_registers_to_memory(s, x) && r == Ok::<(), VmError>(())
        } else {
            post == s && r == Err::<(), VmError>(VmError::OutOfBoundsAddress)
        }
    } else if nib_hi(w) == 0xF && op_y(w) == 0x6 && op_n(w) == 0x5 {
        if reg_block_ok(s, x) {
            post == load_registers_from_memory(s, x) && r == Ok::<(), VmError>(())
        } else {
            post == s && r == Err::<(), VmError>(VmError::OutOfBoundsAddress)
        }
    } else {
        // An unmatched pattern is a tolerated no-op: consumed, no state change.
        post == s && r == Ok::<(), VmError>(())
    }
}

/// The meaning of one whole step from state `pre`: fetch (fatal when the
/// counter leaves memory, with no state change), advance the counter past
/// the instruction, then execute it.
pub open spec fn step(pre: State, post: State, r: Result<(), VmError>) -> bool {
    if !fetch_ok(pre) {
        post == pre && r == Err::<(), VmError>(VmError::OutOfBoundsAddress)
    } else {
        execute(State { pc: pre.pc + 2, ..pre }, fetch_word(pre), post, r)
    }
}

// ---------------------------------------------------------------------------
// Construction
// ---------------------------------------------------------------------------

/// The built-in font: sixteen 5-byte glyphs for the hexadecimal digits.
pub open spec fn font() -> Seq<u8> {
    seq![
        0xF0u8, 0x90, 0x90, 0x90, 0xF0, // 0
        0x20, 0x60, 0x20, 0x20, 0x70, // 1
        0xF0, 0x10, 0xF0, 0x80, 0xF0, // 2
        0xF0, 0x10, 0xF0, 0x10, 0xF0, // 3
        0x90, 0x90, 0xF0, 0x10, 0x10, // 4
        0xF0, 0x80, 0xF0, 0x10, 0xF0, // 5
        0xF0, 0x80, 0xF0, 0x90, 0xF0, // 6
        0xF0, 0x10, 0x20, 0x40, 0x40, // 7
        0xF0, 0x90, 0xF0, 0x90, 0xF0, // 8
        0xF0, 0x90, 0xF0, 0x10, 0xF0, // 9
        0xF0, 0x90, 0xF0, 0x90, 0x90, // A
        0xE0, 0x90, 0xE0, 0x90, 0xE0, // B
        0xF0, 0x80, 0x80, 0x80, 0xF0, // C
        0xE0, 0x90, 0x90, 0x90, 0xE0, // D
        0xF0, 0x80, 0xF0, 0x80, 0xF0, // E
        0xF0, 0x80, 0xF0, 0x80, 0x80, // F
    ]
}

/// Memory at construction: the font at `FONT_BASE`, the program image at
/// `PROGRAM_START`, zero elsewhere.
pub open spec fn initial_mem(rom: Seq<u8>) -> Seq<u8> {
    Seq::new(
        RAM_SIZE as nat,
        |a: int|
            if FONT_BASE <= a < FONT_BASE + font().len() {
                font()[a - FONT_BASE]
            } else if PROGRAM_START <= a < PROGRAM_START + rom.len() {
                rom[a - PROGRAM_START]
            } else {
                0u8
            },
    )
}

/// The machine at construction: initial memory, everything else zeroed,
/// the program counter at `PROGRAM_START`.
pub open spec fn initial_state(rom: Seq<u8>) -> State {
    State {
        mem: initial_mem(rom),
        fb: blank_fb(),
        regs: Seq::new(NUM_REGISTERS as nat, |k: int| 0u8),
        stack: Seq::empty(),
        pc: PROGRAM_START as int,
        i: 0,
        delay: 0,
        sound: 0,
        keys: Seq::new(NUM_KEYS as nat, |k: int| false),
    }
}

} // verus!
