//! General properties of the instruction semantics, stated over the
//! abstract model and proved once for every well-formed state.

use vstd::prelude::*;

use crate::model;
use crate::model::{NUM_REGISTERS, STACK_DEPTH};

verus! {

/// Storing a byte in a register and reading that register back yields
/// exactly the stored byte, for every register index and every value.
pub proof fn lemma_set_register_then_read(s: model::State, r: int, v: u8)
    requires
        model::wf(s),
        0 <= r < NUM_REGISTERS,
    ensures
        model::set_register(s, r, v).regs[r] == v,
{
}

/// 7xnn wraps modulo 256 and has no flag side effect: the flag register is
/// untouched whenever it is not itself the target, and so is every other
/// register besides the target.
pub proof fn lemma_add_to_register_wraps(s: model::State, x: int, nn: u8)
    requires
        model::wf(s),
        0 <= x < NUM_REGISTERS,
    ensures
        model::add_to_register(s, x, nn).regs[x] == (s.regs[x] + nn) % 256,
        x != 15 ==> model::add_to_register(s, x, nn).regs[15] == s.regs[15],
        forall|j: int|
            0 <= j < NUM_REGISTERS && j != x ==> model::add_to_register(s, x, nn).regs[j]
                == s.regs[j],
{
}

/// 8xy4: when the operands sum to at most 255 the flag register ends 0 and
/// the target holds the exact sum; when they sum past 255 the flag register
/// ends 1 and the target holds the sum wrapped modulo 256.
pub proof fn lemma_add_register_carry(s: model::State, x: int, y: int)
    requires
        model::wf(s),
        0 <= x < NUM_REGISTERS,
        0 <= y < NUM_REGISTERS,
    ensures
        s.regs[x] + s.regs[y] <= 255 ==> model::add_register(s, x, y).regs[15] == 0,
        s.regs[x] + s.regs[y] > 255 ==> model::add_register(s, x, y).regs[15] == 1,
        x != 15 && s.regs[x] + s.regs[y] <= 255 ==> model::add_register(s, x, y).regs[x]
            == s.regs[x] + s.regs[y],
        x != 15 && s.regs[x] + s.regs[y] > 255 ==> model::add_register(s, x, y).regs[x]
            == s.regs[x] + s.regs[y] - 256,
{
}

/// 8xy5: when no borrow occurs the flag register ends 1 and the target
/// holds the exact difference; on a borrow the flag register ends 0 and the
/// target holds the difference wrapped modulo 256.
pub proof fn lemma_subtract_register_borrow(s: model::State, x: int, y: int)
    requires
        model::wf(s),
        0 <= x < NUM_REGISTERS,
        0 <= y < NUM_REGISTERS,
    ensures
        s.regs[x] >= s.regs[y] ==> model::subtract_register(s, x, y, false).regs[15] == 1,
        s.regs[x] < s.regs[y] ==> model::subtract_register(s, x, y, false).regs[15] == 0,
        x != 15 && s.regs[x] >= s.regs[y] ==> model::subtract_register(s, x, y, false).regs[x]
            == s.regs[x] - s.regs[y],
        x != 15 && s.regs[x] < s.regs[y] ==> model::subtract_register(s, x, y, false).regs[x]
            == s.regs[x] - s.regs[y] + 256,
{
}

/// A call followed by a return restores the machine exactly: the program
/// counter comes back to the value it held right after the call
/// instruction's own fetch-advance, and the stack and every other
/// component are as before the call.
pub proof fn lemma_call_return_round_trip(s: model::State, nnn: u16)
    requires
        model::wf(s),
        s.stack.len() < STACK_DEPTH,
    ensures
        model::return_from_subroutine(model::call_subroutine(s, nnn)) == s,
{
    assert(model::call_subroutine(s, nnn).stack.drop_last() =~= s.stack);
    assert(model::return_from_subroutine(model::call_subroutine(s, nnn)) =~= s);
}

/// The timers never fall below zero: a tick leaves a zero delay timer at
/// zero and decrements a positive one by exactly 1, and likewise for the
/// sound timer.
pub proof fn lemma_timer_floor(s: model::State)
    ensures
        s.delay == 0 ==> model::tick_timers(s).delay == 0,
        s.delay > 0 ==> model::tick_timers(s).delay == s.delay - 1,
        s.sound == 0 ==> model::tick_timers(s).sound == 0,
        s.sound > 0 ==> model::tick_timers(s).sound == s.sound - 1,
{
}

} // verus!
