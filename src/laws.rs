//! Properties of the machine that relate several operations or hold of every state.
use vstd::prelude::*;

use crate::instruction::Instruction;
use crate::machine::{
    addr_add, called, cleared, executed, fetched, initial, key_of, offset_from_index, regs_loaded, regs_stored,
    returned, collides_upto, sprite_bit, lemma_sprite_cell, lemma_sprite_cell_unique, sprite_cell, sprite_col, sprite_drawn, sprite_row, Fault, MachineView,
};

verus! {

/// Execution starts at the program start, and a fetch moves the program
/// counter forward by exactly one instruction word (two bytes).
pub proof fn lemma_fetch_advances(font: Seq<u8>, v: MachineView)
    requires
        v.valid(),
    ensures
        initial(font).pc == 0x200,
        fetched(v).pc == addr_add(v.pc, 2),
        v.pc + 2 < 4096 ==> fetched(v).pc == v.pc + 2,
{
}

/// An instruction that does not transfer control (no jump, call, return, skip
/// or wait) leaves the program counter where the fetch put it.
pub proof fn lemma_straight_line_pc(v: MachineView, ins: Instruction, rnd: u8)
    requires
        v.valid(),
        ins.valid(),
        !(ins is Jump || ins is Call || ins is Return || ins is JumpOffset || ins is SkipEqImm
            || ins is SkipNeImm || ins is SkipEqReg || ins is SkipNeReg || ins is SkipKey
            || ins is SkipNoKey || ins is WaitKey),
    ensures
        executed(v, ins, rnd).pc == v.pc,
{
}

/// Clearing the screen unsets all 2048 cells and marks a render pending.
pub proof fn lemma_clear_screen(v: MachineView)
    requires
        v.valid(),
    ensures
        cleared(v).vram.len() == 2048,
        forall|p: int| 0 <= p < 2048 ==> #[trigger] cleared(v).vram[p] == 0,
        cleared(v).dirty,
{
}

/// Below full depth a call succeeds, and a return right after it brings the
/// program counter back to the address after the call with the stack as it
/// was; at full depth (16) a call raises a stack overflow.
pub proof fn lemma_call_return(v: MachineView, addr: int)
    requires
        v.valid(),
        0 <= addr < 4096,
    ensures
        v.sp < 16 ==> called(v, addr) is Ok,
        v.sp < 16 ==> returned(called(v, addr)->Ok_0) is Ok,
        v.sp < 16 ==> returned(called(v, addr)->Ok_0)->Ok_0.pc == v.pc,
        v.sp < 16 ==> returned(called(v, addr)->Ok_0)->Ok_0.sp == v.sp,
        v.sp == 16 ==> called(v, addr) == Err::<MachineView, Fault>(Fault::StackOverflow),
{
}

/// Storing registers 0..=x and loading them back from the same index register
/// gives back every register.
pub proof fn lemma_store_load_round_trip(v: MachineView, x: int)
    requires
        v.valid(),
        0 <= x < 16,
    ensures
        regs_loaded(regs_stored(v, x), x).regs == v.regs,
{
    let w = regs_loaded(regs_stored(v, x), x);
    assert forall|i: int| 0 <= i < 16 implies w.regs[i] == v.regs[i] by {
        if i <= x {
            assert(offset_from_index(v, addr_add(v.ir, i)) == i);
        }
    }
    assert(w.regs =~= v.regs);
}

/// The key that a key-skip consults is within the 16-key snapshot, whatever
/// the register holds.
pub proof fn lemma_key_index_in_range(v: MachineView, x: int)
    requires
        v.valid(),
        0 <= x < 16,
    ensures
        0 <= key_of(v, x) < 16,
        key_of(v, x) < v.keypad.len(),
{
}

/// Drawing the same sprite twice at the same place restores every pixel, and
/// the second draw reports a collision exactly when some set sprite bit fell on
/// a pixel that was unset before the first draw. The coordinate registers must
/// not be the flag register, which the first draw overwrites.
pub proof fn lemma_double_draw(v: MachineView, x: int, y: int, n: int)
    requires
        v.valid(),
        0 <= x < 15,
        0 <= y < 15,
        0 <= n < 16,
    ensures
        sprite_drawn(sprite_drawn(v, x, y, n), x, y, n).vram == v.vram,
        sprite_drawn(sprite_drawn(v, x, y, n), x, y, n).regs[15] == 1 <==> exists|m: int|
            0 <= m < n * 8 && #[trigger] sprite_bit(v, m / 8, m % 8) == 1 && v.vram[sprite_cell(
                v.regs[x] as int,
                v.regs[y] as int,
                m,
            )] == 0,
{
    lemma_double_draw_restores(v, x, y, n);
    lemma_double_draw_flag(v, x, y, n);
}

proof fn lemma_xor_twice(a: u8, b: u8)
    ensures
        (a ^ b) ^ b == a,
{
    assert((a ^ b) ^ b == a) by (bit_vector);
}

proof fn lemma_xor_one(a: u8)
    requires
        a <= 1,
    ensures
        (a ^ 1u8) == 1u8 <==> a == 0,
{
    assert((a ^ 1u8) == 1u8 <==> a == 0) by (bit_vector)
        requires
            a <= 1,
    ;
}

proof fn lemma_double_draw_restores(v: MachineView, x: int, y: int, n: int)
    requires
        v.valid(),
        0 <= x < 15,
        0 <= y < 15,
        0 <= n < 16,
    ensures
        sprite_drawn(sprite_drawn(v, x, y, n), x, y, n).vram == v.vram,
{
    let w1 = sprite_drawn(v, x, y, n);
    let w2 = sprite_drawn(w1, x, y, n);
    let vx = v.regs[x] as int;
    let vy = v.regs[y] as int;
    assert(w1.regs[x] == v.regs[x] && w1.regs[y] == v.regs[y]);
    assert(w1.ram == v.ram && w1.ir == v.ir);
    assert forall|p: int| 0 <= p < 2048 implies w2.vram[p] == v.vram[p] by {
        let i = sprite_row(vy, p);
        let j = sprite_col(vx, p);
        assert(sprite_bit(w1, i, j) == sprite_bit(v, i, j));
        lemma_xor_twice(v.vram[p], sprite_bit(v, i, j));
    }
    assert(w2.vram =~= v.vram);
}

proof fn lemma_double_draw_flag(v: MachineView, x: int, y: int, n: int)
    requires
        v.valid(),
        0 <= x < 15,
        0 <= y < 15,
        0 <= n < 16,
    ensures
        sprite_drawn(sprite_drawn(v, x, y, n), x, y, n).regs[15] == 1 <==> exists|m: int|
            0 <= m < n * 8 && #[trigger] sprite_bit(v, m / 8, m % 8) == 1 && v.vram[sprite_cell(
                v.regs[x] as int,
                v.regs[y] as int,
                m,
            )] == 0,
{
    let w1 = sprite_drawn(v, x, y, n);
    let vx = v.regs[x] as int;
    let vy = v.regs[y] as int;
    assert(w1.regs[x] == v.regs[x] && w1.regs[y] == v.regs[y]);
    assert(w1.ram == v.ram && w1.ir == v.ir);
    if collides_upto(w1, vx, vy, n * 8) {
        let m = choose|m: int|
            0 <= m < n * 8 && #[trigger] sprite_bit(w1, m / 8, m % 8) == 1 && w1.vram[sprite_cell(
                vx,
                vy,
                m,
            )] == 1;
        lemma_sprite_cell(vx, vy, m);
        assert(sprite_bit(v, m / 8, m % 8) == sprite_bit(w1, m / 8, m % 8));
        lemma_xor_one(v.vram[sprite_cell(vx, vy, m)]);
    }
    if exists|m: int|
        0 <= m < n * 8 && #[trigger] sprite_bit(v, m / 8, m % 8) == 1 && v.vram[sprite_cell(
            vx,
            vy,
            m,
        )] == 0 {
        let m = choose|m: int|
            0 <= m < n * 8 && #[trigger] sprite_bit(v, m / 8, m % 8) == 1 && v.vram[sprite_cell(
                vx,
                vy,
                m,
            )] == 0;
        lemma_sprite_cell(vx, vy, m);
        assert(sprite_bit(v, m / 8, m % 8) == sprite_bit(w1, m / 8, m % 8));
        lemma_xor_one(v.vram[sprite_cell(vx, vy, m)]);
        assert(collides_upto(w1, vx, vy, n * 8));
    }
}

/// A sprite changes only the cells where its bits land, row and column
/// wrapping at the screen's edges: the `k`-th bit lands in column
/// `(vx + k % 8) % 64` and row `(vy + k / 8) % 32`.
pub proof fn lemma_draw_wraps(v: MachineView, x: int, y: int, n: int)
    requires
        v.valid(),
        0 <= x < 16,
        0 <= y < 16,
        0 <= n < 16,
    ensures
        forall|k: int|
            0 <= k < n * 8 ==> 0 <= #[trigger] sprite_cell(v.regs[x] as int, v.regs[y] as int, k)
                < 2048,
        forall|p: int|
            0 <= p < 2048 && sprite_drawn(v, x, y, n).vram[p] != v.vram[p] ==> exists|k: int|
                0 <= k < n * 8 && p == #[trigger] sprite_cell(v.regs[x] as int, v.regs[y] as int, k),
{
    let vx = v.regs[x] as int;
    let vy = v.regs[y] as int;
    assert forall|k: int| 0 <= k < n * 8 implies 0 <= #[trigger] sprite_cell(vx, vy, k) < 2048 by {
        lemma_sprite_cell(vx, vy, k);
    }
    assert forall|p: int| 0 <= p < 2048 && sprite_drawn(v, x, y, n).vram[p] != v.vram[p] implies exists|k: int|
        0 <= k < n * 8 && p == #[trigger] sprite_cell(vx, vy, k) by {
        let k = sprite_row(vy, p) * 8 + sprite_col(vx, p);
        lemma_sprite_cell_unique(vx, vy, k, p);
    }
}

} // verus!
