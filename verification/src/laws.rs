//! Laws of the instruction set that relate several instructions, proved
//! over the engine's transition function.

use vstd::prelude::*;

use crate::exec::exec_model;
use crate::exec::first_key_from;
use crate::exec::lemma_op_fields;
use crate::exec::load_regs;
use crate::exec::op_x;
use crate::exec::store_regs;
use crate::state::Model;

verus! {

/// `store_regs` does not change the length of memory.
proof fn lemma_store_regs_len(mem: Seq<u8>, v: Seq<u8>, idx: int, k: int)
    requires
        0 <= idx,
        idx + k <= mem.len(),
    ensures
        store_regs(mem, v, idx, k).len() == mem.len(),
    decreases k,
{
    if k > 0 {
        lemma_store_regs_len(mem, v, idx, k - 1);
    }
}

/// Inside the stored window, memory holds the registers.
proof fn lemma_store_regs_at(mem: Seq<u8>, v: Seq<u8>, idx: int, k: int, j: int)
    requires
        0 <= j < k,
        0 <= idx,
        idx + k <= mem.len(),
    ensures
        store_regs(mem, v, idx, k)[idx + j] == v[j],
    decreases k,
{
    lemma_store_regs_len(mem, v, idx, k - 1);
    if j < k - 1 {
        lemma_store_regs_at(mem, v, idx, k - 1, j);
    }
    lemma_store_regs_len(mem, v, idx, k);
}

/// Outside the stored window, memory is untouched.
proof fn lemma_store_regs_other(mem: Seq<u8>, v: Seq<u8>, idx: int, k: int, p: int)
    requires
        0 <= idx,
        idx + k <= mem.len(),
        0 <= p < mem.len(),
        !(idx <= p < idx + k),
    ensures
        store_regs(mem, v, idx, k)[p] == mem[p],
    decreases k,
{
    if k > 0 {
        lemma_store_regs_len(mem, v, idx, k - 1);
        lemma_store_regs_other(mem, v, idx, k - 1, p);
    }
}

/// `load_regs` does not change the number of registers.
proof fn lemma_load_regs_len(mem: Seq<u8>, v: Seq<u8>, idx: int, k: int)
    requires
        k <= v.len(),
    ensures
        load_regs(mem, v, idx, k).len() == v.len(),
    decreases k,
{
    if k > 0 {
        lemma_load_regs_len(mem, v, idx, k - 1);
    }
}

/// Inside the loaded window, the registers hold memory.
proof fn lemma_load_regs_at(mem: Seq<u8>, v: Seq<u8>, idx: int, k: int, j: int)
    requires
        0 <= j < k,
        k <= v.len(),
    ensures
        load_regs(mem, v, idx, k)[j] == mem[idx + j],
    decreases k,
{
    lemma_load_regs_len(mem, v, idx, k - 1);
    if j < k - 1 {
        lemma_load_regs_at(mem, v, idx, k - 1, j);
    }
}

/// Above the loaded window, the registers are untouched.
proof fn lemma_load_regs_other(mem: Seq<u8>, v: Seq<u8>, idx: int, k: int, j: int)
    requires
        k <= v.len(),
        0 <= j < v.len(),
        !(0 <= j < k),
    ensures
        load_regs(mem, v, idx, k)[j] == v[j],
    decreases k,
{
    if k > 0 {
        lemma_load_regs_len(mem, v, idx, k - 1);
        lemma_load_regs_other(mem, v, idx, k - 1, j);
    }
}

/// Storing registers to memory and loading them back from the same
/// window restores the register file exactly.
pub proof fn lemma_store_load_regs(mem: Seq<u8>, v: Seq<u8>, idx: int, k: int)
    requires
        0 <= idx,
        0 <= k <= v.len(),
        idx + k <= mem.len(),
    ensures
        load_regs(store_regs(mem, v, idx, k), v, idx, k) == v,
{
    let m1 = store_regs(mem, v, idx, k);
    let v1 = load_regs(m1, v, idx, k);
    lemma_store_regs_len(mem, v, idx, k);
    lemma_load_regs_len(m1, v, idx, k);
    assert forall|j: int| 0 <= j < v.len() implies v1[j] == v[j] by {
        if j < k {
            lemma_load_regs_at(m1, v, idx, k, j);
            lemma_store_regs_at(mem, v, idx, k, j);
        } else {
            lemma_load_regs_other(m1, v, idx, k, j);
        }
    }
    assert(v1 =~= v);
}

/// An `Fx55` register dump followed by an `Fx65` register fill, for the
/// same `x` and the same index register, restores the very register
/// values that were dumped.
pub proof fn lemma_fx55_fx65_round_trip(
    op55: u16,
    op65: u16,
    s: Model,
    mem: Seq<u8>,
    r1: u8,
    r2: u8,
)
    requires
        s.wf(),
        mem.len() == 4096,
        s.pc + 8 <= usize::MAX,
        op55 & 0xF0FF == 0xF055,
        op65 & 0xF0FF == 0xF065,
        op_x(op55) == op_x(op65),
        s.index + op_x(op55) + 1 <= 4096,
    ensures
        exec_model(op55, s, mem, r1) matches Ok(t1) && exec_model(op65, t1.0, t1.1, r2) matches Ok(
            t2,
        ) && t2.0.v == s.v,
{
    assert(op55 & 0xF000 == 0xF000 && op55 & 0x00FF == 0x0055) by (bit_vector)
        requires
            op55 & 0xF0FF == 0xF055,
    ;
    assert(op65 & 0xF000 == 0xF000 && op65 & 0x00FF == 0x0065) by (bit_vector)
        requires
            op65 & 0xF0FF == 0xF065,
    ;
    lemma_op_fields(op55);
    let t1 = exec_model(op55, s, mem, r1)->Ok_0;
    lemma_store_load_regs(mem, s.v, s.index as int, op_x(op55) + 1);
}

/// Outside the jump, call and return instructions, and apart from the
/// key-wait instruction spinning with no key pressed, a successful step
/// advances the program counter by exactly 2 or 4; it never moves it
/// backward.
pub proof fn lemma_pc_advance(op: u16, s: Model, mem: Seq<u8>, r: u8)
    requires
        s.wf(),
        mem.len() == 4096,
        s.pc + 4 <= usize::MAX,
        op & 0xF000 != 0x1000,
        op & 0xF000 != 0x2000,
        op != 0x00EE,
        !(op & 0xF000 == 0xF000 && op & 0x00FF == 0x000A && first_key_from(s.key, 0) is None),
    ensures
        exec_model(op, s, mem, r) matches Ok(t) ==> t.0.pc == s.pc + 2 || t.0.pc == s.pc + 4,
{
}

} // verus!
