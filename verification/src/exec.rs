//! The fetch/decode/execute engine and its mathematical transition
//! function.
//!
//! `exec_model` says, for every opcode and machine state, what the next
//! state is (or which error the instruction raises); the executable engine
//! is proved to follow it exactly. The one opcode whose outcome is not a
//! function of the state alone, `Cxnn`, takes its random byte as an
//! argument in `execute_with_random`, so that the engine is verified for
//! every byte the generator may hand out.

use vstd::prelude::*;

use crate::state::Chip8State;
use crate::state::Model;

verus! {

/// The errors an instruction or the loader can raise. Stack overflow and
/// underflow, an index-register access past the 4096-byte memory, and a
/// key selector outside the 16-key vector are all reported rather than
/// left as unchecked accesses; an oversized program image is rejected at
/// load time.
#[derive(Clone, Copy, PartialEq, Eq, Structural, Debug)]
pub enum Chip8Error {
    RomTooLarge,
    StackOverflow,
    StackUnderflow,
    MemoryOutOfRange,
    KeyOutOfRange,
}

/// The register selector `x` from the second nibble of an opcode.
pub open spec fn op_x(op: u16) -> usize {
    ((op & 0x0F00) >> 8) as usize
}

/// The register selector `y` from the third nibble of an opcode.
pub open spec fn op_y(op: u16) -> usize {
    ((op & 0x00F0) >> 4) as usize
}

/// The 4-bit immediate field `n` of an opcode.
pub open spec fn op_n(op: u16) -> usize {
    (op & 0x000F) as usize
}

/// The 8-bit immediate field `nn` of an opcode.
pub open spec fn op_nn(op: u16) -> u8 {
    (op & 0x00FF) as u8
}

/// The 12-bit address field `nnn` of an opcode.
pub open spec fn op_nnn(op: u16) -> usize {
    (op & 0x0FFF) as usize
}

/// Bounds of the decoded opcode fields.
pub proof fn lemma_op_fields(op: u16)
    ensures
        (op & 0x0F00) >> 8 < 16,
        (op & 0x00F0) >> 4 < 16,
        (op & 0x000F) < 16,
        (op & 0x00FF) < 256,
        (op & 0x0FFF) < 0x1000,
{
    assert((op & 0x0F00) >> 8 < 16 && (op & 0x00F0) >> 4 < 16 && (op & 0x000F) < 16 && (op
        & 0x00FF) < 256 && (op & 0x0FFF) < 0x1000) by (bit_vector);
}

/// The smallest pressed key index at or above `j`, scanning upward.
pub open spec fn first_key_from(key: Seq<bool>, j: int) -> Option<int>
    decreases 16 - j,
{
    if j < 0 || j >= 16 {
        None
    } else if key[j] {
        Some(j)
    } else {
        first_key_from(key, j + 1)
    }
}

/// The framebuffer and collision flag after the first `k` bits of one
/// sprite row are XORed in. Bit `i` of the row lands at column
/// `(vx + i) mod 64` of row `py`; a collision is any XOR that clears a
/// pixel that held 1.
pub open spec fn draw_bits(gfx: Seq<u8>, byte: u8, vx: u8, py: int, k: int) -> (Seq<u8>, bool)
    decreases k,
{
    if k <= 0 {
        (gfx, false)
    } else {
        let prev = draw_bits(gfx, byte, vx, py, k - 1);
        let xi = k - 1;
        if byte & (0x80u8 >> (xi as u8)) != 0 {
            let pos = py * 64 + ((vx + xi) % 64);
            (prev.0.update(pos, prev.0[pos] ^ 1), prev.1 || prev.0[pos] == 1)
        } else {
            prev
        }
    }
}

/// The framebuffer and collision flag after the first `k` rows of a
/// sprite read from `mem[idx..]` are drawn at `(vx, vy)`, each row
/// wrapped into the 64x32 grid.
pub open spec fn draw_rows(gfx: Seq<u8>, mem: Seq<u8>, idx: int, vx: u8, vy: u8, k: int) -> (Seq<
    u8,
>, bool)
    decreases k,
{
    if k <= 0 {
        (gfx, false)
    } else {
        let prev = draw_rows(gfx, mem, idx, vx, vy, k - 1);
        let yl = k - 1;
        let row = draw_bits(prev.0, mem[idx + yl], vx, (vy + yl) % 32, 8);
        (row.0, prev.1 || row.1)
    }
}

/// Memory after registers `v[0..k]` are copied to `mem[idx..idx+k]`.
pub open spec fn store_regs(mem: Seq<u8>, v: Seq<u8>, idx: int, k: int) -> Seq<u8>
    decreases k,
{
    if k <= 0 {
        mem
    } else {
        store_regs(mem, v, idx, k - 1).update(idx + (k - 1), v[k - 1])
    }
}

/// Registers after `v[0..k]` are refilled from `mem[idx..idx+k]`.
pub open spec fn load_regs(mem: Seq<u8>, v: Seq<u8>, idx: int, k: int) -> Seq<u8>
    decreases k,
{
    if k <= 0 {
        v
    } else {
        load_regs(mem, v, idx, k - 1).update(k - 1, mem[idx + (k - 1)])
    }
}

/// One instruction of the machine, as a mathematical transition: given
/// the opcode, the state, the memory and the byte `r` the random source
/// supplied, it yields the next state, the next memory and the draw flag,
/// or the error the instruction raises. Jumps and calls set the program
/// counter themselves; every other instruction advances it by 2, and a
/// satisfied conditional skip by 2 more. An opcode outside the supported
/// set only advances the program counter.
pub open spec fn exec_model(op: u16, s: Model, mem: Seq<u8>, r: u8) -> Result<
    (Model, Seq<u8>, bool),
    Chip8Error,
> {
    let x = op_x(op) as int;
    let y = op_y(op) as int;
    if op & 0xF000 == 0x0000 {
        if op == 0x00E0 {
            Ok((Model { pc: (s.pc + 2) as usize, gfx: Seq::new(2048, |i: int| 0u8), ..s }, mem, true))
        } else if op == 0x00EE {
            if s.sp == 0 {
                Err(Chip8Error::StackUnderflow)
            } else {
                Ok(
                    (
                        Model {
                            sp: (s.sp - 1) as usize,
                            pc: (s.stack[s.sp - 1] + 2) as usize,
                            ..s
                        },
                        mem,
                        false,
                    ),
                )
            }
        } else {
            Ok((Model { pc: (s.pc + 2) as usize, ..s }, mem, false))
        }
    } else if op & 0xF000 == 0x1000 {
        Ok((Model { pc: op_nnn(op), ..s }, mem, false))
    } else if op & 0xF000 == 0x2000 {
        if s.sp >= 16 {
            Err(Chip8Error::StackOverflow)
        } else {
            Ok(
                (
                    Model {
                        stack: s.stack.update(s.sp as int, s.pc),
                        sp: (s.sp + 1) as usize,
                        pc: op_nnn(op),
                        ..s
                    },
                    mem,
                    false,
                ),
            )
        }
    } else if op & 0xF000 == 0x3000 {
        let skip = s.v[x] == op_nn(op);
        Ok((Model { pc: if skip { (s.pc + 4) as usize } else { (s.pc + 2) as usize }, ..s }, mem, false))
    } else if op & 0xF000 == 0x4000 {
        let skip = s.v[x] != op_nn(op);
        Ok((Model { pc: if skip { (s.pc + 4) as usize } else { (s.pc + 2) as usize }, ..s }, mem, false))
    } else if op & 0xF000 == 0x5000 {
        let skip = s.v[x] == s.v[y];
        Ok((Model { pc: if skip { (s.pc + 4) as usize } else { (s.pc + 2) as usize }, ..s }, mem, false))
    } else if op & 0xF000 == 0x6000 {
        Ok((Model { v: s.v.update(x, op_nn(op)), pc: (s.pc + 2) as usize, ..s }, mem, false))
    } else if op & 0xF000 == 0x7000 {
        Ok(
            (
                Model {
                    v: s.v.update(x, ((s.v[x] + op_nn(op)) % 256) as u8),
                    pc: (s.pc + 2) as usize,
                    ..s
                },
                mem,
                false,
            ),
        )
    } else if op & 0xF000 == 0x8000 {
        Ok((Model { v: alu_regs(op, s.v), pc: (s.pc + 2) as usize, ..s }, mem, false))
    } else if op & 0xF000 == 0x9000 {
        let skip = s.v[x] != s.v[y];
        Ok((Model { pc: if skip { (s.pc + 4) as usize } else { (s.pc + 2) as usize }, ..s }, mem, false))
    } else if op & 0xF000 == 0xA000 {
        Ok((Model { index: op & 0x0FFF, pc: (s.pc + 2) as usize, ..s }, mem, false))
    } else if op & 0xF000 == 0xC000 {
        Ok((Model { v: s.v.update(x, op_nn(op) & r), pc: (s.pc + 2) as usize, ..s }, mem, false))
    } else if op & 0xF000 == 0xD000 {
        if s.index + op_n(op) > 4096 {
            Err(Chip8Error::MemoryOutOfRange)
        } else {
            let drawn = draw_rows(s.gfx, mem, s.index as int, s.v[x], s.v[y], op_n(op) as int);
            Ok(
                (
                    Model {
                        gfx: drawn.0,
                        v: s.v.update(15, if drawn.1 { 1u8 } else { 0u8 }),
                        pc: (s.pc + 2) as usize,
                        ..s
                    },
                    mem,
                    true,
                ),
            )
        }
    } else if op & 0xF000 == 0xE000 {
        if op & 0x00FF == 0x009E {
            if s.v[x] >= 16 {
                Err(Chip8Error::KeyOutOfRange)
            } else {
                let skip = s.key[s.v[x] as int];
                Ok((Model { pc: if skip { (s.pc + 4) as usize } else { (s.pc + 2) as usize }, ..s }, mem, false))
            }
        } else if op & 0x00FF == 0x00A1 {
            if s.v[x] >= 16 {
                Err(Chip8Error::KeyOutOfRange)
            } else {
                let skip = !s.key[s.v[x] as int];
                Ok((Model { pc: if skip { (s.pc + 4) as usize } else { (s.pc + 2) as usize }, ..s }, mem, false))
            }
        } else {
            Ok((Model { pc: (s.pc + 2) as usize, ..s }, mem, false))
        }
    } else if op & 0xF000 == 0xF000 {
        exec_model_f(op, s, mem)
    } else {
        Ok((Model { pc: (s.pc + 2) as usize, ..s }, mem, false))
    }
}

/// The register file after one `8xy_` arithmetic/logic instruction.
/// The flag register VF is written before the destination, as the
/// machine does it, so an instruction that selects register 15 sees the
/// freshly written flag.
pub open spec fn alu_regs(op: u16, v: Seq<u8>) -> Seq<u8> {
    let x = op_x(op) as int;
    let y = op_y(op) as int;
    if op & 0x000F == 0x0000 {
        v.update(x, v[y])
    } else if op & 0x000F == 0x0001 {
        v.update(x, v[x] | v[y])
    } else if op & 0x000F == 0x0002 {
        v.update(x, v[x] & v[y])
    } else if op & 0x000F == 0x0003 {
        v.update(x, v[x] ^ v[y])
    } else if op & 0x000F == 0x0004 {
        let carry: u8 = if v[x] + v[y] > 255 {
            1u8
        } else {
            0u8
        };
        let v1 = v.update(15, carry);
        v1.update(x, ((v1[x] + v1[y]) % 256) as u8)
    } else if op & 0x000F == 0x0005 {
        let borrow = v[y] > v[x];
        let v1 = v.update(15, if borrow { 0u8 } else { 1u8 });
        if borrow {
            v1.update(x, ((0xFF - v1[y] + v1[x] + 1) % 256) as u8)
        } else {
            v1.update(x, ((256 + v1[x] - v1[y]) % 256) as u8)
        }
    } else {
        v
    }
}

/// The `Fx__` group of `exec_model`.
pub open spec fn exec_model_f(op: u16, s: Model, mem: Seq<u8>) -> Result<
    (Model, Seq<u8>, bool),
    Chip8Error,
> {
    let x = op_x(op) as int;
    if op & 0x00FF == 0x0007 {
        Ok((Model { v: s.v.update(x, s.delay_timer), pc: (s.pc + 2) as usize, ..s }, mem, false))
    } else if op & 0x00FF == 0x000A {
        match first_key_from(s.key, 0) {
            Some(k) => Ok(
                (Model { v: s.v.update(x, k as u8), pc: (s.pc + 2) as usize, ..s }, mem, false),
            ),
            None => Ok((s, mem, false)),
        }
    } else if op & 0x00FF == 0x0015 {
        Ok((Model { delay_timer: s.v[x], pc: (s.pc + 2) as usize, ..s }, mem, false))
    } else if op & 0x00FF == 0x001E {
        Ok(
            (
                Model {
                    index: ((s.index + s.v[x]) % 0x10000) as u16,
                    pc: (s.pc + 2) as usize,
                    ..s
                },
                mem,
                false,
            ),
        )
    } else if op & 0x00FF == 0x0029 {
        Ok((Model { index: (s.v[x] * 5) as u16, pc: (s.pc + 2) as usize, ..s }, mem, false))
    } else if op & 0x00FF == 0x0033 {
        if s.index + 3 > 4096 {
            Err(Chip8Error::MemoryOutOfRange)
        } else {
            let i0 = s.index as int;
            let m1 = mem.update(i0, (s.v[x] / 100) as u8).update(
                i0 + 1,
                ((s.v[x] / 10) % 10) as u8,
            ).update(i0 + 2, ((s.v[x] % 100) % 10) as u8);
            Ok((Model { pc: (s.pc + 2) as usize, ..s }, m1, false))
        }
    } else if op & 0x00FF == 0x0055 {
        if s.index + op_x(op) + 1 > 4096 {
            Err(Chip8Error::MemoryOutOfRange)
        } else {
            let m1 = store_regs(mem, s.v, s.index as int, op_x(op) + 1);
            Ok((Model { pc: (s.pc + 2) as usize, ..s }, m1, false))
        }
    } else if op & 0x00FF == 0x0065 {
        if s.index + op_x(op) + 1 > 4096 {
            Err(Chip8Error::MemoryOutOfRange)
        } else {
            let v1 = load_regs(mem, s.v, s.index as int, op_x(op) + 1);
            Ok((Model { v: v1, pc: (s.pc + 2) as usize, ..s }, mem, false))
        }
    } else {
        Ok((Model { pc: (s.pc + 2) as usize, ..s }, mem, false))
    }
}

/// What one engine call promises: the final state, memory and result are
/// exactly what `exec_model` says for the random byte `r`; on an error
/// nothing has moved.
pub open spec fn obeys_step(
    op: u16,
    s0: Model,
    m0: Seq<u8>,
    r: u8,
    s1: Model,
    m1: Seq<u8>,
    res: Result<bool, Chip8Error>,
) -> bool {
    match exec_model(op, s0, m0, r) {
        Ok(t) => res == Ok::<bool, Chip8Error>(t.2) && s1 == t.0 && m1 == t.1,
        Err(e) => res == Err::<bool, Chip8Error>(e) && s1 == s0 && m1 == m0,
    }
}

/// Zeroes the whole framebuffer.
fn clear_gfx(gfx: &mut Vec<u8>)
    requires
        old(gfx)@.len() == 2048,
    ensures
        final(gfx)@ == Seq::new(2048, |i: int| 0u8),
{
    let mut i: usize = 0;
    while i < 2048
        invariant
            i <= 2048,
            gfx@.len() == 2048,
            forall|j: int| 0 <= j < i ==> gfx@[j] == 0,
        decreases 2048 - i,
    {
        gfx.set(i, 0);
        i = i + 1;
    }
    proof {
        assert(gfx@ =~= Seq::new(2048, |j: int| 0u8));
    }
}

/// XORs one 8-bit sprite row into framebuffer row `py`, wrapping the
/// column, and reports whether any lit pixel was cleared.
fn draw_row(gfx: &mut Vec<u8>, byte: u8, vx: u8, py: usize) -> (col: bool)
    requires
        old(gfx)@.len() == 2048,
        py < 32,
    ensures
        final(gfx)@ == draw_bits(old(gfx)@, byte, vx, py as int, 8).0,
        col == draw_bits(old(gfx)@, byte, vx, py as int, 8).1,
        final(gfx)@.len() == 2048,
{
    let mut col = false;
    let mut xi: usize = 0;
    while xi < 8
        invariant
            xi <= 8,
            py < 32,
            gfx@.len() == 2048,
            gfx@ == draw_bits(old(gfx)@, byte, vx, py as int, xi as int).0,
            col == draw_bits(old(gfx)@, byte, vx, py as int, xi as int).1,
        decreases 8 - xi,
    {
        let mask: u8 = 0x80u8 >> (xi as u8);
        if byte & mask != 0 {
            let pos: usize = py * 64 + ((vx as usize + xi) % 64);
            let cur = gfx[pos];
            if cur == 1 {
                col = true;
            }
            gfx.set(pos, cur ^ 1);
        }
        xi = xi + 1;
    }
    col
}

/// Draws an `n`-row sprite read from `memory[idx..idx+n]` at `(vx, vy)`,
/// wrapping both coordinates into the 64x32 grid, and reports collision.
fn draw_sprite(gfx: &mut Vec<u8>, memory: &Vec<u8>, idx: usize, vx: u8, vy: u8, n: usize) -> (col:
    bool)
    requires
        old(gfx)@.len() == 2048,
        idx + n <= memory@.len(),
        n <= 15,
    ensures
        final(gfx)@ == draw_rows(old(gfx)@, memory@, idx as int, vx, vy, n as int).0,
        col == draw_rows(old(gfx)@, memory@, idx as int, vx, vy, n as int).1,
        final(gfx)@.len() == 2048,
{
    let mut col = false;
    let mut yl: usize = 0;
    proof {
        assert(memory.len() <= usize::MAX);
    }
    while yl < n
        invariant
            yl <= n,
            n <= 15,
            idx + n <= memory@.len(),
            memory@.len() <= usize::MAX,
            gfx@.len() == 2048,
            gfx@ == draw_rows(old(gfx)@, memory@, idx as int, vx, vy, yl as int).0,
            col == draw_rows(old(gfx)@, memory@, idx as int, vx, vy, yl as int).1,
        decreases n - yl,
    {
        let byte = memory[idx + yl];
        let py: usize = (vy as usize + yl) % 32;
        let rowcol = draw_row(gfx, byte, vx, py);
        col = col || rowcol;
        yl = yl + 1;
    }
    col
}

/// Copies registers `v[0..k]` into `memory[idx..idx+k]`.
fn store_to_memory(memory: &mut Vec<u8>, v: &Vec<u8>, idx: usize, k: usize)
    requires
        idx + k <= old(memory)@.len(),
        k <= v@.len(),
    ensures
        final(memory)@ == store_regs(old(memory)@, v@, idx as int, k as int),
        final(memory)@.len() == old(memory)@.len(),
{
    let mut i: usize = 0;
    proof {
        assert(memory.len() <= usize::MAX);
    }
    while i < k
        invariant
            i <= k,
            k <= v@.len(),
            idx + k <= memory@.len(),
            memory@.len() <= usize::MAX,
            memory@.len() == old(memory)@.len(),
            memory@ == store_regs(old(memory)@, v@, idx as int, i as int),
        decreases k - i,
    {
        memory.set(idx + i, v[i]);
        i = i + 1;
    }
}

/// Refills registers `v[0..k]` from `memory[idx..idx+k]`.
fn load_from_memory(memory: &Vec<u8>, v: &mut Vec<u8>, idx: usize, k: usize)
    requires
        idx + k <= memory@.len(),
        k <= old(v)@.len(),
    ensures
        final(v)@ == load_regs(memory@, old(v)@, idx as int, k as int),
        final(v)@.len() == old(v)@.len(),
{
    let mut i: usize = 0;
    proof {
        assert(memory.len() <= usize::MAX);
    }
    while i < k
        invariant
            i <= k,
            k <= v@.len(),
            idx + k <= memory@.len(),
            memory@.len() <= usize::MAX,
            v@.len() == old(v)@.len(),
            v@ == load_regs(memory@, old(v)@, idx as int, i as int),
        decreases k - i,
    {
        v.set(i, memory[idx + i]);
        i = i + 1;
    }
}

/// Executes one already-fetched instruction against the state and the
/// memory, with `r` standing in for the byte the random source supplied
/// to a `Cxnn` instruction. The outcome is exactly `exec_model`; on an
/// error nothing has moved.
#[verifier::rlimit(60)]
pub fn execute_with_random(
    op: u16,
    state: &mut Chip8State,
    memory: &mut Vec<u8>,
    r: u8,
) -> (res: Result<bool, Chip8Error>)
    requires
        old(state)@.wf(),
        old(memory)@.len() == 4096,
        old(state)@.pc + 4 <= usize::MAX,
    ensures
        obeys_step(op, old(state)@, old(memory)@, r, final(state)@, final(memory)@, res),
        final(state)@.wf(),
        final(memory)@.len() == 4096,
{
    proof {
        lemma_op_fields(op);
    }
    let x: usize = ((op & 0x0F00) >> 8) as usize;
    let y: usize = ((op & 0x00F0) >> 4) as usize;
    let decode = op & 0xF000;
    let mut draw_flag = false;
    if decode == 0x0000 {
        if op == 0x00E0 {
            clear_gfx(&mut state.gfx);
            state.pc = state.pc + 2;
            draw_flag = true;
        } else if op == 0x00EE {
            if state.stack_pointer == 0 {
                return Err(Chip8Error::StackUnderflow);
            }
            state.stack_pointer = state.stack_pointer - 1;
            state.pc = state.stack[state.stack_pointer] + 2;
        } else {
            state.pc = state.pc + 2;
        }
    } else if decode == 0x1000 {
        state.pc = (op & 0x0FFF) as usize;
    } else if decode == 0x2000 {
        if state.stack_pointer >= 16 {
            return Err(Chip8Error::StackOverflow);
        }
        state.stack.set(state.stack_pointer, state.pc);
        state.stack_pointer = state.stack_pointer + 1;
        state.pc = (op & 0x0FFF) as usize;
    } else if decode == 0x3000 {
        if state.v[x] == (op & 0x00FF) as u8 {
            state.pc = state.pc + 2;
        }
        state.pc = state.pc + 2;
    } else if decode == 0x4000 {
        if state.v[x] != (op & 0x00FF) as u8 {
            state.pc = state.pc + 2;
        }
        state.pc = state.pc + 2;
    } else if decode == 0x5000 {
        if state.v[x] == state.v[y] {
            state.pc = state.pc + 2;
        }
        state.pc = state.pc + 2;
    } else if decode == 0x6000 {
        state.v.set(x, (op & 0x00FF) as u8);
        state.pc = state.pc + 2;
    } else if decode == 0x7000 {
        let sum: u16 = state.v[x] as u16 + (op & 0x00FF);
        state.v.set(x, (sum % 256) as u8);
        state.pc = state.pc + 2;
    } else if decode == 0x8000 {
        let operation = op & 0x000F;
        if operation == 0x0000 {
            let vy = state.v[y];
            state.v.set(x, vy);
        } else if operation == 0x0001 {
            let val = state.v[x] | state.v[y];
            state.v.set(x, val);
        } else if operation == 0x0002 {
            let val = state.v[x] & state.v[y];
            state.v.set(x, val);
        } else if operation == 0x0003 {
            let val = state.v[x] ^ state.v[y];
            state.v.set(x, val);
        } else if operation == 0x0004 {
            let carry: u8 = if state.v[x] as u16 + state.v[y] as u16 > 255 {
                1
            } else {
                0
            };
            state.v.set(15, carry);
            let sum: u16 = state.v[x] as u16 + state.v[y] as u16;
            state.v.set(x, (sum % 256) as u8);
        } else if operation == 0x0005 {
            let borrow = state.v[y] > state.v[x];
            state.v.set(15, if borrow { 0u8 } else { 1u8 });
            if borrow {
                let val: u16 = 0xFF - state.v[y] as u16 + state.v[x] as u16 + 1;
                state.v.set(x, (val % 256) as u8);
            } else {
                let val: u16 = 256 + state.v[x] as u16 - state.v[y] as u16;
                state.v.set(x, (val % 256) as u8);
            }
        }
        state.pc = state.pc + 2;
    } else if decode == 0x9000 {
        if state.v[x] != state.v[y] {
            state.pc = state.pc + 2;
        }
        state.pc = state.pc + 2;
    } else if decode == 0xA000 {
        state.index = op & 0x0FFF;
        state.pc = state.pc + 2;
    } else if decode == 0xC000 {
        state.v.set(x, (op & 0x00FF) as u8 & r);
        state.pc = state.pc + 2;
    } else if decode == 0xD000 {
        let n: usize = (op & 0x000F) as usize;
        let vx = state.v[x];
        let vy = state.v[y];
        if state.index as usize + n > 4096 {
            return Err(Chip8Error::MemoryOutOfRange);
        }
        let col = draw_sprite(&mut state.gfx, memory, state.index as usize, vx, vy, n);
        state.v.set(15, if col { 1u8 } else { 0u8 });
        draw_flag = true;
        state.pc = state.pc + 2;
    } else if decode == 0xE000 {
        let operation = op & 0x00FF;
        if operation == 0x009E {
            let vx = state.v[x];
            if vx >= 16 {
                return Err(Chip8Error::KeyOutOfRange);
            }
            if state.key_press[vx as usize] {
                state.pc = state.pc + 2;
            }
            state.pc = state.pc + 2;
        } else if operation == 0x00A1 {
            let vx = state.v[x];
            if vx >= 16 {
                return Err(Chip8Error::KeyOutOfRange);
            }
            if !state.key_press[vx as usize] {
                state.pc = state.pc + 2;
            }
            state.pc = state.pc + 2;
        } else {
            state.pc = state.pc + 2;
        }
    } else if decode == 0xF000 {
        let operation = op & 0x00FF;
        if operation == 0x0007 {
            let dt = state.delay_timer;
            state.v.set(x, dt);
            state.pc = state.pc + 2;
        } else if operation == 0x000A {
            match find_first_key(&state.key_press) {
                Some(k) => {
                    state.v.set(x, k);
                    state.pc = state.pc + 2;
                },
                None => {},
            }
        } else if operation == 0x0015 {
            state.delay_timer = state.v[x];
            state.pc = state.pc + 2;
        } else if operation == 0x001E {
            let sum: u32 = state.index as u32 + state.v[x] as u32;
            state.index = (sum % 0x10000) as u16;
            state.pc = state.pc + 2;
        } else if operation == 0x0029 {
            state.index = state.v[x] as u16 * 5;
            state.pc = state.pc + 2;
        } else if operation == 0x0033 {
            if state.index as usize + 3 > 4096 {
                return Err(Chip8Error::MemoryOutOfRange);
            }
            let i0 = state.index as usize;
            let vx = state.v[x];
            memory.set(i0, vx / 100);
            memory.set(i0 + 1, (vx / 10) % 10);
            memory.set(i0 + 2, (vx % 100) % 10);
            state.pc = state.pc + 2;
        } else if operation == 0x0055 {
            if state.index as usize + x + 1 > 4096 {
                return Err(Chip8Error::MemoryOutOfRange);
            }
            store_to_memory(memory, &state.v, state.index as usize, x + 1);
            state.pc = state.pc + 2;
        } else if operation == 0x0065 {
            if state.index as usize + x + 1 > 4096 {
                return Err(Chip8Error::MemoryOutOfRange);
            }
            load_from_memory(memory, &mut state.v, state.index as usize, x + 1);
            state.pc = state.pc + 2;
        } else {
            state.pc = state.pc + 2;
        }
    } else {
        state.pc = state.pc + 2;
    }
    Ok(draw_flag)
}

/// The lowest pressed key, scanning the 16 keys upward.
fn find_first_key(key: &Vec<bool>) -> (res: Option<u8>)
    requires
        key@.len() == 16,
    ensures
        match res {
            Some(k) => k < 16 && first_key_from(key@, 0) == Some(k as int),
            None => first_key_from(key@, 0) is None,
        },
{
    let mut i: usize = 0;
    while i < 16
        invariant
            i <= 16,
            key@.len() == 16,
            first_key_from(key@, 0) == first_key_from(key@, i as int),
        decreases 16 - i,
    {
        if key[i] {
            return Some(i as u8);
        }
        i = i + 1;
    }
    None
}

/// Relies on rand::random: draws one byte from the thread-local
/// generator for the `Cxnn` instruction. Nothing can be promised of the
/// value.
#[verifier::external_body]
fn random_byte() -> u8 {
    rand::random::<u8>()
}

/// Executes one already-fetched instruction, drawing the byte for a
/// `Cxnn` instruction from the machine's random source. The outcome is
/// `exec_model` under some random byte; every opcode other than `Cxnn`
/// is pinned down exactly, since its transition ignores the byte.
pub fn execute_opcode(op: u16, state: &mut Chip8State, memory: &mut Vec<u8>) -> (res: Result<
    bool,
    Chip8Error,
>)
    requires
        old(state)@.wf(),
        old(memory)@.len() == 4096,
        old(state)@.pc + 4 <= usize::MAX,
    ensures
        exists|r: u8|
            obeys_step(op, old(state)@, old(memory)@, r, final(state)@, final(memory)@, res),
        final(state)@.wf(),
        final(memory)@.len() == 4096,
{
    let r = random_byte();
    let res = execute_with_random(op, state, memory, r);
    proof {
        assert(obeys_step(op, old(state)@, old(memory)@, r, state@, memory@, res));
    }
    res
}

/// The instruction stored big-endian at `mem[pc]` and `mem[pc + 1]`.
pub open spec fn fetched(mem: Seq<u8>, pc: int) -> u16 {
    (mem[pc] * 256 + mem[pc + 1]) as u16
}

/// One machine cycle of the engine: fetches the instruction at the
/// program counter and executes it. The caller keeps the fetch invariant
/// `pc + 1 < 4096`; a program that runs off the end of memory is its own
/// to detect.
pub fn step(state: &mut Chip8State, memory: &mut Vec<u8>) -> (res: Result<bool, Chip8Error>)
    requires
        old(state)@.wf(),
        old(memory)@.len() == 4096,
        old(state)@.pc + 1 < 4096,
    ensures
        exists|r: u8|
            obeys_step(
                fetched(old(memory)@, old(state)@.pc as int),
                old(state)@,
                old(memory)@,
                r,
                final(state)@,
                final(memory)@,
                res,
            ),
        final(state)@.wf(),
        final(memory)@.len() == 4096,
{
    let op = crate::get_opcode(state.pc, memory);
    proof {
        assert(op == fetched(old(memory)@, old(state)@.pc as int));
    }
    execute_opcode(op, state, memory)
}

} // verus!
