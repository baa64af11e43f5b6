//! A verified CHIP-8 virtual machine core.
//!
//! The crate models the machine state (program counter, index register,
//! sixteen general registers, call stack, timers, key vector and a 64x32
//! framebuffer) and proves the fetch/decode/execute engine against a
//! mathematical transition function.

use vstd::prelude::*;

mod boot;
mod exec;
mod laws;
mod render;
mod state;

pub use boot::font_seq;
pub use boot::load;
pub use boot::loaded_memory;
pub use exec::exec_model;
pub use exec::execute_opcode;
pub use exec::execute_with_random;
pub use exec::fetched;
pub use exec::first_key_from;
pub use exec::obeys_step;
pub use exec::step;
pub use exec::Chip8Error;
pub use laws::lemma_fx55_fx65_round_trip;
pub use laws::lemma_pc_advance;
pub use laws::lemma_store_load_regs;
pub use render::frame_image;
pub use render::pixel_byte;
pub use state::init_state;
pub use state::initial_model;
pub use state::set_key;
pub use state::update_timers;
pub use state::Chip8State;
pub use state::Model;

verus! {

/// Fetches the 16-bit instruction stored big-endian at `pc` and `pc + 1`.
pub fn get_opcode(pc: usize, memory: &Vec<u8>) -> (op: u16)
    requires
        pc + 1 < memory@.len(),
    ensures
        op == memory@[pc as int] * 256 + memory@[pc + 1],
{
    proof {
        assert(memory.len() <= usize::MAX);
    }
    let hi = memory[pc];
    let lo = memory[pc + 1];
    proof {
        assert((hi as u16) << 8u16 | (lo as u16) == hi * 256 + lo) by (bit_vector);
    }
    (hi as u16) << 8 | (lo as u16)
}

} // verus!
