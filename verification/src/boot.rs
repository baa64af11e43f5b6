//! Boot-time setup: the font glyph table and the program loader.

use vstd::prelude::*;

use crate::exec::Chip8Error;
use crate::state::initial_model;
use crate::state::Chip8State;

verus! {

/// The 80-byte glyph table: sixteen 5-byte bitmaps for the hexadecimal
/// digits 0 through F, stored at the base of memory.
pub open spec fn font_seq() -> Seq<u8> {
    seq![
        0xF0, 0x90, 0x90, 0x90, 0xF0,
        0x20, 0x60, 0x20, 0x20, 0x70,
        0xF0, 0x10, 0xF0, 0x80, 0xF0,
        0xF0, 0x10, 0xF0, 0x10, 0xF0,
        0x90, 0x90, 0xF0, 0x10, 0x10,
        0xF0, 0x80, 0xF0, 0x10, 0xF0,
        0xF0, 0x80, 0xF0, 0x90, 0xF0,
        0xF0, 0x10, 0x20, 0x40, 0x40,
        0xF0, 0x90, 0xF0, 0x90, 0xF0,
        0xF0, 0x90, 0xF0, 0x10, 0xF0,
        0xF0, 0x90, 0xF0, 0x90, 0x90,
        0xE0, 0x90, 0xE0, 0x90, 0xE0,
        0xF0, 0x80, 0x80, 0x80, 0xF0,
        0xE0, 0x90, 0x90, 0x90, 0xE0,
        0xF0, 0x80, 0xF0, 0x80, 0xF0,
        0xF0, 0x80, 0xF0, 0x80, 0x80,
    ]
}

/// The glyph table as a vector.
fn font_table() -> (t: Vec<u8>)
    ensures
        t@ == font_seq(),
{
    let mut t: Vec<u8> = Vec::new();
    t.push(0xF0); t.push(0x90); t.push(0x90); t.push(0x90); t.push(0xF0);
    t.push(0x20); t.push(0x60); t.push(0x20); t.push(0x20); t.push(0x70);
    t.push(0xF0); t.push(0x10); t.push(0xF0); t.push(0x80); t.push(0xF0);
    t.push(0xF0); t.push(0x10); t.push(0xF0); t.push(0x10); t.push(0xF0);
    t.push(0x90); t.push(0x90); t.push(0xF0); t.push(0x10); t.push(0x10);
    t.push(0xF0); t.push(0x80); t.push(0xF0); t.push(0x10); t.push(0xF0);
    t.push(0xF0); t.push(0x80); t.push(0xF0); t.push(0x90); t.push(0xF0);
    t.push(0xF0); t.push(0x10); t.push(0x20); t.push(0x40); t.push(0x40);
    t.push(0xF0); t.push(0x90); t.push(0xF0); t.push(0x90); t.push(0xF0);
    t.push(0xF0); t.push(0x90); t.push(0xF0); t.push(0x10); t.push(0xF0);
    t.push(0xF0); t.push(0x90); t.push(0xF0); t.push(0x90); t.push(0x90);
    t.push(0xE0); t.push(0x90); t.push(0xE0); t.push(0x90); t.push(0xE0);
    t.push(0xF0); t.push(0x80); t.push(0x80); t.push(0x80); t.push(0xF0);
    t.push(0xE0); t.push(0x90); t.push(0x90); t.push(0x90); t.push(0xE0);
    t.push(0xF0); t.push(0x80); t.push(0xF0); t.push(0x80); t.push(0xF0);
    t.push(0xF0); t.push(0x80); t.push(0xF0); t.push(0x80); t.push(0x80);
    proof {
        assert(t@ =~= font_seq());
    }
    t
}

/// What the loader leaves in memory: the font table at the base, zeroes
/// up to the program base 0x200, the program image from there, and
/// zeroes beyond it.
pub open spec fn loaded_memory(mem: Seq<u8>, rom: Seq<u8>) -> bool {
    &&& mem.len() == 4096
    &&& (forall|i: int| 0 <= i < 80 ==> mem[i] == font_seq()[i])
    &&& (forall|i: int| 80 <= i < 0x200 ==> mem[i] == 0)
    &&& (forall|i: int| 0 <= i < rom.len() ==> mem[0x200 + i] == rom[i])
    &&& (forall|i: int| 0x200 + rom.len() <= i < 4096 ==> mem[i] == 0)
}

/// Builds the machine: zero-filled memory with the font table at offset
/// 0 and the program image copied in at offset 0x200, and a freshly
/// booted state. An image that would run past address 4095 is rejected,
/// never truncated.
pub fn load(rom: &Vec<u8>) -> (res: Result<(Vec<u8>, Chip8State), Chip8Error>)
    ensures
        res matches Ok(p) ==> {
            &&& rom@.len() + 0x200 <= 4096
            &&& loaded_memory(p.0@, rom@)
            &&& p.1@ == initial_model()
            &&& p.1@.wf()
        },
        res matches Err(e) ==> e == Chip8Error::RomTooLarge && rom@.len() + 0x200 > 4096,
{
    let n = rom.len();
    if n > 4096 - 0x200 {
        return Err(Chip8Error::RomTooLarge);
    }
    let mut mem = crate::state::filled_u8(4096, 0);
    let font = font_table();
    let mut i: usize = 0;
    while i < 80
        invariant
            i <= 80,
            mem@.len() == 4096,
            font@ == font_seq(),
            forall|j: int| 0 <= j < i ==> mem@[j] == font_seq()[j],
            forall|j: int| i <= j < 4096 ==> mem@[j] == 0,
        decreases 80 - i,
    {
        mem.set(i, font[i]);
        i = i + 1;
    }
    let mut k: usize = 0;
    while k < n
        invariant
            k <= n,
            n == rom@.len(),
            n + 0x200 <= 4096,
            mem@.len() == 4096,
            forall|j: int| 0 <= j < 80 ==> mem@[j] == font_seq()[j],
            forall|j: int| 80 <= j < 0x200 ==> mem@[j] == 0,
            forall|j: int| 0 <= j < k ==> mem@[0x200 + j] == rom@[j],
            forall|j: int| 0x200 + k <= j < 4096 ==> mem@[j] == 0,
        decreases n - k,
    {
        mem.set(0x200 + k, rom[k]);
        k = k + 1;
    }
    let mut st = Chip8State::default();
    crate::state::init_state(&mut st);
    Ok((mem, st))
}

} // verus!
