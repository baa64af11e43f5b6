//! The virtual-machine state and its mathematical model.

use vstd::prelude::*;

verus! {

/// The register file of the machine: program counter, index register,
/// sixteen 8-bit general registers, a 16-slot call stack with its stack
/// pointer, two countdown timers, the 64x32 framebuffer and the 16-key
/// input vector.
pub struct Chip8State {
    pub index: u16,
    pub pc: usize,
    pub delay_timer: u8,
    pub sound_timer: u8,
    pub stack_pointer: usize,
    pub stack: Vec<usize>,
    pub v: Vec<u8>,
    pub gfx: Vec<u8>,
    pub key_press: Vec<bool>,
}

/// The mathematical view of a `Chip8State`: the same fields with the
/// vectors abstracted to sequences.
#[verifier::ext_equal]
pub ghost struct Model {
    pub index: u16,
    pub pc: usize,
    pub delay_timer: u8,
    pub sound_timer: u8,
    pub sp: usize,
    pub stack: Seq<usize>,
    pub v: Seq<u8>,
    pub gfx: Seq<u8>,
    pub key: Seq<bool>,
}

impl Model {
    /// Well-formedness: the containers have their fixed sizes, the stack
    /// pointer counts at most 16 occupied slots, and every stack slot is
    /// small enough that a popped return address can still be advanced.
    pub open spec fn wf(self) -> bool {
        &&& self.stack.len() == 16
        &&& self.v.len() == 16
        &&& self.gfx.len() == 2048
        &&& self.key.len() == 16
        &&& self.sp <= 16
        &&& forall|i: int| 0 <= i < 16 ==> #[trigger] self.stack[i] <= usize::MAX - 4
    }
}

impl View for Chip8State {
    type V = Model;

    open spec fn view(&self) -> Model {
        Model {
            index: self.index,
            pc: self.pc,
            delay_timer: self.delay_timer,
            sound_timer: self.sound_timer,
            sp: self.stack_pointer,
            stack: self.stack@,
            v: self.v@,
            gfx: self.gfx@,
            key: self.key_press@,
        }
    }
}

/// The state a freshly booted machine is in: everything zeroed, the
/// program counter at the program base address 0x200.
pub open spec fn initial_model() -> Model {
    Model {
        index: 0,
        pc: 0x200,
        delay_timer: 0,
        sound_timer: 0,
        sp: 0,
        stack: Seq::new(16, |i: int| 0usize),
        v: Seq::new(16, |i: int| 0u8),
        gfx: Seq::new(2048, |i: int| 0u8),
        key: Seq::new(16, |i: int| false),
    }
}

impl Default for Chip8State {
    /// An empty shell of a state; `init_state` gives it its containers.
    fn default() -> (s: Chip8State)
        ensures
            s@.sp == 0 && s@.pc == 0 && s@.index == 0,
            s@.delay_timer == 0 && s@.sound_timer == 0,
            s@.stack == Seq::<usize>::empty(),
            s@.v == Seq::<u8>::empty(),
            s@.gfx == Seq::<u8>::empty(),
            s@.key == Seq::<bool>::empty(),
    {
        Chip8State {
            index: 0,
            pc: 0,
            delay_timer: 0,
            sound_timer: 0,
            stack_pointer: 0,
            stack: Vec::new(),
            v: Vec::new(),
            gfx: Vec::new(),
            key_press: Vec::new(),
        }
    }
}

/// A vector of `n` copies of `val`.
pub(crate) fn filled_u8(n: usize, val: u8) -> (res: Vec<u8>)
    ensures
        res@ =~= Seq::new(n as nat, |i: int| val),
{
    let mut res: Vec<u8> = Vec::new();
    let mut i: usize = 0;
    while i < n
        invariant
            i <= n,
            res@.len() == i,
            forall|j: int| 0 <= j < i ==> res@[j] == val,
        decreases n - i,
    {
        res.push(val);
        i = i + 1;
    }
    res
}

/// A vector of `n` copies of `val`.
fn filled_usize(n: usize, val: usize) -> (res: Vec<usize>)
    ensures
        res@ =~= Seq::new(n as nat, |i: int| val),
{
    let mut res: Vec<usize> = Vec::new();
    let mut i: usize = 0;
    while i < n
        invariant
            i <= n,
            res@.len() == i,
            forall|j: int| 0 <= j < i ==> res@[j] == val,
        decreases n - i,
    {
        res.push(val);
        i = i + 1;
    }
    res
}

/// A vector of `n` copies of `val`.
fn filled_bool(n: usize, val: bool) -> (res: Vec<bool>)
    ensures
        res@ =~= Seq::new(n as nat, |i: int| val),
{
    let mut res: Vec<bool> = Vec::new();
    let mut i: usize = 0;
    while i < n
        invariant
            i <= n,
            res@.len() == i,
            forall|j: int| 0 <= j < i ==> res@[j] == val,
        decreases n - i,
    {
        res.push(val);
        i = i + 1;
    }
    res
}

/// Puts a state into the freshly booted configuration: zeroed registers,
/// timers and containers, with the program counter at 0x200.
pub fn init_state(state: &mut Chip8State)
    ensures
        final(state)@ == initial_model(),
        final(state)@.wf(),
{
    state.index = 0;
    state.pc = 0x200;
    state.delay_timer = 0;
    state.sound_timer = 0;
    state.stack_pointer = 0;
    state.stack = filled_usize(16, 0);
    state.v = filled_u8(16, 0);
    state.gfx = filled_u8(2048, 0);
    state.key_press = filled_bool(16, false);
    proof {
        assert(state@ =~= initial_model());
    }
}

/// Counts one external frame tick down on both timers, each floored at
/// zero; nothing else of the state moves.
pub fn update_timers(state: &mut Chip8State)
    ensures
        final(state)@.delay_timer == if old(state)@.delay_timer > 0 {
            (old(state)@.delay_timer - 1) as u8
        } else {
            0u8
        },
        final(state)@.sound_timer == if old(state)@.sound_timer > 0 {
            (old(state)@.sound_timer - 1) as u8
        } else {
            0u8
        },
        final(state)@ == (Model {
            delay_timer: final(state)@.delay_timer,
            sound_timer: final(state)@.sound_timer,
            ..old(state)@
        }),
{
    if state.delay_timer > 0 {
        state.delay_timer = state.delay_timer - 1;
    }
    if state.sound_timer > 0 {
        state.sound_timer = state.sound_timer - 1;
    }
}

/// Records a level-triggered key transition from the input collaborator:
/// key `index` is now pressed or released.
pub fn set_key(state: &mut Chip8State, index: usize, pressed: bool)
    requires
        index < old(state)@.key.len(),
    ensures
        final(state)@ == (Model { key: old(state)@.key.update(index as int, pressed), ..old(state)@ }),
{
    state.key_press.set(index, pressed);
    proof {
        assert(state@ =~= (Model {
            key: old(state)@.key.update(index as int, pressed),
            ..old(state)@
        }));
    }
}

} // verus!
