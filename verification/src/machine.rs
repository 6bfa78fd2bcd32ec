use vstd::prelude::*;
use vstd::pervasive::VecAdditionalExecFns;

verus! {

/// A terminal failure of the interpreter.  None of these is recovered from:
/// the host is expected to stop driving the machine once one is reported.
#[derive(Clone, Copy, Debug, PartialEq, Eq, Structural)]
pub enum Chip8Error {
    /// The fetched opcode matches none of the defined instruction patterns.
    /// `pc` is the program counter as it stood when the instruction ran,
    /// which is already past the offending opcode.
    InvalidOpcode { opcode: u16, pc: u16 },
    /// A call was made with all sixteen stack slots in use.
    StackOverflow { depth: usize },
    /// A return was made with no call outstanding.
    StackUnderflow { depth: usize },
    /// An instruction would have read or written memory outside 0..4096.
    /// `address` is the base address of the offending access.
    MemoryOutOfRange { address: u16 },
    /// A keypad instruction named a key outside 0..16.
    KeyOutOfRange { key: u8 },
}

/// The complete machine state: 4 KB of memory, sixteen 8-bit registers, the
/// 16-bit index register and program counter, a 64x32 monochrome framebuffer
/// (one byte per cell, 0 or 1), two countdown timers, a sixteen-slot call
/// stack with its stack pointer, and sixteen key states (0 or 1).
pub struct Chip8 {
    pub memory: Vec<u8>,
    pub v: Vec<u8>,
    pub i: u16,
    pub pc: u16,
    pub gfx: Vec<u8>,
    pub delay_timer: u8,
    pub sound_timer: u8,
    pub stack: Vec<u16>,
    pub sp: usize,
    pub keypad: Vec<u8>,
}

impl Chip8 {
    /// Structural invariant: every collection has its architectural size,
    /// the stack pointer stays within the sixteen slots, and framebuffer
    /// cells and key states are 0 or 1.
    pub open spec fn wf(self) -> bool {
        &&& self.memory@.len() == 4096
        &&& self.v@.len() == 16
        &&& self.gfx@.len() == 2048
        &&& (forall|j: int| 0 <= j < 2048 ==> self.gfx@[j] <= 1)
        &&& self.stack@.len() == 16
        &&& self.sp <= 16
        &&& self.keypad@.len() == 16
        &&& (forall|j: int| 0 <= j < 16 ==> self.keypad@[j] <= 1)
    }
}

pub open spec fn same_mem(pre: Chip8, post: Chip8) -> bool {
    post.memory@ == pre.memory@
}

pub open spec fn same_regs(pre: Chip8, post: Chip8) -> bool {
    post.v@ == pre.v@
}

pub open spec fn same_i(pre: Chip8, post: Chip8) -> bool {
    post.i == pre.i
}

pub open spec fn same_pc(pre: Chip8, post: Chip8) -> bool {
    post.pc == pre.pc
}

pub open spec fn same_gfx(pre: Chip8, post: Chip8) -> bool {
    post.gfx@ == pre.gfx@
}

pub open spec fn same_delay(pre: Chip8, post: Chip8) -> bool {
    post.delay_timer == pre.delay_timer
}

pub open spec fn same_sound(pre: Chip8, post: Chip8) -> bool {
    post.sound_timer == pre.sound_timer
}

pub open spec fn same_stack(pre: Chip8, post: Chip8) -> bool {
    post.stack@ == pre.stack@
}

pub open spec fn same_sp(pre: Chip8, post: Chip8) -> bool {
    post.sp == pre.sp
}

pub open spec fn same_keys(pre: Chip8, post: Chip8) -> bool {
    post.keypad@ == pre.keypad@
}

/// No observable part of the state differs between `pre` and `post`.
pub open spec fn unchanged_state(pre: Chip8, post: Chip8) -> bool {
    &&& same_mem(pre, post)
    &&& same_regs(pre, post)
    &&& same_i(pre, post)
    &&& same_pc(pre, post)
    &&& same_gfx(pre, post)
    &&& same_delay(pre, post)
    &&& same_sound(pre, post)
    &&& same_stack(pre, post)
    &&& same_sp(pre, post)
    &&& same_keys(pre, post)
}

impl Chip8 {
    /// A freshly constructed machine: everything zeroed, with the program
    /// counter at 0x200 where programs are loaded.
    pub fn new() -> (r: Chip8)
        ensures
            r.wf(),
            forall|j: int| 0 <= j < 4096 ==> r.memory@[j] == 0,
            forall|j: int| 0 <= j < 16 ==> r.v@[j] == 0,
            r.i == 0,
            r.pc == 0x200,
            forall|j: int| 0 <= j < 2048 ==> r.gfx@[j] == 0,
            r.delay_timer == 0,
            r.sound_timer == 0,
            forall|j: int| 0 <= j < 16 ==> r.stack@[j] == 0,
            r.sp == 0,
            forall|j: int| 0 <= j < 16 ==> r.keypad@[j] == 0,
    {
        Chip8 {
            memory: zero_bytes(4096),
            v: zero_bytes(16),
            i: 0,
            pc: 0x200,
            gfx: zero_bytes(2048),
            delay_timer: 0,
            sound_timer: 0,
            stack: zero_words(16),
            sp: 0,
            keypad: zero_bytes(16),
        }
    }

    /// Copies the ROM bytes verbatim into memory starting at 0x200.  The
    /// host must hand over a ROM that fits below the end of memory.
    pub fn load_rom(&mut self, rom: &[u8])
        requires
            old(self).wf(),
            rom@.len() <= 4096 - 0x200,
        ensures
            final(self).wf(),
            final(self).memory@.len() == 4096,
            forall|j: int| 0 <= j < rom@.len() ==> final(self).memory@[0x200 + j] == rom@[j],
            forall|j: int|
                0 <= j < 4096 && !(0x200 <= j < 0x200 + rom@.len())
                    ==> final(self).memory@[j] == old(self).memory@[j],
            same_regs(*old(self), *final(self)),
            same_i(*old(self), *final(self)),
            same_pc(*old(self), *final(self)),
            same_gfx(*old(self), *final(self)),
            same_delay(*old(self), *final(self)),
            same_sound(*old(self), *final(self)),
            same_stack(*old(self), *final(self)),
            same_sp(*old(self), *final(self)),
            same_keys(*old(self), *final(self)),
    {
        let mut k: usize = 0;
        while k < rom.len()
            invariant
                old(self).wf(),
                rom@.len() <= 4096 - 0x200,
                k <= rom@.len(),
                self.memory@.len() == 4096,
                forall|j: int| 0 <= j < k ==> self.memory@[0x200 + j] == rom@[j],
                forall|j: int|
                    0 <= j < 4096 && !(0x200 <= j < 0x200 + k)
                        ==> self.memory@[j] == old(self).memory@[j],
                same_regs(*old(self), *self),
                same_i(*old(self), *self),
                same_pc(*old(self), *self),
                same_gfx(*old(self), *self),
                same_delay(*old(self), *self),
                same_sound(*old(self), *self),
                same_stack(*old(self), *self),
                same_sp(*old(self), *self),
                same_keys(*old(self), *self),
            decreases rom@.len() - k,
        {
            self.memory.set(0x200 + k, rom[k]);
            k = k + 1;
        }
    }

    /// Read-only view of the 2048-cell framebuffer, row-major, `y * 64 + x`.
    pub fn get_graphics(&self) -> (r: &Vec<u8>)
        ensures
            r@ == self.gfx@,
    {
        &self.gfx
    }

    /// Records a key press or release for key `key` in 0..16.  This is the
    /// one mutation the input collaborator performs; last write wins.
    pub fn set_key(&mut self, key: usize, pressed: bool)
        requires
            old(self).wf(),
            key < 16,
        ensures
            final(self).wf(),
            final(self).keypad@ == old(self).keypad@.update(
                key as int,
                if pressed { 1u8 } else { 0u8 },
            ),
            same_mem(*old(self), *final(self)),
            same_regs(*old(self), *final(self)),
            same_i(*old(self), *final(self)),
            same_pc(*old(self), *final(self)),
            same_gfx(*old(self), *final(self)),
            same_delay(*old(self), *final(self)),
            same_sound(*old(self), *final(self)),
            same_stack(*old(self), *final(self)),
            same_sp(*old(self), *final(self)),
    {
        self.keypad.set(key, if pressed { 1 } else { 0 });
    }

    /// One timer tick, to be driven at the display rate: each timer counts
    /// down towards zero and never underflows.  The result is true exactly
    /// when the sound timer stood at 1 and now reaches 0, the moment the
    /// host should start its tone.
    pub fn tick(&mut self) -> (beep: bool)
        requires
            old(self).wf(),
        ensures
            final(self).wf(),
            final(self).delay_timer == if old(self).delay_timer > 0 {
                (old(self).delay_timer - 1) as u8
            } else {
                0u8
            },
            final(self).sound_timer == if old(self).sound_timer > 0 {
                (old(self).sound_timer - 1) as u8
            } else {
                0u8
            },
            beep == (old(self).sound_timer == 1),
            same_mem(*old(self), *final(self)),
            same_regs(*old(self), *final(self)),
            same_i(*old(self), *final(self)),
            same_pc(*old(self), *final(self)),
            same_gfx(*old(self), *final(self)),
            same_stack(*old(self), *final(self)),
            same_sp(*old(self), *final(self)),
            same_keys(*old(self), *final(self)),
    {
        if self.delay_timer > 0 {
            self.delay_timer = self.delay_timer - 1;
        }
        let beep = self.sound_timer == 1;
        if self.sound_timer > 0 {
            self.sound_timer = self.sound_timer - 1;
        }
        beep
    }
}

/// A vector of `n` zero bytes.
fn zero_bytes(n: usize) -> (r: Vec<u8>)
    ensures
        r@.len() == n,
        forall|j: int| 0 <= j < n ==> r@[j] == 0,
{
    let mut r: Vec<u8> = Vec::new();
    let mut k: usize = 0;
    while k < n
        invariant
            k <= n,
            r@.len() == k,
            forall|j: int| 0 <= j < k ==> r@[j] == 0,
        decreases n - k,
    {
        r.push(0);
        k = k + 1;
    }
    r
}

/// A vector of `n` zero 16-bit words.
fn zero_words(n: usize) -> (r: Vec<u16>)
    ensures
        r@.len() == n,
        forall|j: int| 0 <= j < n ==> r@[j] == 0,
{
    let mut r: Vec<u16> = Vec::new();
    let mut k: usize = 0;
    while k < n
        invariant
            k <= n,
            r@.len() == k,
            forall|j: int| 0 <= j < k ==> r@[j] == 0,
        decreases n - k,
    {
        r.push(0);
        k = k + 1;
    }
    r
}

} // verus!
