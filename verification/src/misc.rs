use vstd::prelude::*;
use vstd::pervasive::VecAdditionalExecFns;
use rand::Rng;
use crate::machine::{
    Chip8, Chip8Error, same_mem, same_regs, same_i, same_pc, same_gfx, same_delay, same_sound,
    same_stack, same_sp, same_keys, unchanged_state,
};
use crate::alu::only_regs_change;
use crate::flow::only_pc_changes;

verus! {

/// Everything but the index register is left alone.
pub open spec fn only_index_changes(pre: Chip8, post: Chip8) -> bool {
    &&& same_mem(pre, post)
    &&& same_regs(pre, post)
    &&& same_pc(pre, post)
    &&& same_gfx(pre, post)
    &&& same_delay(pre, post)
    &&& same_sound(pre, post)
    &&& same_stack(pre, post)
    &&& same_sp(pre, post)
    &&& same_keys(pre, post)
}

/// Everything but memory is left alone.
pub open spec fn only_memory_changes(pre: Chip8, post: Chip8) -> bool {
    &&& same_regs(pre, post)
    &&& same_i(pre, post)
    &&& same_pc(pre, post)
    &&& same_gfx(pre, post)
    &&& same_delay(pre, post)
    &&& same_sound(pre, post)
    &&& same_stack(pre, post)
    &&& same_sp(pre, post)
    &&& same_keys(pre, post)
}

/// Annn: load the literal 12-bit address into the index register.
pub struct LdIAddr {
    pub address: u16,
}

impl LdIAddr {
    pub open spec fn wf(self) -> bool {
        self.address < 0x1000
    }

    pub open spec fn sem(self, pre: Chip8, post: Chip8) -> bool {
        &&& only_index_changes(pre, post)
        &&& post.i == self.address
    }

    pub fn execute(&self, c: &mut Chip8) -> (r: Result<(), Chip8Error>)
        requires
            old(c).wf(),
        ensures
            final(c).wf(),
            r == Ok::<(), Chip8Error>(()),
            self.sem(*old(c), *final(c)),
    {
        c.i = self.address;
        Ok(())
    }
}

/// Bnnn: jump to the literal 12-bit address plus register 0.
pub struct JmpV0Addr {
    pub address: u16,
}

impl JmpV0Addr {
    pub open spec fn wf(self) -> bool {
        self.address < 0x1000
    }

    pub open spec fn sem(self, pre: Chip8, post: Chip8) -> bool {
        &&& only_pc_changes(pre, post)
        &&& post.pc == self.address + pre.v@[0]
    }

    pub fn execute(&self, c: &mut Chip8) -> (r: Result<(), Chip8Error>)
        requires
            old(c).wf(),
            self.wf(),
        ensures
            final(c).wf(),
            r == Ok::<(), Chip8Error>(()),
            self.sem(*old(c), *final(c)),
    {
        c.pc = self.address + c.v[0] as u16;
        Ok(())
    }
}

/// Relies on rand::thread_rng and rand::Rng::gen::<u8>: a byte from the
/// thread-local generator.  Nothing is promised of the value.
#[verifier::external_body]
fn random_byte() -> u8 {
    rand::thread_rng().gen::<u8>()
}

/// Cxkk: a random byte, bitwise ANDed with the immediate mask, into
/// register x.
pub struct RndVxByte {
    pub x: u8,
    pub byte: u8,
}

impl RndVxByte {
    pub open spec fn wf(self) -> bool {
        self.x < 16
    }

    /// What holds once the drawn byte `rnd` is fixed.
    pub open spec fn masked_sem(self, pre: Chip8, post: Chip8, rnd: u8) -> bool {
        &&& only_regs_change(pre, post)
        &&& post.v@ == pre.v@.update(self.x as int, rnd & self.byte)
    }

    /// The randomness source is unconstrained, so all that is promised of
    /// the instruction is that some byte was masked in.
    pub open spec fn sem(self, pre: Chip8, post: Chip8) -> bool {
        exists|b: u8| self.masked_sem(pre, post, b)
    }

    /// The masking step with the drawn byte handed in, so the masking logic
    /// can be exercised deterministically.
    pub fn execute_with(&self, c: &mut Chip8, rnd: u8) -> (r: Result<(), Chip8Error>)
        requires
            old(c).wf(),
            self.wf(),
        ensures
            final(c).wf(),
            r == Ok::<(), Chip8Error>(()),
            self.masked_sem(*old(c), *final(c), rnd),
            final(c).v@[self.x as int] & self.byte == final(c).v@[self.x as int],
            self.byte == 0 ==> final(c).v@[self.x as int] == 0,
    {
        let masked = rnd & self.byte;
        c.v.set(self.x as usize, masked);
        proof {
            let m = self.byte;
            assert((rnd & m) & m == rnd & m) by (bit_vector);
            assert(rnd & 0 == 0) by (bit_vector);
        }
        Ok(())
    }

    pub fn execute(&self, c: &mut Chip8) -> (r: Result<(), Chip8Error>)
        requires
            old(c).wf(),
            self.wf(),
        ensures
            final(c).wf(),
            r == Ok::<(), Chip8Error>(()),
            self.sem(*old(c), *final(c)),
            final(c).v@[self.x as int] & self.byte == final(c).v@[self.x as int],
            self.byte == 0 ==> final(c).v@[self.x as int] == 0,
    {
        let rnd = random_byte();
        self.execute_with(c, rnd)
    }
}

/// Fx07: read the delay timer into register x.
pub struct LdVxDT {
    pub x: u8,
}

impl LdVxDT {
    pub open spec fn wf(self) -> bool {
        self.x < 16
    }

    pub open spec fn sem(self, pre: Chip8, post: Chip8) -> bool {
        &&& only_regs_change(pre, post)
        &&& post.v@ == pre.v@.update(self.x as int, pre.delay_timer)
    }

    pub fn execute(&self, c: &mut Chip8) -> (r: Result<(), Chip8Error>)
        requires
            old(c).wf(),
            self.wf(),
        ensures
            final(c).wf(),
            r == Ok::<(), Chip8Error>(()),
            self.sem(*old(c), *final(c)),
    {
        let dt = c.delay_timer;
        c.v.set(self.x as usize, dt);
        Ok(())
    }
}

/// Some key in 0..16 is currently down.
pub open spec fn any_key_pressed(keys: Seq<u8>) -> bool {
    exists|j: int| 0 <= j < 16 && keys[j] != 0
}

/// `k` is the lowest-numbered key currently down.
pub open spec fn is_lowest_pressed(keys: Seq<u8>, k: int) -> bool {
    &&& 0 <= k < 16
    &&& keys[k] != 0
    &&& forall|j: int| 0 <= j < k ==> keys[j] == 0
}

/// Fx0A: block until a key is down.  With a key down, the lowest-numbered
/// pressed key (key 0 counts like any other) goes into register x and
/// execution proceeds.  With no key down, the program counter is stepped
/// back over this instruction so the next cycle fetches it again; the host
/// keeps cycling until a key arrives.
pub struct LdVxK {
    pub x: u8,
}

impl LdVxK {
    pub open spec fn wf(self) -> bool {
        self.x < 16
    }

    pub open spec fn sem(self, pre: Chip8, post: Chip8) -> bool {
        if any_key_pressed(pre.keypad@) {
            &&& only_regs_change(pre, post)
            &&& exists|k: int|
                is_lowest_pressed(pre.keypad@, k) && post.v@ == pre.v@.update(
                    self.x as int,
                    k as u8,
                )
        } else {
            &&& only_pc_changes(pre, post)
            &&& post.pc == pre.pc - 2
        }
    }

    pub fn execute(&self, c: &mut Chip8) -> (r: Result<(), Chip8Error>)
        requires
            old(c).wf(),
            self.wf(),
            old(c).pc >= 2,
        ensures
            final(c).wf(),
            r == Ok::<(), Chip8Error>(()),
            self.sem(*old(c), *final(c)),
    {
        let mut found: bool = false;
        let mut key: u8 = 0;
        let mut j: usize = 0;
        while j < 16
            invariant
                old(c).wf(),
                j <= 16,
                *c == *old(c),
                found ==> is_lowest_pressed(c.keypad@, key as int),
                !found ==> forall|t: int| 0 <= t < j ==> c.keypad@[t] == 0,
            decreases 16 - j,
        {
            if !found && c.keypad[j] != 0 {
                found = true;
                key = j as u8;
            }
            j = j + 1;
        }
        if found {
            c.v.set(self.x as usize, key);
        } else {
            c.pc = c.pc - 2;
        }
        Ok(())
    }
}

/// Fx15: write register x into the delay timer.
pub struct LdDTVx {
    pub x: u8,
}

impl LdDTVx {
    pub open spec fn wf(self) -> bool {
        self.x < 16
    }

    pub open spec fn sem(self, pre: Chip8, post: Chip8) -> bool {
        &&& same_mem(pre, post)
        &&& same_regs(pre, post)
        &&& same_i(pre, post)
        &&& same_pc(pre, post)
        &&& same_gfx(pre, post)
        &&& same_sound(pre, post)
        &&& same_stack(pre, post)
        &&& same_sp(pre, post)
        &&& same_keys(pre, post)
        &&& post.delay_timer == pre.v@[self.x as int]
    }

    pub fn execute(&self, c: &mut Chip8) -> (r: Result<(), Chip8Error>)
        requires
            old(c).wf(),
            self.wf(),
        ensures
            final(c).wf(),
            r == Ok::<(), Chip8Error>(()),
            self.sem(*old(c), *final(c)),
    {
        c.delay_timer = c.v[self.x as usize];
        Ok(())
    }
}

/// Fx18: write register x into the sound timer.
pub struct LdSTVx {
    pub x: u8,
}

impl LdSTVx {
    pub open spec fn wf(self) -> bool {
        self.x < 16
    }

    pub open spec fn sem(self, pre: Chip8, post: Chip8) -> bool {
        &&& same_mem(pre, post)
        &&& same_regs(pre, post)
        &&& same_i(pre, post)
        &&& same_pc(pre, post)
        &&& same_gfx(pre, post)
        &&& same_delay(pre, post)
        &&& same_stack(pre, post)
        &&& same_sp(pre, post)
        &&& same_keys(pre, post)
        &&& post.sound_timer == pre.v@[self.x as int]
    }

    pub fn execute(&self, c: &mut Chip8) -> (r: Result<(), Chip8Error>)
        requires
            old(c).wf(),
            self.wf(),
        ensures
            final(c).wf(),
            r == Ok::<(), Chip8Error>(()),
            self.sem(*old(c), *final(c)),
    {
        c.sound_timer = c.v[self.x as usize];
        Ok(())
    }
}

/// Fx1E: add register x into the index register with 16-bit wraparound.
/// The index register is not masked to 12 bits; running past 0xFFF only
/// fails later, when an instruction uses it as a memory pointer.
pub struct AddIVx {
    pub x: u8,
}

impl AddIVx {
    pub open spec fn wf(self) -> bool {
        self.x < 16
    }

    pub open spec fn sem(self, pre: Chip8, post: Chip8) -> bool {
        &&& only_index_changes(pre, post)
        &&& post.i == ((pre.i + pre.v@[self.x as int]) % 0x10000) as u16
    }

    pub fn execute(&self, c: &mut Chip8) -> (r: Result<(), Chip8Error>)
        requires
            old(c).wf(),
            self.wf(),
        ensures
            final(c).wf(),
            r == Ok::<(), Chip8Error>(()),
            self.sem(*old(c), *final(c)),
    {
        let sum: u32 = c.i as u32 + c.v[self.x as usize] as u32;
        c.i = (sum % 0x10000) as u16;
        Ok(())
    }
}

/// Fx29: point the index register at the five-byte font glyph for the
/// digit in register x.  The font table itself lives in low memory and is
/// the host's to provide.
pub struct LdFVx {
    pub x: u8,
}

impl LdFVx {
    pub open spec fn wf(self) -> bool {
        self.x < 16
    }

    pub open spec fn sem(self, pre: Chip8, post: Chip8) -> bool {
        &&& only_index_changes(pre, post)
        &&& post.i == 5 * pre.v@[self.x as int]
    }

    pub fn execute(&self, c: &mut Chip8) -> (r: Result<(), Chip8Error>)
        requires
            old(c).wf(),
            self.wf(),
        ensures
            final(c).wf(),
            r == Ok::<(), Chip8Error>(()),
            self.sem(*old(c), *final(c)),
    {
        c.i = c.v[self.x as usize] as u16 * 5;
        Ok(())
    }
}

/// Fx33: store the decimal digits of register x at the index register:
/// hundreds, tens, ones in three consecutive bytes.
pub struct LdBVx {
    pub x: u8,
}

impl LdBVx {
    pub open spec fn wf(self) -> bool {
        self.x < 16
    }

    pub open spec fn sem(self, pre: Chip8, post: Chip8) -> bool {
        let vx = pre.v@[self.x as int];
        &&& only_memory_changes(pre, post)
        &&& post.memory@ == pre.memory@.update(pre.i as int, (vx / 100) as u8).update(
            pre.i + 1,
            ((vx / 10) % 10) as u8,
        ).update(pre.i + 2, (vx % 10) as u8)
    }

    /// The three bytes must lie inside memory; otherwise the out-of-range
    /// failure is reported and the state is left untouched.
    pub open spec fn outcome(self, pre: Chip8, post: Chip8, r: Result<(), Chip8Error>) -> bool {
        if pre.i + 2 < 4096 {
            &&& r == Ok::<(), Chip8Error>(())
            &&& self.sem(pre, post)
        } else {
            &&& r == Err::<(), Chip8Error>(Chip8Error::MemoryOutOfRange { address: pre.i })
            &&& unchanged_state(pre, post)
        }
    }

    pub fn execute(&self, c: &mut Chip8) -> (r: Result<(), Chip8Error>)
        requires
            old(c).wf(),
            self.wf(),
        ensures
            final(c).wf(),
            self.outcome(*old(c), *final(c), r),
    {
        if c.i as usize + 2 >= 4096 {
            return Err(Chip8Error::MemoryOutOfRange { address: c.i });
        }
        let vx = c.v[self.x as usize];
        let base = c.i as usize;
        c.memory.set(base, vx / 100);
        c.memory.set(base + 1, (vx / 10) % 10);
        c.memory.set(base + 2, vx % 10);
        Ok(())
    }
}

/// Fx55: store registers 0 through x into memory at the index register,
/// which is itself left unchanged.
pub struct LdIVx {
    pub x: u8,
}

impl LdIVx {
    pub open spec fn wf(self) -> bool {
        self.x < 16
    }

    pub open spec fn sem(self, pre: Chip8, post: Chip8) -> bool {
        &&& only_memory_changes(pre, post)
        &&& post.memory@.len() == 4096
        &&& forall|k: int|
            0 <= k < 4096 ==> post.memory@[k] == if pre.i <= k <= pre.i + self.x {
                pre.v@[k - pre.i]
            } else {
                pre.memory@[k]
            }
    }

    /// The whole window must lie inside memory; otherwise the out-of-range
    /// failure is reported and the state is left untouched.
    pub open spec fn outcome(self, pre: Chip8, post: Chip8, r: Result<(), Chip8Error>) -> bool {
        if pre.i + self.x < 4096 {
            &&& r == Ok::<(), Chip8Error>(())
            &&& self.sem(pre, post)
        } else {
            &&& r == Err::<(), Chip8Error>(Chip8Error::MemoryOutOfRange { address: pre.i })
            &&& unchanged_state(pre, post)
        }
    }

    pub fn execute(&self, c: &mut Chip8) -> (r: Result<(), Chip8Error>)
        requires
            old(c).wf(),
            self.wf(),
        ensures
            final(c).wf(),
            self.outcome(*old(c), *final(c), r),
    {
        if c.i as usize + self.x as usize >= 4096 {
            return Err(Chip8Error::MemoryOutOfRange { address: c.i });
        }
        let base = c.i as usize;
        let mut j: usize = 0;
        while j <= self.x as usize
            invariant
                old(c).wf(),
                self.wf(),
                j <= self.x + 1,
                base == old(c).i,
                base + self.x < 4096,
                only_memory_changes(*old(c), *c),
                c.memory@.len() == 4096,
                forall|k: int|
                    0 <= k < 4096 ==> c.memory@[k] == if base <= k < base + j {
                        old(c).v@[k - base]
                    } else {
                        old(c).memory@[k]
                    },
            decreases self.x + 1 - j,
        {
            let vj = c.v[j];
            c.memory.set(base + j, vj);
            j = j + 1;
        }
        Ok(())
    }
}

/// Fx65: load registers 0 through x from memory at the index register,
/// which is itself left unchanged.
pub struct LdVxI {
    pub x: u8,
}

impl LdVxI {
    pub open spec fn wf(self) -> bool {
        self.x < 16
    }

    pub open spec fn sem(self, pre: Chip8, post: Chip8) -> bool {
        &&& only_regs_change(pre, post)
        &&& post.v@.len() == 16
        &&& forall|j: int|
            0 <= j < 16 ==> post.v@[j] == if j <= self.x {
                pre.memory@[pre.i + j]
            } else {
                pre.v@[j]
            }
    }

    /// The whole window must lie inside memory; otherwise the out-of-range
    /// failure is reported and the state is left untouched.
    pub open spec fn outcome(self, pre: Chip8, post: Chip8, r: Result<(), Chip8Error>) -> bool {
        if pre.i + self.x < 4096 {
            &&& r == Ok::<(), Chip8Error>(())
            &&& self.sem(pre, post)
        } else {
            &&& r == Err::<(), Chip8Error>(Chip8Error::MemoryOutOfRange { address: pre.i })
            &&& unchanged_state(pre, post)
        }
    }

    pub fn execute(&self, c: &mut Chip8) -> (r: Result<(), Chip8Error>)
        requires
            old(c).wf(),
            self.wf(),
        ensures
            final(c).wf(),
            self.outcome(*old(c), *final(c), r),
    {
        if c.i as usize + self.x as usize >= 4096 {
            return Err(Chip8Error::MemoryOutOfRange { address: c.i });
        }
        let base = c.i as usize;
        let mut j: usize = 0;
        while j <= self.x as usize
            invariant
                old(c).wf(),
                self.wf(),
                j <= self.x + 1,
                base == old(c).i,
                base + self.x < 4096,
                only_regs_change(*old(c), *c),
                c.v@.len() == 16,
                forall|k: int|
                    0 <= k < 16 ==> c.v@[k] == if 0 <= k < j {
                        old(c).memory@[base + k]
                    } else {
                        old(c).v@[k]
                    },
            decreases self.x + 1 - j,
        {
            let mj = c.memory[base + j];
            c.v.set(j, mj);
            j = j + 1;
        }
        Ok(())
    }
}

} // verus!
