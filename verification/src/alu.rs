use vstd::prelude::*;
use vstd::pervasive::VecAdditionalExecFns;
use crate::machine::{
    Chip8, Chip8Error, same_mem, same_i, same_pc, same_gfx, same_delay, same_sound, same_stack,
    same_sp, same_keys,
};

verus! {

/// Everything but the register file is left alone.
pub open spec fn only_regs_change(pre: Chip8, post: Chip8) -> bool {
    &&& same_mem(pre, post)
    &&& same_i(pre, post)
    &&& same_pc(pre, post)
    &&& same_gfx(pre, post)
    &&& same_delay(pre, post)
    &&& same_sound(pre, post)
    &&& same_stack(pre, post)
    &&& same_sp(pre, post)
    &&& same_keys(pre, post)
}

/// 6xkk: load the immediate into register x.
pub struct LdVxByte {
    pub x: u8,
    pub byte: u8,
}

impl LdVxByte {
    pub open spec fn wf(self) -> bool {
        self.x < 16
    }

    pub open spec fn sem(self, pre: Chip8, post: Chip8) -> bool {
        &&& only_regs_change(pre, post)
        &&& post.v@ == pre.v@.update(self.x as int, self.byte)
    }

    pub fn execute(&self, c: &mut Chip8) -> (r: Result<(), Chip8Error>)
        requires
            old(c).wf(),
            self.wf(),
        ensures
            final(c).wf(),
            r == Ok::<(), Chip8Error>(()),
            self.sem(*old(c), *final(c)),
    {
        c.v.set(self.x as usize, self.byte);
        Ok(())
    }
}

/// 7xkk: add the immediate into register x with 8-bit wraparound; the flag
/// register is not touched.
pub struct AddVxByte {
    pub x: u8,
    pub byte: u8,
}

impl AddVxByte {
    pub open spec fn wf(self) -> bool {
        self.x < 16
    }

    pub open spec fn sem(self, pre: Chip8, post: Chip8) -> bool {
        &&& only_regs_change(pre, post)
        &&& post.v@ == pre.v@.update(
            self.x as int,
            ((pre.v@[self.x as int] + self.byte) % 256) as u8,
        )
    }

    pub fn execute(&self, c: &mut Chip8) -> (r: Result<(), Chip8Error>)
        requires
            old(c).wf(),
            self.wf(),
        ensures
            final(c).wf(),
            r == Ok::<(), Chip8Error>(()),
            self.sem(*old(c), *final(c)),
    {
        let sum: u16 = c.v[self.x as usize] as u16 + self.byte as u16;
        c.v.set(self.x as usize, (sum % 256) as u8);
        Ok(())
    }
}

/// 8xy0: copy register y into register x.
pub struct LdVxVy {
    pub x: u8,
    pub y: u8,
}

impl LdVxVy {
    pub open spec fn wf(self) -> bool {
        self.x < 16 && self.y < 16
    }

    pub open spec fn sem(self, pre: Chip8, post: Chip8) -> bool {
        &&& only_regs_change(pre, post)
        &&& post.v@ == pre.v@.update(self.x as int, pre.v@[self.y as int])
    }

    pub fn execute(&self, c: &mut Chip8) -> (r: Result<(), Chip8Error>)
        requires
            old(c).wf(),
            self.wf(),
        ensures
            final(c).wf(),
            r == Ok::<(), Chip8Error>(()),
            self.sem(*old(c), *final(c)),
    {
        let vy = c.v[self.y as usize];
        c.v.set(self.x as usize, vy);
        Ok(())
    }
}

/// 8xy1: bitwise OR of registers x and y into x.
pub struct OrVxVy {
    pub x: u8,
    pub y: u8,
}

impl OrVxVy {
    pub open spec fn wf(self) -> bool {
        self.x < 16 && self.y < 16
    }

    pub open spec fn sem(self, pre: Chip8, post: Chip8) -> bool {
        &&& only_regs_change(pre, post)
        &&& post.v@ == pre.v@.update(
            self.x as int,
            pre.v@[self.x as int] | pre.v@[self.y as int],
        )
    }

    pub fn execute(&self, c: &mut Chip8) -> (r: Result<(), Chip8Error>)
        requires
            old(c).wf(),
            self.wf(),
        ensures
            final(c).wf(),
            r == Ok::<(), Chip8Error>(()),
            self.sem(*old(c), *final(c)),
    {
        let vx = c.v[self.x as usize];
        let vy = c.v[self.y as usize];
        c.v.set(self.x as usize, vx | vy);
        Ok(())
    }
}

/// 8xy2: bitwise AND of registers x and y into x.
pub struct AndVxVy {
    pub x: u8,
    pub y: u8,
}

impl AndVxVy {
    pub open spec fn wf(self) -> bool {
        self.x < 16 && self.y < 16
    }

    pub open spec fn sem(self, pre: Chip8, post: Chip8) -> bool {
        &&& only_regs_change(pre, post)
        &&& post.v@ == pre.v@.update(
            self.x as int,
            pre.v@[self.x as int] & pre.v@[self.y as int],
        )
    }

    pub fn execute(&self, c: &mut Chip8) -> (r: Result<(), Chip8Error>)
        requires
            old(c).wf(),
            self.wf(),
        ensures
            final(c).wf(),
            r == Ok::<(), Chip8Error>(()),
            self.sem(*old(c), *final(c)),
    {
        let vx = c.v[self.x as usize];
        let vy = c.v[self.y as usize];
        c.v.set(self.x as usize, vx & vy);
        Ok(())
    }
}

/// 8xy3: bitwise XOR of registers x and y into x.
pub struct XorVxVy {
    pub x: u8,
    pub y: u8,
}

impl XorVxVy {
    pub open spec fn wf(self) -> bool {
        self.x < 16 && self.y < 16
    }

    pub open spec fn sem(self, pre: Chip8, post: Chip8) -> bool {
        &&& only_regs_change(pre, post)
        &&& post.v@ == pre.v@.update(
            self.x as int,
            pre.v@[self.x as int] ^ pre.v@[self.y as int],
        )
    }

    pub fn execute(&self, c: &mut Chip8) -> (r: Result<(), Chip8Error>)
        requires
            old(c).wf(),
            self.wf(),
        ensures
            final(c).wf(),
            r == Ok::<(), Chip8Error>(()),
            self.sem(*old(c), *final(c)),
    {
        let vx = c.v[self.x as usize];
        let vy = c.v[self.y as usize];
        c.v.set(self.x as usize, vx ^ vy);
        Ok(())
    }
}

/// 8xy4: add register y into register x with 8-bit wraparound.  The flag
/// register is written first (1 on overflow, 0 otherwise), then the result;
/// with x = 0xF the result therefore wins.
pub struct AddVxVy {
    pub x: u8,
    pub y: u8,
}

impl AddVxVy {
    pub open spec fn wf(self) -> bool {
        self.x < 16 && self.y < 16
    }

    pub open spec fn sem(self, pre: Chip8, post: Chip8) -> bool {
        let sum = pre.v@[self.x as int] + pre.v@[self.y as int];
        let flag: u8 = if sum > 255 {
            1u8
        } else {
            0u8
        };
        &&& only_regs_change(pre, post)
        &&& post.v@ == pre.v@.update(15, flag).update(self.x as int, (sum % 256) as u8)
    }

    /// The two final clauses state the law for the add instruction: the
    /// result is the sum modulo 256 and the flag says whether the sum
    /// exceeded 255, whenever x is not the flag register itself.
    pub fn execute(&self, c: &mut Chip8) -> (r: Result<(), Chip8Error>)
        requires
            old(c).wf(),
            self.wf(),
        ensures
            final(c).wf(),
            r == Ok::<(), Chip8Error>(()),
            self.sem(*old(c), *final(c)),
            self.x != 15 ==> final(c).v@[self.x as int] == (old(c).v@[self.x as int]
                + old(c).v@[self.y as int]) % 256,
            self.x != 15 ==> (final(c).v@[15] == 1 <==> old(c).v@[self.x as int]
                + old(c).v@[self.y as int] > 255),
    {
        let sum: u16 = c.v[self.x as usize] as u16 + c.v[self.y as usize] as u16;
        let flag: u8 = if sum > 255 {
            1
        } else {
            0
        };
        c.v.set(15, flag);
        c.v.set(self.x as usize, (sum % 256) as u8);
        Ok(())
    }
}

/// 8xy5: subtract register y from register x with 8-bit wraparound.  The
/// flag register is written first (1 when no borrow occurred, that is when
/// vx >= vy, 0 otherwise), then the result; with x = 0xF the result wins.
pub struct SubVxVy {
    pub x: u8,
    pub y: u8,
}

impl SubVxVy {
    pub open spec fn wf(self) -> bool {
        self.x < 16 && self.y < 16
    }

    pub open spec fn sem(self, pre: Chip8, post: Chip8) -> bool {
        let diff = pre.v@[self.x as int] - pre.v@[self.y as int];
        let flag: u8 = if pre.v@[self.x as int] >= pre.v@[self.y as int] {
            1u8
        } else {
            0u8
        };
        &&& only_regs_change(pre, post)
        &&& post.v@ == pre.v@.update(15, flag).update(self.x as int, (diff % 256) as u8)
    }

    /// The two final clauses state the law for the subtract instruction:
    /// the flag is 1 exactly when vx >= vy and the result is the difference
    /// modulo 256, whenever x is not the flag register itself.
    pub fn execute(&self, c: &mut Chip8) -> (r: Result<(), Chip8Error>)
        requires
            old(c).wf(),
            self.wf(),
        ensures
            final(c).wf(),
            r == Ok::<(), Chip8Error>(()),
            self.sem(*old(c), *final(c)),
            self.x != 15 ==> (final(c).v@[15] == 1 <==> old(c).v@[self.x as int] >= old(
                c,
            ).v@[self.y as int]),
            self.x != 15 ==> final(c).v@[self.x as int] == (old(c).v@[self.x as int] - old(
                c,
            ).v@[self.y as int]) % 256,
    {
        let vx = c.v[self.x as usize];
        let vy = c.v[self.y as usize];
        let flag: u8 = if vx >= vy {
            1
        } else {
            0
        };
        let diff: u8 = if vx >= vy {
            vx - vy
        } else {
            ((vx as u16 + 256) - vy as u16) as u8
        };
        c.v.set(15, flag);
        c.v.set(self.x as usize, diff);
        Ok(())
    }
}

/// 8xy7: subtract register x from register y, into x, with the same borrow
/// convention as 8xy5 (flag 1 when vy >= vx).
pub struct SubnVxVy {
    pub x: u8,
    pub y: u8,
}

impl SubnVxVy {
    pub open spec fn wf(self) -> bool {
        self.x < 16 && self.y < 16
    }

    pub open spec fn sem(self, pre: Chip8, post: Chip8) -> bool {
        let diff = pre.v@[self.y as int] - pre.v@[self.x as int];
        let flag: u8 = if pre.v@[self.y as int] >= pre.v@[self.x as int] {
            1u8
        } else {
            0u8
        };
        &&& only_regs_change(pre, post)
        &&& post.v@ == pre.v@.update(15, flag).update(self.x as int, (diff % 256) as u8)
    }

    pub fn execute(&self, c: &mut Chip8) -> (r: Result<(), Chip8Error>)
        requires
            old(c).wf(),
            self.wf(),
        ensures
            final(c).wf(),
            r == Ok::<(), Chip8Error>(()),
            self.sem(*old(c), *final(c)),
    {
        let vx = c.v[self.x as usize];
        let vy = c.v[self.y as usize];
        let flag: u8 = if vy >= vx {
            1
        } else {
            0
        };
        let diff: u8 = if vy >= vx {
            vy - vx
        } else {
            ((vy as u16 + 256) - vx as u16) as u8
        };
        c.v.set(15, flag);
        c.v.set(self.x as usize, diff);
        Ok(())
    }
}

/// 8xy6: shift register x right by one.  The flag register first takes the
/// bit shifted out (the original least significant bit), then x is shifted;
/// with x = 0xF the shift therefore acts on the freshly written flag.
/// Operand y is decoded but unused.
pub struct ShrVxVy {
    pub x: u8,
    pub y: u8,
}

impl ShrVxVy {
    pub open spec fn wf(self) -> bool {
        self.x < 16 && self.y < 16
    }

    pub open spec fn sem(self, pre: Chip8, post: Chip8) -> bool {
        let t = pre.v@.update(15, pre.v@[self.x as int] & 1);
        &&& only_regs_change(pre, post)
        &&& post.v@ == t.update(self.x as int, t[self.x as int] >> 1u8)
    }

    pub fn execute(&self, c: &mut Chip8) -> (r: Result<(), Chip8Error>)
        requires
            old(c).wf(),
            self.wf(),
        ensures
            final(c).wf(),
            r == Ok::<(), Chip8Error>(()),
            self.sem(*old(c), *final(c)),
            self.x != 15 ==> final(c).v@[self.x as int] == old(c).v@[self.x as int] / 2,
            self.x != 15 ==> final(c).v@[15] == old(c).v@[self.x as int] % 2,
    {
        let lsb = c.v[self.x as usize] & 1;
        c.v.set(15, lsb);
        let cur = c.v[self.x as usize];
        c.v.set(self.x as usize, cur >> 1u8);
        proof {
            let vx = old(c).v@[self.x as int];
            assert(vx >> 1u8 == vx / 2) by (bit_vector);
            assert((vx & 1) == vx % 2) by (bit_vector);
        }
        Ok(())
    }
}

/// 8xyE: shift register x left by one.  The flag register first takes the
/// bit shifted out (the original most significant bit), then x is shifted;
/// with x = 0xF the shift therefore acts on the freshly written flag.
/// Operand y is decoded but unused.
pub struct ShlVxVy {
    pub x: u8,
    pub y: u8,
}

impl ShlVxVy {
    pub open spec fn wf(self) -> bool {
        self.x < 16 && self.y < 16
    }

    pub open spec fn sem(self, pre: Chip8, post: Chip8) -> bool {
        let t = pre.v@.update(15, pre.v@[self.x as int] >> 7u8);
        &&& only_regs_change(pre, post)
        &&& post.v@ == t.update(self.x as int, t[self.x as int] << 1u8)
    }

    pub fn execute(&self, c: &mut Chip8) -> (r: Result<(), Chip8Error>)
        requires
            old(c).wf(),
            self.wf(),
        ensures
            final(c).wf(),
            r == Ok::<(), Chip8Error>(()),
            self.sem(*old(c), *final(c)),
            self.x != 15 ==> final(c).v@[self.x as int] == (2 * old(c).v@[self.x as int]) % 256,
            self.x != 15 ==> (final(c).v@[15] == 1 <==> old(c).v@[self.x as int] >= 128),
    {
        let msb = c.v[self.x as usize] >> 7u8;
        c.v.set(15, msb);
        let cur = c.v[self.x as usize];
        c.v.set(self.x as usize, cur << 1u8);
        proof {
            let vx = old(c).v@[self.x as int];
            assert(vx << 1u8 == ((2 * (vx as u16)) % 256) as u8) by (bit_vector);
            assert((vx >> 7u8 == 1) <==> (vx >= 128)) by (bit_vector);
            assert((vx >> 7u8 == 1) || (vx >> 7u8 == 0)) by (bit_vector);
        }
        Ok(())
    }
}

} // verus!
