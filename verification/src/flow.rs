use vstd::prelude::*;
use vstd::pervasive::VecAdditionalExecFns;
use crate::machine::{
    Chip8, Chip8Error, same_mem, same_regs, same_i, same_pc, same_gfx, same_delay, same_sound,
    same_stack, same_sp, same_keys, unchanged_state,
};

verus! {

/// Everything but the program counter is left alone.
pub open spec fn only_pc_changes(pre: Chip8, post: Chip8) -> bool {
    &&& same_mem(pre, post)
    &&& same_regs(pre, post)
    &&& same_i(pre, post)
    &&& same_gfx(pre, post)
    &&& same_delay(pre, post)
    &&& same_sound(pre, post)
    &&& same_stack(pre, post)
    &&& same_sp(pre, post)
    &&& same_keys(pre, post)
}

/// 0nnn: machine-code call on the original hardware; here a no-op.
pub struct Sys;

impl Sys {
    pub open spec fn sem(self, pre: Chip8, post: Chip8) -> bool {
        unchanged_state(pre, post)
    }

    pub fn execute(&self, c: &mut Chip8) -> (r: Result<(), Chip8Error>)
        requires
            old(c).wf(),
        ensures
            final(c).wf(),
            r == Ok::<(), Chip8Error>(()),
            self.sem(*old(c), *final(c)),
    {
        Ok(())
    }
}

/// 00EE: return, popping the program counter from the call stack.
pub struct Ret;

impl Ret {
    pub open spec fn sem(self, pre: Chip8, post: Chip8) -> bool {
        &&& same_mem(pre, post)
        &&& same_regs(pre, post)
        &&& same_i(pre, post)
        &&& same_gfx(pre, post)
        &&& same_delay(pre, post)
        &&& same_sound(pre, post)
        &&& same_stack(pre, post)
        &&& same_keys(pre, post)
        &&& post.sp == pre.sp - 1
        &&& post.pc == pre.stack@[pre.sp - 1]
    }

    /// Returning with an empty stack is the underflow failure; the state is
    /// then left untouched.
    pub open spec fn outcome(self, pre: Chip8, post: Chip8, r: Result<(), Chip8Error>) -> bool {
        if pre.sp > 0 {
            &&& r == Ok::<(), Chip8Error>(())
            &&& self.sem(pre, post)
        } else {
            &&& r == Err::<(), Chip8Error>(Chip8Error::StackUnderflow { depth: 0 })
            &&& unchanged_state(pre, post)
        }
    }

    pub fn execute(&self, c: &mut Chip8) -> (r: Result<(), Chip8Error>)
        requires
            old(c).wf(),
        ensures
            final(c).wf(),
            self.outcome(*old(c), *final(c), r),
    {
        if c.sp == 0 {
            return Err(Chip8Error::StackUnderflow { depth: 0 });
        }
        c.sp = c.sp - 1;
        c.pc = c.stack[c.sp];
        Ok(())
    }
}

/// 1nnn: jump to the literal 12-bit address.  The target depends on the
/// instruction word alone, never on register contents.
pub struct Jmp {
    pub address: u16,
}

impl Jmp {
    pub open spec fn wf(self) -> bool {
        self.address < 0x1000
    }

    pub open spec fn sem(self, pre: Chip8, post: Chip8) -> bool {
        &&& only_pc_changes(pre, post)
        &&& post.pc == self.address
    }

    pub fn execute(&self, c: &mut Chip8) -> (r: Result<(), Chip8Error>)
        requires
            old(c).wf(),
        ensures
            final(c).wf(),
            r == Ok::<(), Chip8Error>(()),
            self.sem(*old(c), *final(c)),
    {
        c.pc = self.address;
        Ok(())
    }
}

/// 2nnn: call, pushing the address of the next instruction (the program
/// counter as it stands after the fetch advance) and jumping.
pub struct Call {
    pub address: u16,
}

impl Call {
    pub open spec fn wf(self) -> bool {
        self.address < 0x1000
    }

    pub open spec fn sem(self, pre: Chip8, post: Chip8) -> bool {
        &&& same_mem(pre, post)
        &&& same_regs(pre, post)
        &&& same_i(pre, post)
        &&& same_gfx(pre, post)
        &&& same_delay(pre, post)
        &&& same_sound(pre, post)
        &&& same_keys(pre, post)
        &&& post.stack@ == pre.stack@.update(pre.sp as int, pre.pc)
        &&& post.sp == pre.sp + 1
        &&& post.pc == self.address
    }

    /// Calling with all sixteen slots in use is the overflow failure; the
    /// state is then left untouched.
    pub open spec fn outcome(self, pre: Chip8, post: Chip8, r: Result<(), Chip8Error>) -> bool {
        if pre.sp < 16 {
            &&& r == Ok::<(), Chip8Error>(())
            &&& self.sem(pre, post)
        } else {
            &&& r == Err::<(), Chip8Error>(Chip8Error::StackOverflow { depth: 16 })
            &&& unchanged_state(pre, post)
        }
    }

    pub fn execute(&self, c: &mut Chip8) -> (r: Result<(), Chip8Error>)
        requires
            old(c).wf(),
        ensures
            final(c).wf(),
            self.outcome(*old(c), *final(c), r),
    {
        if c.sp >= 16 {
            return Err(Chip8Error::StackOverflow { depth: 16 });
        }
        c.stack.set(c.sp, c.pc);
        c.sp = c.sp + 1;
        c.pc = self.address;
        Ok(())
    }
}

/// Law: a call followed immediately by a return brings the program counter
/// back to the address just after the call instruction (the value it had
/// once the call opcode was fetched) and leaves the stack pointer at its
/// pre-call value.
pub proof fn lemma_call_then_ret(s0: Chip8, s1: Chip8, s2: Chip8, call: Call, ret: Ret)
    requires
        s0.wf(),
        s0.sp < 16,
        call.sem(s0, s1),
        ret.sem(s1, s2),
    ensures
        s2.pc == s0.pc,
        s2.sp == s0.sp,
{
}

/// 3xkk: skip the next instruction when register x equals the immediate.
pub struct SeVxByte {
    pub x: u8,
    pub byte: u8,
}

impl SeVxByte {
    pub open spec fn wf(self) -> bool {
        self.x < 16
    }

    pub open spec fn sem(self, pre: Chip8, post: Chip8) -> bool {
        &&& only_pc_changes(pre, post)
        &&& post.pc == if pre.v@[self.x as int] == self.byte {
            (pre.pc + 2) as u16
        } else {
            pre.pc
        }
    }

    pub fn execute(&self, c: &mut Chip8) -> (r: Result<(), Chip8Error>)
        requires
            old(c).wf(),
            self.wf(),
            old(c).pc + 2 <= 0xFFFF,
        ensures
            final(c).wf(),
            r == Ok::<(), Chip8Error>(()),
            self.sem(*old(c), *final(c)),
    {
        if c.v[self.x as usize] == self.byte {
            c.pc = c.pc + 2;
        }
        Ok(())
    }
}

/// 4xkk: skip the next instruction when register x differs from the immediate.
pub struct SneVxByte {
    pub x: u8,
    pub byte: u8,
}

impl SneVxByte {
    pub open spec fn wf(self) -> bool {
        self.x < 16
    }

    pub open spec fn sem(self, pre: Chip8, post: Chip8) -> bool {
        &&& only_pc_changes(pre, post)
        &&& post.pc == if pre.v@[self.x as int] != self.byte {
            (pre.pc + 2) as u16
        } else {
            pre.pc
        }
    }

    pub fn execute(&self, c: &mut Chip8) -> (r: Result<(), Chip8Error>)
        requires
            old(c).wf(),
            self.wf(),
            old(c).pc + 2 <= 0xFFFF,
        ensures
            final(c).wf(),
            r == Ok::<(), Chip8Error>(()),
            self.sem(*old(c), *final(c)),
    {
        if c.v[self.x as usize] != self.byte {
            c.pc = c.pc + 2;
        }
        Ok(())
    }
}

/// 5xy0: skip the next instruction when registers x and y are equal.
pub struct SeVxVy {
    pub x: u8,
    pub y: u8,
}

impl SeVxVy {
    pub open spec fn wf(self) -> bool {
        self.x < 16 && self.y < 16
    }

    pub open spec fn sem(self, pre: Chip8, post: Chip8) -> bool {
        &&& only_pc_changes(pre, post)
        &&& post.pc == if pre.v@[self.x as int] == pre.v@[self.y as int] {
            (pre.pc + 2) as u16
        } else {
            pre.pc
        }
    }

    pub fn execute(&self, c: &mut Chip8) -> (r: Result<(), Chip8Error>)
        requires
            old(c).wf(),
            self.wf(),
            old(c).pc + 2 <= 0xFFFF,
        ensures
            final(c).wf(),
            r == Ok::<(), Chip8Error>(()),
            self.sem(*old(c), *final(c)),
    {
        if c.v[self.x as usize] == c.v[self.y as usize] {
            c.pc = c.pc + 2;
        }
        Ok(())
    }
}

/// 9xy0: skip the next instruction when registers x and y differ.
pub struct SneVxVy {
    pub x: u8,
    pub y: u8,
}

impl SneVxVy {
    pub open spec fn wf(self) -> bool {
        self.x < 16 && self.y < 16
    }

    pub open spec fn sem(self, pre: Chip8, post: Chip8) -> bool {
        &&& only_pc_changes(pre, post)
        &&& post.pc == if pre.v@[self.x as int] != pre.v@[self.y as int] {
            (pre.pc + 2) as u16
        } else {
            pre.pc
        }
    }

    pub fn execute(&self, c: &mut Chip8) -> (r: Result<(), Chip8Error>)
        requires
            old(c).wf(),
            self.wf(),
            old(c).pc + 2 <= 0xFFFF,
        ensures
            final(c).wf(),
            r == Ok::<(), Chip8Error>(()),
            self.sem(*old(c), *final(c)),
    {
        if c.v[self.x as usize] != c.v[self.y as usize] {
            c.pc = c.pc + 2;
        }
        Ok(())
    }
}

/// Ex9E: skip the next instruction when the key named by register x is down.
pub struct SkpVx {
    pub x: u8,
}

impl SkpVx {
    pub open spec fn wf(self) -> bool {
        self.x < 16
    }

    pub open spec fn sem(self, pre: Chip8, post: Chip8) -> bool {
        &&& only_pc_changes(pre, post)
        &&& post.pc == if pre.keypad@[pre.v@[self.x as int] as int] != 0 {
            (pre.pc + 2) as u16
        } else {
            pre.pc
        }
    }

    /// Register x must name one of the sixteen keys; anything larger is the
    /// out-of-range failure and the state is left untouched.
    pub open spec fn outcome(self, pre: Chip8, post: Chip8, r: Result<(), Chip8Error>) -> bool {
        if pre.v@[self.x as int] < 16 {
            &&& r == Ok::<(), Chip8Error>(())
            &&& self.sem(pre, post)
        } else {
            &&& r == Err::<(), Chip8Error>(
                Chip8Error::KeyOutOfRange { key: pre.v@[self.x as int] },
            )
            &&& unchanged_state(pre, post)
        }
    }

    pub fn execute(&self, c: &mut Chip8) -> (r: Result<(), Chip8Error>)
        requires
            old(c).wf(),
            self.wf(),
            old(c).pc + 2 <= 0xFFFF,
        ensures
            final(c).wf(),
            self.outcome(*old(c), *final(c), r),
    {
        let key = c.v[self.x as usize];
        if key >= 16 {
            return Err(Chip8Error::KeyOutOfRange { key });
        }
        if c.keypad[key as usize] != 0 {
            c.pc = c.pc + 2;
        }
        Ok(())
    }
}

/// ExA1: skip the next instruction when the key named by register x is up.
pub struct SknpVx {
    pub x: u8,
}

impl SknpVx {
    pub open spec fn wf(self) -> bool {
        self.x < 16
    }

    pub open spec fn sem(self, pre: Chip8, post: Chip8) -> bool {
        &&& only_pc_changes(pre, post)
        &&& post.pc == if pre.keypad@[pre.v@[self.x as int] as int] == 0 {
            (pre.pc + 2) as u16
        } else {
            pre.pc
        }
    }

    /// Register x must name one of the sixteen keys; anything larger is the
    /// out-of-range failure and the state is left untouched.
    pub open spec fn outcome(self, pre: Chip8, post: Chip8, r: Result<(), Chip8Error>) -> bool {
        if pre.v@[self.x as int] < 16 {
            &&& r == Ok::<(), Chip8Error>(())
            &&& self.sem(pre, post)
        } else {
            &&& r == Err::<(), Chip8Error>(
                Chip8Error::KeyOutOfRange { key: pre.v@[self.x as int] },
            )
            &&& unchanged_state(pre, post)
        }
    }

    pub fn execute(&self, c: &mut Chip8) -> (r: Result<(), Chip8Error>)
        requires
            old(c).wf(),
            self.wf(),
            old(c).pc + 2 <= 0xFFFF,
        ensures
            final(c).wf(),
            self.outcome(*old(c), *final(c), r),
    {
        let key = c.v[self.x as usize];
        if key >= 16 {
            return Err(Chip8Error::KeyOutOfRange { key });
        }
        if c.keypad[key as usize] == 0 {
            c.pc = c.pc + 2;
        }
        Ok(())
    }
}

/// An opcode that matches none of the defined instruction patterns.  The
/// failure is raised at execution, not at decode, so the decoder stays a
/// total function.
pub struct InvalidInstruction {
    pub opcode: u16,
}

impl InvalidInstruction {
    pub fn execute(&self, c: &mut Chip8) -> (r: Result<(), Chip8Error>)
        requires
            old(c).wf(),
        ensures
            final(c).wf(),
            r == Err::<(), Chip8Error>(
                Chip8Error::InvalidOpcode { opcode: self.opcode, pc: old(c).pc },
            ),
            unchanged_state(*old(c), *final(c)),
    {
        Err(Chip8Error::InvalidOpcode { opcode: self.opcode, pc: c.pc })
    }
}

} // verus!
