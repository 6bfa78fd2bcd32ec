use vstd::prelude::*;
use crate::machine::{Chip8, Chip8Error, unchanged_state};
use crate::decode::{Instruction, decode, spec_decode};

verus! {

/// The two-byte big-endian opcode at the program counter.
pub open spec fn spec_opcode(s: Chip8) -> u16 {
    (((s.memory@[s.pc as int] as u16) << 8u16) | (s.memory@[s.pc as int + 1] as u16)) as u16
}

/// Both opcode bytes lie inside memory.
pub open spec fn fetch_ok(s: Chip8) -> bool {
    s.pc + 1 < 4096
}

/// The state as the executing instruction sees it: the program counter
/// already advanced past the fetched opcode.
pub open spec fn advanced(s: Chip8) -> Chip8 {
    Chip8 { pc: (s.pc + 2) as u16, ..s }
}

impl Chip8 {
    /// Runs one decoded instruction against the machine.  The caller has
    /// already advanced the program counter past the opcode, as
    /// `emulate_cycle` does.
    pub fn execute_instruction(&mut self, instruction: &Instruction) -> (r: Result<
        (),
        Chip8Error,
    >)
        requires
            old(self).wf(),
            instruction.wf(),
            instruction.pc_safe(*old(self)),
        ensures
            final(self).wf(),
            instruction.outcome(*old(self), *final(self), r),
    {
        match instruction {
            Instruction::Cls(i) => i.execute(self),
            Instruction::Sys(i) => i.execute(self),
            Instruction::Ret(i) => i.execute(self),
            Instruction::Jmp(i) => i.execute(self),
            Instruction::Call(i) => i.execute(self),
            Instruction::SeVxByte(i) => i.execute(self),
            Instruction::SneVxByte(i) => i.execute(self),
            Instruction::SeVxVy(i) => i.execute(self),
            Instruction::LdVxByte(i) => i.execute(self),
            Instruction::AddVxByte(i) => i.execute(self),
            Instruction::LdVxVy(i) => i.execute(self),
            Instruction::OrVxVy(i) => i.execute(self),
            Instruction::AndVxVy(i) => i.execute(self),
            Instruction::XorVxVy(i) => i.execute(self),
            Instruction::AddVxVy(i) => i.execute(self),
            Instruction::SubVxVy(i) => i.execute(self),
            Instruction::ShrVxVy(i) => i.execute(self),
            Instruction::SubnVxVy(i) => i.execute(self),
            Instruction::ShlVxVy(i) => i.execute(self),
            Instruction::SneVxVy(i) => i.execute(self),
            Instruction::LdIAddr(i) => i.execute(self),
            Instruction::JmpV0Addr(i) => i.execute(self),
            Instruction::RndVxByte(i) => i.execute(self),
            Instruction::DrwVxVyNibble(i) => i.execute(self),
            Instruction::SkpVx(i) => i.execute(self),
            Instruction::SknpVx(i) => i.execute(self),
            Instruction::LdVxDT(i) => i.execute(self),
            Instruction::LdVxK(i) => i.execute(self),
            Instruction::LdDTVx(i) => i.execute(self),
            Instruction::LdSTVx(i) => i.execute(self),
            Instruction::AddIVx(i) => i.execute(self),
            Instruction::LdFVx(i) => i.execute(self),
            Instruction::LdBVx(i) => i.execute(self),
            Instruction::LdIVx(i) => i.execute(self),
            Instruction::LdVxI(i) => i.execute(self),
            Instruction::Invalid(i) => i.execute(self),
        }
    }

    /// One full cycle: fetch the big-endian opcode at the program counter,
    /// advance the counter by two, decode, execute.  A counter too close
    /// to the end of memory to hold an opcode is the out-of-range failure,
    /// reported before anything changes.
    pub fn emulate_cycle(&mut self) -> (r: Result<(), Chip8Error>)
        requires
            old(self).wf(),
        ensures
            final(self).wf(),
            !fetch_ok(*old(self)) ==> r == Err::<(), Chip8Error>(
                Chip8Error::MemoryOutOfRange { address: old(self).pc },
            ) && unchanged_state(*old(self), *final(self)),
            fetch_ok(*old(self)) ==> spec_decode(spec_opcode(*old(self))).outcome(
                advanced(*old(self)),
                *final(self),
                r,
            ),
    {
        if self.pc >= 4095 {
            return Err(Chip8Error::MemoryOutOfRange { address: self.pc });
        }
        let hi = self.memory[self.pc as usize];
        let lo = self.memory[self.pc as usize + 1];
        let opcode: u16 = ((hi as u16) << 8u16) | (lo as u16);
        self.pc = self.pc + 2;
        let instruction = decode(opcode);
        proof {
            assert(*self == advanced(*old(self)));
            assert(opcode == spec_opcode(*old(self)));
        }
        self.execute_instruction(&instruction)
    }
}

/// Law: with the jump-to-self program (bytes 0x12 0x00 at 0x200) and the
/// program counter at 0x200, a cycle succeeds and hands the whole state
/// back exactly as it was, the program counter again at 0x200 for the next
/// fetch.  Since the post-state equals the pre-state, any number of
/// consecutive cycles leaves the counter at 0x200 with no state drift.
pub proof fn lemma_self_jump_cycle(pre: Chip8, post: Chip8, r: Result<(), Chip8Error>)
    requires
        pre.wf(),
        pre.pc == 0x200,
        pre.memory@[0x200] == 0x12,
        pre.memory@[0x201] == 0x00,
        spec_decode(spec_opcode(pre)).outcome(advanced(pre), post, r),
    ensures
        r == Ok::<(), Chip8Error>(()),
        unchanged_state(pre, post),
{
    assert(spec_opcode(pre) == 0x1200) by {
        assert(((0x12u16 << 8u16) | 0x00u16) == 0x1200u16) by (bit_vector);
    }
    assert(0x1200u16 & 0xF000 == 0x1000) by (bit_vector);
    assert(0x1200u16 & 0x0FFF == 0x0200) by (bit_vector);
}

} // verus!
