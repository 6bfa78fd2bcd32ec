use vstd::prelude::*;
use crate::machine::{Chip8, Chip8Error};
use crate::flow::{
    Sys, Ret, Jmp, Call, SeVxByte, SneVxByte, SeVxVy, SneVxVy, SkpVx, SknpVx, InvalidInstruction,
};
use crate::alu::{
    LdVxByte, AddVxByte, LdVxVy, OrVxVy, AndVxVy, XorVxVy, AddVxVy, SubVxVy, ShrVxVy, SubnVxVy,
    ShlVxVy,
};
use crate::misc::{
    LdIAddr, JmpV0Addr, RndVxByte, LdVxDT, LdVxK, LdDTVx, LdSTVx, AddIVx, LdFVx, LdBVx, LdIVx,
    LdVxI,
};
use crate::draw::{Cls, DrwVxVyNibble};

verus! {

/// One decoded instruction: the closed sum of the 35 defined operations
/// (plus the historical machine-code call as a no-op) and the explicit
/// invalid case, carrying its operands.
pub enum Instruction {
    Cls(Cls),
    Sys(Sys),
    Ret(Ret),
    Jmp(Jmp),
    Call(Call),
    SeVxByte(SeVxByte),
    SneVxByte(SneVxByte),
    SeVxVy(SeVxVy),
    LdVxByte(LdVxByte),
    AddVxByte(AddVxByte),
    LdVxVy(LdVxVy),
    OrVxVy(OrVxVy),
    AndVxVy(AndVxVy),
    XorVxVy(XorVxVy),
    AddVxVy(AddVxVy),
    SubVxVy(SubVxVy),
    ShrVxVy(ShrVxVy),
    SubnVxVy(SubnVxVy),
    ShlVxVy(ShlVxVy),
    SneVxVy(SneVxVy),
    LdIAddr(LdIAddr),
    JmpV0Addr(JmpV0Addr),
    RndVxByte(RndVxByte),
    DrwVxVyNibble(DrwVxVyNibble),
    SkpVx(SkpVx),
    SknpVx(SknpVx),
    LdVxDT(LdVxDT),
    LdVxK(LdVxK),
    LdDTVx(LdDTVx),
    LdSTVx(LdSTVx),
    AddIVx(AddIVx),
    LdFVx(LdFVx),
    LdBVx(LdBVx),
    LdIVx(LdIVx),
    LdVxI(LdVxI),
    Invalid(InvalidInstruction),
}

/// Operand x: the second nibble.
pub open spec fn op_x(op: u16) -> u8 {
    ((op & 0x0F00) >> 8u16) as u8
}

/// Operand y: the third nibble.
pub open spec fn op_y(op: u16) -> u8 {
    ((op & 0x00F0) >> 4u16) as u8
}

/// Operand n: the lowest nibble.
pub open spec fn op_n(op: u16) -> u8 {
    (op & 0x000F) as u8
}

/// Operand kk: the low byte.
pub open spec fn op_kk(op: u16) -> u8 {
    (op & 0x00FF) as u8
}

/// Operand nnn: the low twelve bits.
pub open spec fn op_nnn(op: u16) -> u16 {
    op & 0x0FFF
}

/// The pure decoding table: which instruction, with which operands, a
/// 16-bit opcode stands for.  Total: anything outside the 35 defined
/// patterns maps to the invalid case.
pub open spec fn spec_decode(op: u16) -> Instruction {
    if op == 0x00E0 {
        Instruction::Cls(Cls)
    } else if op == 0x00EE {
        Instruction::Ret(Ret)
    } else if op & 0xF000 == 0x1000 {
        Instruction::Jmp(Jmp { address: op_nnn(op) })
    } else if op & 0xF000 == 0x2000 {
        Instruction::Call(Call { address: op_nnn(op) })
    } else if op & 0xF000 == 0x3000 {
        Instruction::SeVxByte(SeVxByte { x: op_x(op), byte: op_kk(op) })
    } else if op & 0xF000 == 0x4000 {
        Instruction::SneVxByte(SneVxByte { x: op_x(op), byte: op_kk(op) })
    } else if op & 0xF000 == 0x5000 {
        Instruction::SeVxVy(SeVxVy { x: op_x(op), y: op_y(op) })
    } else if op & 0xF000 == 0x6000 {
        Instruction::LdVxByte(LdVxByte { x: op_x(op), byte: op_kk(op) })
    } else if op & 0xF000 == 0x7000 {
        Instruction::AddVxByte(AddVxByte { x: op_x(op), byte: op_kk(op) })
    } else if op & 0xF000 == 0x8000 {
        if op & 0x000F == 0x0000 {
            Instruction::LdVxVy(LdVxVy { x: op_x(op), y: op_y(op) })
        } else if op & 0x000F == 0x0001 {
            Instruction::OrVxVy(OrVxVy { x: op_x(op), y: op_y(op) })
        } else if op & 0x000F == 0x0002 {
            Instruction::AndVxVy(AndVxVy { x: op_x(op), y: op_y(op) })
        } else if op & 0x000F == 0x0003 {
            Instruction::XorVxVy(XorVxVy { x: op_x(op), y: op_y(op) })
        } else if op & 0x000F == 0x0004 {
            Instruction::AddVxVy(AddVxVy { x: op_x(op), y: op_y(op) })
        } else if op & 0x000F == 0x0005 {
            Instruction::SubVxVy(SubVxVy { x: op_x(op), y: op_y(op) })
        } else if op & 0x000F == 0x0006 {
            Instruction::ShrVxVy(ShrVxVy { x: op_x(op), y: op_y(op) })
        } else if op & 0x000F == 0x0007 {
            Instruction::SubnVxVy(SubnVxVy { x: op_x(op), y: op_y(op) })
        } else if op & 0x000F == 0x000E {
            Instruction::ShlVxVy(ShlVxVy { x: op_x(op), y: op_y(op) })
        } else {
            Instruction::Invalid(InvalidInstruction { opcode: op })
        }
    } else if op & 0xF000 == 0x9000 {
        Instruction::SneVxVy(SneVxVy { x: op_x(op), y: op_y(op) })
    } else if op & 0xF000 == 0xA000 {
        Instruction::LdIAddr(LdIAddr { address: op_nnn(op) })
    } else if op & 0xF000 == 0xB000 {
        Instruction::JmpV0Addr(JmpV0Addr { address: op_nnn(op) })
    } else if op & 0xF000 == 0xC000 {
        Instruction::RndVxByte(RndVxByte { x: op_x(op), byte: op_kk(op) })
    } else if op & 0xF000 == 0xD000 {
        Instruction::DrwVxVyNibble(DrwVxVyNibble { x: op_x(op), y: op_y(op), n: op_n(op) })
    } else if op & 0xF000 == 0xE000 {
        if op & 0x00FF == 0x009E {
            Instruction::SkpVx(SkpVx { x: op_x(op) })
        } else if op & 0x00FF == 0x00A1 {
            Instruction::SknpVx(SknpVx { x: op_x(op) })
        } else {
            Instruction::Invalid(InvalidInstruction { opcode: op })
        }
    } else if op & 0xF000 == 0xF000 {
        if op & 0x00FF == 0x0007 {
            Instruction::LdVxDT(LdVxDT { x: op_x(op) })
        } else if op & 0x00FF == 0x000A {
            Instruction::LdVxK(LdVxK { x: op_x(op) })
        } else if op & 0x00FF == 0x0015 {
            Instruction::LdDTVx(LdDTVx { x: op_x(op) })
        } else if op & 0x00FF == 0x0018 {
            Instruction::LdSTVx(LdSTVx { x: op_x(op) })
        } else if op & 0x00FF == 0x001E {
            Instruction::AddIVx(AddIVx { x: op_x(op) })
        } else if op & 0x00FF == 0x0029 {
            Instruction::LdFVx(LdFVx { x: op_x(op) })
        } else if op & 0x00FF == 0x0033 {
            Instruction::LdBVx(LdBVx { x: op_x(op) })
        } else if op & 0x00FF == 0x0055 {
            Instruction::LdIVx(LdIVx { x: op_x(op) })
        } else if op & 0x00FF == 0x0065 {
            Instruction::LdVxI(LdVxI { x: op_x(op) })
        } else {
            Instruction::Invalid(InvalidInstruction { opcode: op })
        }
    } else {
        Instruction::Invalid(InvalidInstruction { opcode: op })
    }
}

impl Instruction {
    /// Operands extracted from a 16-bit opcode are in range by
    /// construction; this says so variant by variant.
    pub open spec fn wf(self) -> bool {
        match self {
            Instruction::Cls(_) => true,
            Instruction::Sys(_) => true,
            Instruction::Ret(_) => true,
            Instruction::Jmp(i) => i.wf(),
            Instruction::Call(i) => i.wf(),
            Instruction::SeVxByte(i) => i.wf(),
            Instruction::SneVxByte(i) => i.wf(),
            Instruction::SeVxVy(i) => i.wf(),
            Instruction::LdVxByte(i) => i.wf(),
            Instruction::AddVxByte(i) => i.wf(),
            Instruction::LdVxVy(i) => i.wf(),
            Instruction::OrVxVy(i) => i.wf(),
            Instruction::AndVxVy(i) => i.wf(),
            Instruction::XorVxVy(i) => i.wf(),
            Instruction::AddVxVy(i) => i.wf(),
            Instruction::SubVxVy(i) => i.wf(),
            Instruction::ShrVxVy(i) => i.wf(),
            Instruction::SubnVxVy(i) => i.wf(),
            Instruction::ShlVxVy(i) => i.wf(),
            Instruction::SneVxVy(i) => i.wf(),
            Instruction::LdIAddr(i) => i.wf(),
            Instruction::JmpV0Addr(i) => i.wf(),
            Instruction::RndVxByte(i) => i.wf(),
            Instruction::DrwVxVyNibble(i) => i.wf(),
            Instruction::SkpVx(i) => i.wf(),
            Instruction::SknpVx(i) => i.wf(),
            Instruction::LdVxDT(i) => i.wf(),
            Instruction::LdVxK(i) => i.wf(),
            Instruction::LdDTVx(i) => i.wf(),
            Instruction::LdSTVx(i) => i.wf(),
            Instruction::AddIVx(i) => i.wf(),
            Instruction::LdFVx(i) => i.wf(),
            Instruction::LdBVx(i) => i.wf(),
            Instruction::LdIVx(i) => i.wf(),
            Instruction::LdVxI(i) => i.wf(),
            Instruction::Invalid(_) => true,
        }
    }

    /// The program-counter headroom an instruction needs: the skips add 2
    /// to an already advanced counter, and the key wait steps it back over
    /// itself.  Machine limits only; in a running machine the counter sits
    /// between 0x202 and 0x1000 after the fetch advance.
    pub open spec fn pc_safe(self, pre: Chip8) -> bool {
        match self {
            Instruction::SeVxByte(_) => pre.pc + 2 <= 0xFFFF,
            Instruction::SneVxByte(_) => pre.pc + 2 <= 0xFFFF,
            Instruction::SeVxVy(_) => pre.pc + 2 <= 0xFFFF,
            Instruction::SneVxVy(_) => pre.pc + 2 <= 0xFFFF,
            Instruction::SkpVx(_) => pre.pc + 2 <= 0xFFFF,
            Instruction::SknpVx(_) => pre.pc + 2 <= 0xFFFF,
            Instruction::LdVxK(_) => pre.pc >= 2,
            _ => true,
        }
    }

    /// The full effect of executing one instruction: which result comes
    /// back on which states, and how the machine changes.
    pub open spec fn outcome(self, pre: Chip8, post: Chip8, r: Result<(), Chip8Error>) -> bool {
        match self {
            Instruction::Cls(i) => r == Ok::<(), Chip8Error>(()) && i.sem(pre, post),
            Instruction::Sys(i) => r == Ok::<(), Chip8Error>(()) && i.sem(pre, post),
            Instruction::Ret(i) => i.outcome(pre, post, r),
            Instruction::Jmp(i) => r == Ok::<(), Chip8Error>(()) && i.sem(pre, post),
            Instruction::Call(i) => i.outcome(pre, post, r),
            Instruction::SeVxByte(i) => r == Ok::<(), Chip8Error>(()) && i.sem(pre, post),
            Instruction::SneVxByte(i) => r == Ok::<(), Chip8Error>(()) && i.sem(pre, post),
            Instruction::SeVxVy(i) => r == Ok::<(), Chip8Error>(()) && i.sem(pre, post),
            Instruction::LdVxByte(i) => r == Ok::<(), Chip8Error>(()) && i.sem(pre, post),
            Instruction::AddVxByte(i) => r == Ok::<(), Chip8Error>(()) && i.sem(pre, post),
            Instruction::LdVxVy(i) => r == Ok::<(), Chip8Error>(()) && i.sem(pre, post),
            Instruction::OrVxVy(i) => r == Ok::<(), Chip8Error>(()) && i.sem(pre, post),
            Instruction::AndVxVy(i) => r == Ok::<(), Chip8Error>(()) && i.sem(pre, post),
            Instruction::XorVxVy(i) => r == Ok::<(), Chip8Error>(()) && i.sem(pre, post),
            Instruction::AddVxVy(i) => r == Ok::<(), Chip8Error>(()) && i.sem(pre, post),
            Instruction::SubVxVy(i) => r == Ok::<(), Chip8Error>(()) && i.sem(pre, post),
            Instruction::ShrVxVy(i) => r == Ok::<(), Chip8Error>(()) && i.sem(pre, post),
            Instruction::SubnVxVy(i) => r == Ok::<(), Chip8Error>(()) && i.sem(pre, post),
            Instruction::ShlVxVy(i) => r == Ok::<(), Chip8Error>(()) && i.sem(pre, post),
            Instruction::SneVxVy(i) => r == Ok::<(), Chip8Error>(()) && i.sem(pre, post),
            Instruction::LdIAddr(i) => r == Ok::<(), Chip8Error>(()) && i.sem(pre, post),
            Instruction::JmpV0Addr(i) => r == Ok::<(), Chip8Error>(()) && i.sem(pre, post),
            Instruction::RndVxByte(i) => r == Ok::<(), Chip8Error>(()) && i.sem(pre, post),
            Instruction::DrwVxVyNibble(i) => i.outcome(pre, post, r),
            Instruction::SkpVx(i) => i.outcome(pre, post, r),
            Instruction::SknpVx(i) => i.outcome(pre, post, r),
            Instruction::LdVxDT(i) => r == Ok::<(), Chip8Error>(()) && i.sem(pre, post),
            Instruction::LdVxK(i) => r == Ok::<(), Chip8Error>(()) && i.sem(pre, post),
            Instruction::LdDTVx(i) => r == Ok::<(), Chip8Error>(()) && i.sem(pre, post),
            Instruction::LdSTVx(i) => r == Ok::<(), Chip8Error>(()) && i.sem(pre, post),
            Instruction::AddIVx(i) => r == Ok::<(), Chip8Error>(()) && i.sem(pre, post),
            Instruction::LdFVx(i) => r == Ok::<(), Chip8Error>(()) && i.sem(pre, post),
            Instruction::LdBVx(i) => i.outcome(pre, post, r),
            Instruction::LdIVx(i) => i.outcome(pre, post, r),
            Instruction::LdVxI(i) => i.outcome(pre, post, r),
            Instruction::Invalid(i) => r == Err::<(), Chip8Error>(
                Chip8Error::InvalidOpcode { opcode: i.opcode, pc: pre.pc },
            ) && crate::machine::unchanged_state(pre, post),
        }
    }
}

/// Decodes a 16-bit opcode, exactly as `spec_decode` lays the table out.
pub fn decode(op: u16) -> (r: Instruction)
    ensures
        r == spec_decode(op),
        r.wf(),
{
    proof {
        assert(((op & 0x0F00) >> 8u16) < 16) by (bit_vector);
        assert(((op & 0x00F0) >> 4u16) < 16) by (bit_vector);
        assert((op & 0x000F) < 16) by (bit_vector);
        assert((op & 0x0FFF) < 0x1000) by (bit_vector);
    }
    let x = ((op & 0x0F00) >> 8u16) as u8;
    let y = ((op & 0x00F0) >> 4u16) as u8;
    let n = (op & 0x000F) as u8;
    let kk = (op & 0x00FF) as u8;
    let nnn = op & 0x0FFF;
    let top = op & 0xF000;
    if op == 0x00E0 {
        Instruction::Cls(Cls)
    } else if op == 0x00EE {
        Instruction::Ret(Ret)
    } else if top == 0x1000 {
        Instruction::Jmp(Jmp { address: nnn })
    } else if top == 0x2000 {
        Instruction::Call(Call { address: nnn })
    } else if top == 0x3000 {
        Instruction::SeVxByte(SeVxByte { x, byte: kk })
    } else if top == 0x4000 {
        Instruction::SneVxByte(SneVxByte { x, byte: kk })
    } else if top == 0x5000 {
        Instruction::SeVxVy(SeVxVy { x, y })
    } else if top == 0x6000 {
        Instruction::LdVxByte(LdVxByte { x, byte: kk })
    } else if top == 0x7000 {
        Instruction::AddVxByte(AddVxByte { x, byte: kk })
    } else if top == 0x8000 {
        let low = op & 0x000F;
        if low == 0x0000 {
            Instruction::LdVxVy(LdVxVy { x, y })
        } else if low == 0x0001 {
            Instruction::OrVxVy(OrVxVy { x, y })
        } else if low == 0x0002 {
            Instruction::AndVxVy(AndVxVy { x, y })
        } else if low == 0x0003 {
            Instruction::XorVxVy(XorVxVy { x, y })
        } else if low == 0x0004 {
            Instruction::AddVxVy(AddVxVy { x, y })
        } else if low == 0x0005 {
            Instruction::SubVxVy(SubVxVy { x, y })
        } else if low == 0x0006 {
            Instruction::ShrVxVy(ShrVxVy { x, y })
        } else if low == 0x0007 {
            Instruction::SubnVxVy(SubnVxVy { x, y })
        } else if low == 0x000E {
            Instruction::ShlVxVy(ShlVxVy { x, y })
        } else {
            Instruction::Invalid(InvalidInstruction { opcode: op })
        }
    } else if top == 0x9000 {
        Instruction::SneVxVy(SneVxVy { x, y })
    } else if top == 0xA000 {
        Instruction::LdIAddr(LdIAddr { address: nnn })
    } else if top == 0xB000 {
        Instruction::JmpV0Addr(JmpV0Addr { address: nnn })
    } else if top == 0xC000 {
        Instruction::RndVxByte(RndVxByte { x, byte: kk })
    } else if top == 0xD000 {
        Instruction::DrwVxVyNibble(DrwVxVyNibble { x, y, n })
    } else if top == 0xE000 {
        let low = op & 0x00FF;
        if low == 0x009E {
            Instruction::SkpVx(SkpVx { x })
        } else if low == 0x00A1 {
            Instruction::SknpVx(SknpVx { x })
        } else {
            Instruction::Invalid(InvalidInstruction { opcode: op })
        }
    } else if top == 0xF000 {
        let low = op & 0x00FF;
        if low == 0x0007 {
            Instruction::LdVxDT(LdVxDT { x })
        } else if low == 0x000A {
            Instruction::LdVxK(LdVxK { x })
        } else if low == 0x0015 {
            Instruction::LdDTVx(LdDTVx { x })
        } else if low == 0x0018 {
            Instruction::LdSTVx(LdSTVx { x })
        } else if low == 0x001E {
            Instruction::AddIVx(AddIVx { x })
        } else if low == 0x0029 {
            Instruction::LdFVx(LdFVx { x })
        } else if low == 0x0033 {
            Instruction::LdBVx(LdBVx { x })
        } else if low == 0x0055 {
            Instruction::LdIVx(LdIVx { x })
        } else if low == 0x0065 {
            Instruction::LdVxI(LdVxI { x })
        } else {
            Instruction::Invalid(InvalidInstruction { opcode: op })
        }
    } else {
        Instruction::Invalid(InvalidInstruction { opcode: op })
    }
}

} // verus!
