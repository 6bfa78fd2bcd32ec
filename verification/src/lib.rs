//! A verified interpreter for the CHIP-8 instruction set: a 35-instruction
//! 8-bit architecture with 4 KB of memory, sixteen registers, a 64x32
//! monochrome framebuffer, a sixteen-slot call stack, two countdown timers
//! and a sixteen-key keypad.  The host supplies the pacing, rendering,
//! input and audio; this crate owns the machine state and the exact
//! semantics of every instruction.

mod machine;
mod flow;
mod alu;
mod misc;
mod draw;
mod decode;
mod cycle;

pub use machine::Chip8;
pub use machine::Chip8Error;
pub use machine::same_mem;
pub use machine::same_regs;
pub use machine::same_i;
pub use machine::same_pc;
pub use machine::same_gfx;
pub use machine::same_delay;
pub use machine::same_sound;
pub use machine::same_stack;
pub use machine::same_sp;
pub use machine::same_keys;
pub use machine::unchanged_state;

pub use flow::Sys;
pub use flow::Ret;
pub use flow::Jmp;
pub use flow::Call;
pub use flow::SeVxByte;
pub use flow::SneVxByte;
pub use flow::SeVxVy;
pub use flow::SneVxVy;
pub use flow::SkpVx;
pub use flow::SknpVx;
pub use flow::InvalidInstruction;
pub use flow::only_pc_changes;
pub use flow::lemma_call_then_ret;

pub use alu::LdVxByte;
pub use alu::AddVxByte;
pub use alu::LdVxVy;
pub use alu::OrVxVy;
pub use alu::AndVxVy;
pub use alu::XorVxVy;
pub use alu::AddVxVy;
pub use alu::SubVxVy;
pub use alu::SubnVxVy;
pub use alu::ShrVxVy;
pub use alu::ShlVxVy;
pub use alu::only_regs_change;

pub use misc::LdIAddr;
pub use misc::JmpV0Addr;
pub use misc::RndVxByte;
pub use misc::LdVxDT;
pub use misc::LdVxK;
pub use misc::LdDTVx;
pub use misc::LdSTVx;
pub use misc::AddIVx;
pub use misc::LdFVx;
pub use misc::LdBVx;
pub use misc::LdIVx;
pub use misc::LdVxI;
pub use misc::only_index_changes;
pub use misc::only_memory_changes;
pub use misc::any_key_pressed;
pub use misc::is_lowest_pressed;

pub use draw::Cls;
pub use draw::DrwVxVyNibble;
pub use draw::only_gfx_changes;
pub use draw::only_gfx_and_regs_change;
pub use draw::sprite_bit;
pub use draw::wrap_coord;
pub use draw::cell_index;
pub use draw::draw_rec;
pub use draw::toggled;
pub use draw::collided;
pub use draw::lemma_cell_index_bounds;
pub use draw::lemma_cell_index_injective;
pub use draw::lemma_draw_rec_closed;
pub use draw::lemma_draw_rec_cells;
pub use draw::lemma_draw_twice;

pub use decode::Instruction;
pub use decode::decode;
pub use decode::spec_decode;
pub use decode::op_x;
pub use decode::op_y;
pub use decode::op_n;
pub use decode::op_kk;
pub use decode::op_nnn;

pub use cycle::spec_opcode;
pub use cycle::fetch_ok;
pub use cycle::advanced;
pub use cycle::lemma_self_jump_cycle;
