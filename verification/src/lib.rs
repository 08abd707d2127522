mod args;
mod constants;
mod cpu;
mod ea;
mod flags;
mod isa;
mod isa_add;
mod isa_bit;
mod isa_branch;
mod isa_cmp;
mod isa_div;
mod isa_imm;
mod isa_io;
mod isa_mathq;
mod isa_move;
mod isa_movem;
mod isa_mul;
mod isa_rot;
mod isa_sub;
mod isa_util;
mod laws;
mod mmu;
mod types;
mod util;
mod vm;

pub use args::Args;
pub use args::LogLevel;
pub use constants::Vector;
pub use cpu::Cpu;
pub use cpu::CpuState;
pub use cpu::StatusRegister;
pub use cpu::STACK;
pub use flags::sub_set_carry;
pub use flags::sub_set_overflow;
pub use laws::lemma_active_sp_aliases_ssp;
pub use laws::lemma_byte_write_preserves_upper;
pub use laws::lemma_fetch_needs_even_pc;
pub use laws::lemma_flags_add_z_n;
pub use laws::lemma_flags_logic_z_n;
pub use laws::lemma_flags_sub_z_n;
pub use laws::lemma_long_round_trip;
pub use laws::lemma_neg_neg;
pub use laws::lemma_not_not;
pub use laws::lemma_push_pop_round_trip;
pub use laws::lemma_swap_swap;
pub use laws::lemma_word_round_trip;
pub use laws::lemma_word_write_preserves_upper;
pub use mmu::Mmu;
pub use mmu::RAM_SIZE;
pub use types::AddressingMode;
pub use types::ConditionCode;
pub use types::ExtensionMode;
pub use types::Fault;
pub use types::Size;
pub use types::Value;
pub use util::byte_to_packed_bcd;
pub use util::get_bits;
pub use util::get_reg;
pub use util::get_size;
pub use util::is_bit_set;
pub use util::is_carry;
pub use util::is_negative;
pub use util::is_overflow;
pub use util::is_zero;
pub use util::nibble_to_bcd;
pub use util::sign_extend_16_to_32;
pub use util::sign_extend_8_to_16;
pub use util::sign_extend_8_to_32;
pub use util::sign_transmute;
pub use util::SizeCoding;
pub use vm::VM;
