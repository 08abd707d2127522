use vstd::prelude::*;

use crate::cpu::spec_active_sp;
use crate::cpu::spec_ccr;
use crate::cpu::spec_dr_byte_merged;
use crate::cpu::spec_dr_word_merged;
use crate::cpu::spec_fetch_word;
use crate::cpu::spec_flag_mask;
use crate::cpu::spec_pop_long;
use crate::cpu::spec_push_long;
use crate::cpu::spec_set_ccr;
use crate::cpu::spec_supervisor;
use crate::cpu::spec_write_dr;
use crate::cpu::st_inv;
use crate::cpu::CpuState;
use crate::cpu::StatusRegister;
use crate::flags::spec_flags_add;
use crate::flags::spec_flags_logic;
use crate::flags::spec_flags_sub;
use crate::isa_util::spec_swap;
use crate::mmu::long_at;
use crate::mmu::mask24;
use crate::mmu::store_long;
use crate::mmu::store_word;
use crate::mmu::word_aligned;
use crate::mmu::word_at;
use crate::mmu::RAM_SIZE;
use crate::types::mask_to_size;
use crate::types::Fault;
use crate::types::Size;
use crate::util::spec_get_bits;
use crate::util::spec_is_negative;
use crate::util::spec_is_zero;

verus! {

/// A byte-wide write into a data register leaves its upper 24 bits unchanged.
pub proof fn lemma_byte_write_preserves_upper(s: CpuState, reg: u8, val: u32)
    requires
        st_inv(s),
        reg < 8,
    ensures
        spec_write_dr(s, reg, Size::Byte, val).dr[reg as int] & 0xFFFFFF00 == s.dr[reg as int]
            & 0xFFFFFF00,
        forall|i: int|
            0 <= i < 8 && i != reg ==> spec_write_dr(s, reg, Size::Byte, val).dr[i] == s.dr[i],
{
    let d = s.dr[reg as int];
    let v = val as u8;
    assert(((d & 0xFFFFFF00) | (v as u32)) & 0xFFFFFF00 == d & 0xFFFFFF00) by (bit_vector);
    assert(spec_write_dr(s, reg, Size::Byte, val).dr[reg as int] == spec_dr_byte_merged(d, v));
}

/// A word-wide write into a data register leaves its upper 16 bits unchanged.
pub proof fn lemma_word_write_preserves_upper(s: CpuState, reg: u8, val: u32)
    requires
        st_inv(s),
        reg < 8,
    ensures
        spec_write_dr(s, reg, Size::Word, val).dr[reg as int] & 0xFFFF0000 == s.dr[reg as int]
            & 0xFFFF0000,
        forall|i: int|
            0 <= i < 8 && i != reg ==> spec_write_dr(s, reg, Size::Word, val).dr[i] == s.dr[i],
{
    let d = s.dr[reg as int];
    let v = val as u16;
    assert(((d & 0xFFFF0000) | (v as u32)) & 0xFFFF0000 == d & 0xFFFF0000) by (bit_vector);
    assert(spec_write_dr(s, reg, Size::Word, val).dr[reg as int] == spec_dr_word_merged(d, v));
}

/// The register number 7 names SSP exactly when the supervisor bit is set.
pub proof fn lemma_active_sp_aliases_ssp(s: CpuState)
    ensures
        spec_supervisor(s.sr) ==> spec_active_sp(s) == s.ssp,
        !spec_supervisor(s.sr) ==> spec_active_sp(s) == s.usp,
{
}

/// An opcode fetch only succeeds at an even program counter.  A branch by an
/// odd displacement can leave PC odd; the very next fetch then reports the
/// misalignment instead of reading, so no opcode is ever taken from an odd
/// address.
pub proof fn lemma_fetch_needs_even_pc(s: CpuState)
    ensures
        spec_fetch_word(s).1 is Ok ==> word_aligned(s.pc),
        !word_aligned(s.pc) ==> spec_fetch_word(s).1 == Err::<u16, Fault>(Fault::Misaligned),
{
}

proof fn lemma_ccr_set_same(sr: u16, f: StatusRegister, v: bool)
    ensures
        spec_ccr(spec_set_ccr(sr, f, v), f) == v,
{
    let m = spec_flag_mask(f);
    assert((m == 1 || m == 2 || m == 4 || m == 8 || m == 16) ==> ((sr | m) & m != 0 && (sr & !m)
        & m == 0)) by (bit_vector);
}

proof fn lemma_ccr_set_other(sr: u16, f: StatusRegister, g: StatusRegister, v: bool)
    requires
        f != g,
    ensures
        spec_ccr(spec_set_ccr(sr, f, v), g) == spec_ccr(sr, g),
{
    let m1 = spec_flag_mask(f);
    let m2 = spec_flag_mask(g);
    assert((m1 == 1 || m1 == 2 || m1 == 4 || m1 == 8 || m1 == 16) && (m2 == 1 || m2 == 2 || m2
        == 4 || m2 == 8 || m2 == 16) && m1 != m2 ==> ((sr | m1) & m2 == sr & m2 && (sr & !m1) & m2
        == sr & m2)) by (bit_vector);
}

/// After the flag update of any addition, Z holds exactly when the result is
/// zero at the operation's width and N is its sign bit there.
pub proof fn lemma_flags_add_z_n(sr: u16, val1: u32, val2: u32, res: u32, size: Size)
    ensures
        spec_ccr(spec_flags_add(sr, val1, val2, res, size), StatusRegister::Z) == spec_is_zero(
            res,
            size,
        ),
        spec_ccr(spec_flags_add(sr, val1, val2, res, size), StatusRegister::N) == spec_is_negative(
            res,
            size,
        ),
{
    let c = crate::util::spec_is_carry(val1, val2, res, size);
    let v = crate::util::spec_is_overflow(val1, val2, res, size);
    let n = spec_is_negative(res, size);
    let z = spec_is_zero(res, size);
    let s1 = spec_set_ccr(sr, StatusRegister::X, c);
    let s2 = spec_set_ccr(s1, StatusRegister::C, c);
    let s3 = spec_set_ccr(s2, StatusRegister::N, n);
    let s4 = spec_set_ccr(s3, StatusRegister::Z, z);
    let s5 = spec_set_ccr(s4, StatusRegister::V, v);
    lemma_ccr_set_same(s3, StatusRegister::Z, z);
    lemma_ccr_set_other(s4, StatusRegister::V, StatusRegister::Z, v);
    lemma_ccr_set_same(s2, StatusRegister::N, n);
    lemma_ccr_set_other(s3, StatusRegister::Z, StatusRegister::N, z);
    lemma_ccr_set_other(s4, StatusRegister::V, StatusRegister::N, v);
}

/// The same for any subtraction.
pub proof fn lemma_flags_sub_z_n(sr: u16, val1: u32, val2: u32, res: u32, size: Size)
    ensures
        spec_ccr(spec_flags_sub(sr, val1, val2, res, size), StatusRegister::Z) == spec_is_zero(
            res,
            size,
        ),
        spec_ccr(spec_flags_sub(sr, val1, val2, res, size), StatusRegister::N) == spec_is_negative(
            res,
            size,
        ),
{
    let c = crate::flags::spec_sub_carry(val1, val2, res, size);
    let v = crate::flags::spec_sub_overflow(val1, val2, res, size);
    let n = spec_is_negative(res, size);
    let z = spec_is_zero(res, size);
    let s1 = spec_set_ccr(sr, StatusRegister::X, c);
    let s2 = spec_set_ccr(s1, StatusRegister::C, c);
    let s3 = spec_set_ccr(s2, StatusRegister::N, n);
    let s4 = spec_set_ccr(s3, StatusRegister::Z, z);
    lemma_ccr_set_same(s3, StatusRegister::Z, z);
    lemma_ccr_set_other(s4, StatusRegister::V, StatusRegister::Z, v);
    lemma_ccr_set_same(s2, StatusRegister::N, n);
    lemma_ccr_set_other(s3, StatusRegister::Z, StatusRegister::N, z);
    lemma_ccr_set_other(s4, StatusRegister::V, StatusRegister::N, v);
}

/// The same for moves and logical operations.
pub proof fn lemma_flags_logic_z_n(sr: u16, res: u32, size: Size)
    ensures
        spec_ccr(spec_flags_logic(sr, res, size), StatusRegister::Z) == spec_is_zero(res, size),
        spec_ccr(spec_flags_logic(sr, res, size), StatusRegister::N) == spec_is_negative(
            res,
            size,
        ),
{
    let n = spec_is_negative(res, size);
    let z = spec_is_zero(res, size);
    let s1 = spec_set_ccr(sr, StatusRegister::N, n);
    let s2 = spec_set_ccr(s1, StatusRegister::Z, z);
    let s3 = spec_set_ccr(s2, StatusRegister::V, false);
    lemma_ccr_set_same(s1, StatusRegister::Z, z);
    lemma_ccr_set_other(s2, StatusRegister::V, StatusRegister::Z, false);
    lemma_ccr_set_other(s3, StatusRegister::C, StatusRegister::Z, false);
    lemma_ccr_set_same(sr, StatusRegister::N, n);
    lemma_ccr_set_other(s1, StatusRegister::Z, StatusRegister::N, z);
    lemma_ccr_set_other(s2, StatusRegister::V, StatusRegister::N, false);
    lemma_ccr_set_other(s3, StatusRegister::C, StatusRegister::N, false);
}

/// A word written to an even address reads back unchanged.
pub proof fn lemma_word_round_trip(mem: Seq<u8>, addr: u32, v: u16)
    requires
        mem.len() == RAM_SIZE,
        word_aligned(addr),
    ensures
        word_at(store_word(mem, mask24(addr) as int, v), mask24(addr) as int) == v,
{
    crate::mmu::lemma_mask24_bound(addr);
    let a = mask24(addr) as int;
    let hi = ((v >> 8) & 0xFF) as u8;
    let lo = (v & 0xFF) as u8;
    assert((((hi as u16) << 8) + (lo as u16)) as u16 == v) by (bit_vector)
        requires
            hi == ((v >> 8) & 0xFF) as u8,
            lo == (v & 0xFF) as u8,
    ;
}

/// A long word written to an even address reads back unchanged.
pub proof fn lemma_long_round_trip(mem: Seq<u8>, addr: u32, v: u32)
    requires
        mem.len() == RAM_SIZE,
        word_aligned(addr),
        crate::mmu::long_in_range(addr),
    ensures
        long_at(store_long(mem, mask24(addr) as int, v), mask24(addr) as int) == v,
{
    crate::mmu::lemma_mask24_bound(addr);
    let b0 = ((v >> 24) & 0xFF) as u8;
    let b1 = ((v >> 16) & 0xFF) as u8;
    let b2 = ((v >> 8) & 0xFF) as u8;
    let b3 = (v & 0xFF) as u8;
    assert((((b0 as u32) << 24) + ((b1 as u32) << 16) + ((b2 as u32) << 8) + (b3 as u32)) as u32
        == v) by (bit_vector)
        requires
            b0 == ((v >> 24) & 0xFF) as u8,
            b1 == ((v >> 16) & 0xFF) as u8,
            b2 == ((v >> 8) & 0xFF) as u8,
            b3 == (v & 0xFF) as u8,
    ;
}

/// Complementing twice at a width restores a width-sized value.
pub proof fn lemma_not_not(m: u32, size: Size)
    requires
        m == mask_to_size(m, size),
    ensures
        mask_to_size(!mask_to_size(!m, size), size) == m,
{
    match size {
        Size::Byte => {
            assert(m == m & 0xFF ==> (!((!m) & 0xFF)) & 0xFF == m) by (bit_vector);
        },
        Size::Word => {
            assert(m == m & 0xFFFF ==> (!((!m) & 0xFFFF)) & 0xFFFF == m) by (bit_vector);
        },
        Size::Long => {
            assert((!(!m)) == m) by (bit_vector);
        },
    }
}

/// Negating twice at a width restores a width-sized value.
pub proof fn lemma_neg_neg(m: u32, size: Size)
    requires
        m == mask_to_size(m, size),
    ensures
        mask_to_size(
            0u32.wrapping_sub(mask_to_size(0u32.wrapping_sub(m), size)),
            size,
        ) == m,
{
    match size {
        Size::Byte => {
            assert(m == m & 0xFF ==> (0u32.wrapping_sub((0u32.wrapping_sub(m)) & 0xFF)) & 0xFF
                == m) by (bit_vector);
        },
        Size::Word => {
            assert(m == m & 0xFFFF ==> (0u32.wrapping_sub((0u32.wrapping_sub(m)) & 0xFFFF))
                & 0xFFFF == m) by (bit_vector);
        },
        Size::Long => {
            assert(0u32.wrapping_sub(0u32.wrapping_sub(m)) == m) by (bit_vector);
        },
    }
}

/// Swapping the halves of a data register twice restores the whole state.
pub proof fn lemma_swap_swap(s: CpuState, inst: u16)
    requires
        st_inv(s),
    ensures
        spec_swap(spec_swap(s, inst).0, inst).0 == s,
{
    let reg = spec_get_bits(inst, 0, 3) as u8;
    crate::util::lemma_get_bits_bound(inst, 0, 3);
    let val = s.dr[reg as int];
    let once = ((val & 0xFFFF) << 16) | (val >> 16);
    let twice = ((once & 0xFFFF) << 16) | (once >> 16);
    assert(twice == val) by (bit_vector)
        requires
            once == ((val & 0xFFFF) << 16) | (val >> 16),
            twice == ((once & 0xFFFF) << 16) | (once >> 16),
    ;
    let s1 = spec_swap(s, inst).0;
    let s2 = spec_swap(s1, inst).0;
    assert(s1.dr == s.dr.update(reg as int, once));
    assert(s2.dr =~= s.dr);
    assert(s2 =~= s);
}

/// Pushing the longs of `vals` in order and then popping as many returns
/// them newest first and restores the stack pointer; pushes succeed all the
/// way down and so do the pops.
pub open spec fn spec_push_seq(s: CpuState, vals: Seq<u32>) -> (CpuState, Result<(), Fault>)
    decreases vals.len(),
{
    if vals.len() == 0 {
        (s, Ok(()))
    } else {
        let (s1, r1) = spec_push_long(s, vals[0]);
        match r1 {
            Ok(_) => spec_push_seq(s1, vals.drop_first()),
            Err(f) => (s1, Err(f)),
        }
    }
}

pub open spec fn spec_pop_seq(s: CpuState, n: nat) -> (CpuState, Seq<u32>, Result<(), Fault>)
    decreases n,
{
    if n == 0 {
        (s, Seq::empty(), Ok(()))
    } else {
        let (s1, r1) = spec_pop_long(s);
        match r1 {
            Ok(v) => {
                let (s2, rest, r2) = spec_pop_seq(s1, (n - 1) as nat);
                (s2, seq![v] + rest, r2)
            },
            Err(f) => (s1, Seq::empty(), Err(f)),
        }
    }
}

pub proof fn lemma_push_pop_round_trip(s: CpuState, vals: Seq<u32>)
    requires
        st_inv(s),
        spec_active_sp(s) % 2 == 0,
        spec_active_sp(s) < RAM_SIZE,
        4 * vals.len() <= spec_active_sp(s),
    ensures
        spec_push_seq(s, vals).1 is Ok,
        ({
            let s_p = spec_push_seq(s, vals).0;
            let (s_f, popped, r) = spec_pop_seq(s_p, vals.len());
            r is Ok && popped == vals.reverse() && spec_active_sp(s_f) == spec_active_sp(s)
                && spec_active_sp(s_p) == spec_active_sp(s) - 4 * vals.len()
        }),
        st_inv(spec_push_seq(s, vals).0),
        forall|i: int|
            spec_active_sp(s) <= i < RAM_SIZE ==> spec_push_seq(s, vals).0.mem[i] == s.mem[i],
        spec_push_seq(s, vals).0.sr == s.sr,
    decreases vals.len(),
{
    let sp = spec_active_sp(s);
    if vals.len() == 0 {
        assert(spec_pop_seq(s, 0).1 =~= vals.reverse());
    } else {
        let v0 = vals[0];
        let new_sp: u32 = sp.wrapping_sub(4);
        assert(new_sp == sp - 4);
        assert(mask24(new_sp) == new_sp && word_aligned(new_sp)) by (bit_vector)
            requires
                new_sp < 0x1000000u32,
                new_sp % 2 == 0,
        ;
        let (s1, r1) = spec_push_long(s, v0);
        assert(r1 is Ok);
        assert(spec_active_sp(s1) == new_sp);
        assert(st_inv(s1));
        lemma_push_pop_round_trip(s1, vals.drop_first());
        let s_p = spec_push_seq(s1, vals.drop_first()).0;
        assert(spec_push_seq(s, vals).0 == s_p);
        // the bytes holding v0 sit at or above the inner stack top and are
        // untouched by the deeper pushes
        assert(forall|i: int| new_sp <= i < RAM_SIZE ==> s_p.mem[i] == s1.mem[i]);
        lemma_long_round_trip(s.mem, new_sp, v0);
        assert(long_at(s1.mem, new_sp as int) == v0);
        assert(long_at(s_p.mem, new_sp as int) == v0) by {
            assert(s_p.mem[new_sp as int] == s1.mem[new_sp as int]);
            assert(s_p.mem[new_sp + 1] == s1.mem[new_sp + 1]);
            assert(s_p.mem[new_sp + 2] == s1.mem[new_sp + 2]);
            assert(s_p.mem[new_sp + 3] == s1.mem[new_sp + 3]);
        }
        let n1 = (vals.len() - 1) as nat;
        let (s_f1, popped1, rp1) = spec_pop_seq(s_p, n1);
        assert(rp1 is Ok && popped1 == vals.drop_first().reverse());
        // after the inner pops the stack pointer is back at new_sp and one
        // more pop returns v0
        assert(spec_active_sp(s_f1) == new_sp);
        lemma_pop_seq_keeps_mem(s_p, n1);
        assert(long_at(s_f1.mem, new_sp as int) == v0);
        assert(spec_pop_long(s_f1).1 == Ok::<u32, Fault>(v0));
        assert(spec_active_sp(spec_pop_long(s_f1).0) == sp);
        lemma_pop_seq_snoc(s_p, n1);
        assert(spec_pop_seq(s_p, vals.len()).1 == popped1.push(v0));
        assert(vals.reverse() =~= vals.drop_first().reverse().push(v0));
    }
}

/// Popping never changes memory, only the stack pointer.
proof fn lemma_pop_seq_keeps_mem(s: CpuState, n: nat)
    ensures
        spec_pop_seq(s, n).0.mem == s.mem,
        spec_pop_seq(s, n).0.sr == s.sr,
    decreases n,
{
    if n > 0 {
        let (s1, r1) = spec_pop_long(s);
        match r1 {
            Ok(_) => {
                lemma_pop_seq_keeps_mem(s1, (n - 1) as nat);
            },
            Err(_) => {},
        }
    }
}

/// Popping n + 1 values is popping n and then one more.
proof fn lemma_pop_seq_snoc(s: CpuState, n: nat)
    requires
        spec_pop_seq(s, n).2 is Ok,
        spec_pop_long(spec_pop_seq(s, n).0).1 is Ok,
    ensures
        spec_pop_seq(s, n + 1).2 is Ok,
        spec_pop_seq(s, n + 1).0 == spec_pop_long(spec_pop_seq(s, n).0).0,
        spec_pop_seq(s, n + 1).1 == spec_pop_seq(s, n).1.push(
            spec_pop_long(spec_pop_seq(s, n).0).1.unwrap(),
        ),
    decreases n,
{
    let (s1, r1) = spec_pop_long(s);
    if n == 0 {
        assert(r1 is Ok);
        assert(spec_pop_seq(s1, 0).1 == Seq::<u32>::empty());
        assert(spec_pop_seq(s, 1).1 =~= spec_pop_seq(s, 0).1.push(r1.unwrap()));
    } else {
        assert(r1 is Ok);
        lemma_pop_seq_snoc(s1, (n - 1) as nat);
        assert(spec_pop_seq(s, n + 1).1 == seq![r1.unwrap()] + spec_pop_seq(s1, n).1);
        assert(spec_pop_seq(s, n).1 == seq![r1.unwrap()] + spec_pop_seq(s1, (n - 1) as nat).1);
        assert(spec_pop_seq(s, n + 1).1 =~= spec_pop_seq(s, n).1.push(
            spec_pop_long(spec_pop_seq(s, n).0).1.unwrap(),
        ));
    }
}

} // verus!
