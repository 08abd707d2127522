use vstd::prelude::*;

use crate::cpu::spec_fetch_long;
use crate::cpu::spec_fetch_word;
use crate::cpu::spec_read_ar;
use crate::cpu::spec_write_ar;
use crate::cpu::spec_write_dr;
use crate::cpu::Cpu;
use crate::cpu::CpuState;
use crate::mmu::lemma_mask24_bound;
use crate::mmu::long_at;
use crate::mmu::long_in_range;
use crate::mmu::mask24;
use crate::mmu::store_long;
use crate::mmu::store_word;
use crate::mmu::word_aligned;
use crate::mmu::word_at;
use crate::mmu::RAM_SIZE;
use crate::types::ea_wf;
use crate::types::value_to_u32;
use crate::types::AddressingMode;
use crate::types::ExtensionMode;
use crate::types::Fault;
use crate::types::Size;
use crate::types::Value;
use crate::util::get_bits;
use crate::util::get_reg;
use crate::util::sign_extend_16_to_32;
use crate::util::sign_extend_8_to_32;
use crate::util::spec_get_bits;
use crate::util::spec_sign_extend_16_to_32;
use crate::util::spec_sign_extend_8_to_32;

verus! {

/// A word access to memory: legal only at an even address.
pub open spec fn spec_mem_read_word(s: CpuState, addr: u32) -> Result<u16, Fault> {
    if word_aligned(addr) {
        Ok(word_at(s.mem, mask24(addr) as int))
    } else {
        Err(Fault::Misaligned)
    }
}

pub open spec fn spec_mem_read_long(s: CpuState, addr: u32) -> Result<u32, Fault> {
    if word_aligned(addr) && long_in_range(addr) {
        Ok(long_at(s.mem, mask24(addr) as int))
    } else {
        Err(Fault::Misaligned)
    }
}

pub open spec fn spec_mem_write_word(s: CpuState, addr: u32, val: u16) -> (CpuState, Result<
    (),
    Fault,
>) {
    if word_aligned(addr) {
        (CpuState { mem: store_word(s.mem, mask24(addr) as int, val), ..s }, Ok(()))
    } else {
        (s, Err(Fault::Misaligned))
    }
}

pub open spec fn spec_mem_write_long(s: CpuState, addr: u32, val: u32) -> (CpuState, Result<
    (),
    Fault,
>) {
    if word_aligned(addr) && long_in_range(addr) {
        (CpuState { mem: store_long(s.mem, mask24(addr) as int, val), ..s }, Ok(()))
    } else {
        (s, Err(Fault::Misaligned))
    }
}

/// The step the post-increment and pre-decrement modes take at byte width:
/// one, except on the stack pointer, which stays word aligned by moving two.
pub open spec fn spec_byte_step(reg: u8) -> u32 {
    if reg == 7 {
        2
    } else {
        1
    }
}

/// Offset named by a brief extension word: an 8-bit signed displacement plus
/// an index register, taken whole or as its sign-extended low word, scaled
/// by the operand size.  The MC68000 proper always scales by one; the
/// operand-size scale is a known divergence this core keeps.
pub open spec fn spec_index_offset(s: CpuState, word: u16, size: Size) -> u32 {
    let displacement = spec_sign_extend_8_to_32((word & 0xFF) as u8);
    let reg = spec_get_bits(word, 12, 3) as u8;
    let raw = if word & 0x8000 == 0 {
        s.dr[reg as int]
    } else {
        spec_read_ar(s, reg)
    };
    let index = if spec_get_bits(word, 11, 1) == 0 {
        spec_sign_extend_16_to_32(raw as u16)
    } else {
        raw
    };
    displacement.wrapping_add(index.wrapping_mul(size.spec_bytes()))
}

/// Address resolution for the control modes (LEA, PEA, JMP, JSR, MOVEM): the
/// operand's address, masked to 24 bits, with any displacement, index or
/// absolute word consumed from the instruction stream.
pub open spec fn spec_get_ea(s: CpuState, ea: AddressingMode) -> (CpuState, Result<u32, Fault>) {
    match ea {
        AddressingMode::AddressRegisterIndirect(reg) => (
            s,
            Ok(mask24(spec_read_ar(s, reg))),
        ),
        AddressingMode::AddressRegisterIndirectDisplacement(reg) => {
            let (s1, r1) = spec_fetch_word(s);
            match r1 {
                Ok(w) => (
                    s1,
                    Ok(
                        mask24(
                            spec_read_ar(s1, reg).wrapping_add(spec_sign_extend_16_to_32(w)),
                        ),
                    ),
                ),
                Err(f) => (s1, Err(f)),
            }
        },
        AddressingMode::AddressRegisterIndirectIndex(reg) => {
            let (s1, r1) = spec_fetch_word(s);
            match r1 {
                Ok(w) => (
                    s1,
                    Ok(
                        mask24(
                            spec_read_ar(s1, reg).wrapping_add(
                                spec_index_offset(s1, w, Size::Byte),
                            ),
                        ),
                    ),
                ),
                Err(f) => (s1, Err(f)),
            }
        },
        AddressingMode::Extension(e) => match e {
            ExtensionMode::Word => {
                let (s1, r1) = spec_fetch_word(s);
                match r1 {
                    Ok(w) => (s1, Ok(mask24(spec_sign_extend_16_to_32(w)))),
                    Err(f) => (s1, Err(f)),
                }
            },
            ExtensionMode::Long => {
                let (s1, r1) = spec_fetch_long(s);
                match r1 {
                    Ok(l) => (s1, Ok(mask24(l))),
                    Err(f) => (s1, Err(f)),
                }
            },
            ExtensionMode::PcRelativeDisplacement => {
                let (s1, r1) = spec_fetch_word(s);
                match r1 {
                    Ok(w) => (
                        s1,
                        Ok(mask24(s.pc.wrapping_add(spec_sign_extend_16_to_32(w)))),
                    ),
                    Err(f) => (s1, Err(f)),
                }
            },
            ExtensionMode::PcRelativeIndex => {
                let (s1, r1) = spec_fetch_word(s);
                match r1 {
                    Ok(w) => (
                        s1,
                        Ok(mask24(spec_index_offset(s1, w, Size::Byte).wrapping_add(s.pc))),
                    ),
                    Err(f) => (s1, Err(f)),
                }
            },
            ExtensionMode::Immediate => (s, Err(Fault::IllegalMode)),
        },
        _ => (s, Err(Fault::IllegalMode)),
    }
}

/// Byte-wide operand read for each addressing mode.
pub open spec fn spec_read_ea_byte(s: CpuState, ea: AddressingMode) -> (CpuState, Result<
    u8,
    Fault,
>) {
    match ea {
        AddressingMode::DataRegisterDirect(reg) => (s, Ok(s.dr[reg as int] as u8)),
        AddressingMode::AddressRegisterDirect(reg) => (s, Ok(spec_read_ar(s, reg) as u8)),
        AddressingMode::AddressRegisterIndirect(reg) => (
            s,
            Ok(s.mem[mask24(spec_read_ar(s, reg)) as int]),
        ),
        AddressingMode::AddressRegisterIndirectPostIncrement(reg) => {
            let addr = spec_read_ar(s, reg);
            let s1 = spec_write_ar(s, reg, addr.wrapping_add(spec_byte_step(reg)));
            (s1, Ok(s1.mem[mask24(addr) as int]))
        },
        AddressingMode::AddressRegisterIndirectPreDecrement(reg) => {
            let addr = spec_read_ar(s, reg).wrapping_sub(spec_byte_step(reg));
            let s1 = spec_write_ar(s, reg, addr);
            (s1, Ok(s1.mem[mask24(addr) as int]))
        },
        AddressingMode::AddressRegisterIndirectDisplacement(reg) => {
            let (s1, r1) = spec_fetch_word(s);
            match r1 {
                Ok(w) => {
                    let target = spec_read_ar(s1, reg).wrapping_add(
                        spec_sign_extend_16_to_32(w),
                    );
                    (s1, Ok(s1.mem[mask24(target) as int]))
                },
                Err(f) => (s1, Err(f)),
            }
        },
        AddressingMode::AddressRegisterIndirectIndex(reg) => {
            let (s1, r1) = spec_fetch_word(s);
            match r1 {
                Ok(w) => {
                    let target = spec_read_ar(s1, reg).wrapping_add(
                        spec_index_offset(s1, w, Size::Byte),
                    );
                    (s1, Ok(s1.mem[mask24(target) as int]))
                },
                Err(f) => (s1, Err(f)),
            }
        },
        AddressingMode::Extension(e) => match e {
            ExtensionMode::Word => {
                let (s1, r1) = spec_fetch_word(s);
                match r1 {
                    Ok(w) => (
                        s1,
                        Ok(s1.mem[mask24(spec_sign_extend_16_to_32(w)) as int]),
                    ),
                    Err(f) => (s1, Err(f)),
                }
            },
            ExtensionMode::Long => {
                let (s1, r1) = spec_fetch_long(s);
                match r1 {
                    Ok(l) => (s1, Ok(s1.mem[mask24(l) as int])),
                    Err(f) => (s1, Err(f)),
                }
            },
            ExtensionMode::PcRelativeDisplacement => {
                let (s1, r1) = spec_fetch_word(s);
                match r1 {
                    Ok(w) => {
                        let target = s.pc.wrapping_add(spec_sign_extend_16_to_32(w));
                        (s1, Ok(s1.mem[mask24(target) as int]))
                    },
                    Err(f) => (s1, Err(f)),
                }
            },
            ExtensionMode::PcRelativeIndex => {
                let (s1, r1) = spec_fetch_word(s);
                match r1 {
                    Ok(w) => {
                        let target = s.pc.wrapping_add(spec_index_offset(s1, w, Size::Byte));
                        (s1, Ok(s1.mem[mask24(target) as int]))
                    },
                    Err(f) => (s1, Err(f)),
                }
            },
            ExtensionMode::Immediate => {
                let (s1, r1) = spec_fetch_word(s);
                match r1 {
                    Ok(w) => (s1, Ok(w as u8)),
                    Err(f) => (s1, Err(f)),
                }
            },
        },
    }
}

/// Word-wide operand read for each addressing mode.
pub open spec fn spec_read_ea_word(s: CpuState, ea: AddressingMode) -> (CpuState, Result<
    u16,
    Fault,
>) {
    match ea {
        AddressingMode::DataRegisterDirect(reg) => (s, Ok(s.dr[reg as int] as u16)),
        AddressingMode::AddressRegisterDirect(reg) => (s, Ok(spec_read_ar(s, reg) as u16)),
        AddressingMode::AddressRegisterIndirect(reg) => (
            s,
            spec_mem_read_word(s, spec_read_ar(s, reg)),
        ),
        AddressingMode::AddressRegisterIndirectPostIncrement(reg) => {
            let addr = spec_read_ar(s, reg);
            let s1 = spec_write_ar(s, reg, addr.wrapping_add(2));
            (s1, spec_mem_read_word(s1, addr))
        },
        AddressingMode::AddressRegisterIndirectPreDecrement(reg) => {
            let addr = spec_read_ar(s, reg).wrapping_sub(2);
            let s1 = spec_write_ar(s, reg, addr);
            (s1, spec_mem_read_word(s1, addr))
        },
        AddressingMode::AddressRegisterIndirectDisplacement(reg) => {
            let (s1, r1) = spec_fetch_word(s);
            match r1 {
                Ok(w) => {
                    let target = spec_read_ar(s1, reg).wrapping_add(
                        spec_sign_extend_16_to_32(w),
                    );
                    (s1, spec_mem_read_word(s1, target))
                },
                Err(f) => (s1, Err(f)),
            }
        },
        AddressingMode::AddressRegisterIndirectIndex(reg) => {
            let (s1, r1) = spec_fetch_word(s);
            match r1 {
                Ok(w) => {
                    let target = spec_read_ar(s1, reg).wrapping_add(
                        spec_index_offset(s1, w, Size::Word),
                    );
                    (s1, spec_mem_read_word(s1, target))
                },
                Err(f) => (s1, Err(f)),
            }
        },
        AddressingMode::Extension(e) => match e {
            ExtensionMode::Word => {
                let (s1, r1) = spec_fetch_word(s);
                match r1 {
                    Ok(w) => (s1, spec_mem_read_word(s1, spec_sign_extend_16_to_32(w))),
                    Err(f) => (s1, Err(f)),
                }
            },
            ExtensionMode::Long => {
                let (s1, r1) = spec_fetch_long(s);
                match r1 {
                    Ok(l) => (s1, spec_mem_read_word(s1, l)),
                    Err(f) => (s1, Err(f)),
                }
            },
            ExtensionMode::PcRelativeDisplacement => {
                let (s1, r1) = spec_fetch_word(s);
                match r1 {
                    Ok(w) => {
                        let target = s.pc.wrapping_add(spec_sign_extend_16_to_32(w));
                        (s1, spec_mem_read_word(s1, target))
                    },
                    Err(f) => (s1, Err(f)),
                }
            },
            ExtensionMode::PcRelativeIndex => {
                let (s1, r1) = spec_fetch_word(s);
                match r1 {
                    Ok(w) => {
                        let target = s.pc.wrapping_add(spec_index_offset(s1, w, Size::Word));
                        (s1, spec_mem_read_word(s1, target))
                    },
                    Err(f) => (s1, Err(f)),
                }
            },
            ExtensionMode::Immediate => {
                let (s1, r1) = spec_fetch_word(s);
                match r1 {
                    Ok(w) => (s1, Ok(w)),
                    Err(f) => (s1, Err(f)),
                }
            },
        },
    }
}

/// Long-wide operand read for each addressing mode.
pub open spec fn spec_read_ea_long(s: CpuState, ea: AddressingMode) -> (CpuState, Result<
    u32,
    Fault,
>) {
    match ea {
        AddressingMode::DataRegisterDirect(reg) => (s, Ok(s.dr[reg as int])),
        AddressingMode::AddressRegisterDirect(reg) => (s, Ok(spec_read_ar(s, reg))),
        AddressingMode::AddressRegisterIndirect(reg) => (
            s,
            spec_mem_read_long(s, spec_read_ar(s, reg)),
        ),
        AddressingMode::AddressRegisterIndirectPostIncrement(reg) => {
            let addr = spec_read_ar(s, reg);
            let s1 = spec_write_ar(s, reg, addr.wrapping_add(4));
            (s1, spec_mem_read_long(s1, addr))
        },
        AddressingMode::AddressRegisterIndirectPreDecrement(reg) => {
            let addr = spec_read_ar(s, reg).wrapping_sub(4);
            let s1 = spec_write_ar(s, reg, addr);
            (s1, spec_mem_read_long(s1, addr))
        },
        AddressingMode::AddressRegisterIndirectDisplacement(reg) => {
            let (s1, r1) = spec_fetch_word(s);
            match r1 {
                Ok(w) => {
                    let target = spec_read_ar(s1, reg).wrapping_add(
                        spec_sign_extend_16_to_32(w),
                    );
                    (s1, spec_mem_read_long(s1, target))
                },
                Err(f) => (s1, Err(f)),
            }
        },
        AddressingMode::AddressRegisterIndirectIndex(reg) => {
            let (s1, r1) = spec_fetch_word(s);
            match r1 {
                Ok(w) => {
                    let target = spec_read_ar(s1, reg).wrapping_add(
                        spec_index_offset(s1, w, Size::Long),
                    );
                    (s1, spec_mem_read_long(s1, target))
                },
                Err(f) => (s1, Err(f)),
            }
        },
        AddressingMode::Extension(e) => match e {
            ExtensionMode::Word => {
                let (s1, r1) = spec_fetch_word(s);
                match r1 {
                    Ok(w) => (s1, spec_mem_read_long(s1, spec_sign_extend_16_to_32(w))),
                    Err(f) => (s1, Err(f)),
                }
            },
            ExtensionMode::Long => {
                let (s1, r1) = spec_fetch_long(s);
                match r1 {
                    Ok(l) => (s1, spec_mem_read_long(s1, l)),
                    Err(f) => (s1, Err(f)),
                }
            },
            ExtensionMode::PcRelativeDisplacement => {
                let (s1, r1) = spec_fetch_word(s);
                match r1 {
                    Ok(w) => {
                        let target = s.pc.wrapping_add(spec_sign_extend_16_to_32(w));
                        (s1, spec_mem_read_long(s1, target))
                    },
                    Err(f) => (s1, Err(f)),
                }
            },
            ExtensionMode::PcRelativeIndex => {
                let (s1, r1) = spec_fetch_word(s);
                match r1 {
                    Ok(w) => {
                        let target = s.pc.wrapping_add(spec_index_offset(s1, w, Size::Long));
                        (s1, spec_mem_read_long(s1, target))
                    },
                    Err(f) => (s1, Err(f)),
                }
            },
            ExtensionMode::Immediate => {
                let (s1, r1) = spec_fetch_long(s);
                match r1 {
                    Ok(l) => (s1, Ok(l)),
                    Err(f) => (s1, Err(f)),
                }
            },
        },
    }
}

/// Byte-wide operand write for each mode that may be a destination.
pub open spec fn spec_write_ea_byte(s: CpuState, ea: AddressingMode, val: u8) -> (CpuState, Result<
    (),
    Fault,
>) {
    match ea {
        AddressingMode::DataRegisterDirect(reg) => (
            spec_write_dr(s, reg, Size::Byte, val as u32),
            Ok(()),
        ),
        AddressingMode::AddressRegisterIndirect(reg) => (
            CpuState { mem: s.mem.update(mask24(spec_read_ar(s, reg)) as int, val), ..s },
            Ok(()),
        ),
        AddressingMode::AddressRegisterIndirectPostIncrement(reg) => {
            let addr = spec_read_ar(s, reg);
            let s1 = CpuState { mem: s.mem.update(mask24(addr) as int, val), ..s };
            (spec_write_ar(s1, reg, addr.wrapping_add(spec_byte_step(reg))), Ok(()))
        },
        AddressingMode::AddressRegisterIndirectPreDecrement(reg) => {
            let addr = spec_read_ar(s, reg).wrapping_sub(spec_byte_step(reg));
            let s1 = spec_write_ar(s, reg, addr);
            (CpuState { mem: s1.mem.update(mask24(addr) as int, val), ..s1 }, Ok(()))
        },
        AddressingMode::AddressRegisterIndirectDisplacement(reg) => {
            let (s1, r1) = spec_fetch_word(s);
            match r1 {
                Ok(w) => {
                    let target = spec_read_ar(s1, reg).wrapping_add(
                        spec_sign_extend_16_to_32(w),
                    );
                    (CpuState { mem: s1.mem.update(mask24(target) as int, val), ..s1 }, Ok(()))
                },
                Err(f) => (s1, Err(f)),
            }
        },
        AddressingMode::AddressRegisterIndirectIndex(reg) => {
            let (s1, r1) = spec_fetch_word(s);
            match r1 {
                Ok(w) => {
                    let target = spec_read_ar(s1, reg).wrapping_add(
                        spec_index_offset(s1, w, Size::Byte),
                    );
                    (CpuState { mem: s1.mem.update(mask24(target) as int, val), ..s1 }, Ok(()))
                },
                Err(f) => (s1, Err(f)),
            }
        },
        AddressingMode::Extension(e) => match e {
            ExtensionMode::Word => {
                let (s1, r1) = spec_fetch_word(s);
                match r1 {
                    Ok(w) => (
                        CpuState {
                            mem: s1.mem.update(
                                mask24(spec_sign_extend_16_to_32(w)) as int,
                                val,
                            ),
                            ..s1
                        },
                        Ok(()),
                    ),
                    Err(f) => (s1, Err(f)),
                }
            },
            ExtensionMode::Long => {
                let (s1, r1) = spec_fetch_long(s);
                match r1 {
                    Ok(l) => (
                        CpuState { mem: s1.mem.update(mask24(l) as int, val), ..s1 },
                        Ok(()),
                    ),
                    Err(f) => (s1, Err(f)),
                }
            },
            _ => (s, Err(Fault::IllegalMode)),
        },
        _ => (s, Err(Fault::IllegalMode)),
    }
}

/// Word-wide operand write.  A word written to an address register is
/// sign-extended and replaces the whole register.
pub open spec fn spec_write_ea_word(s: CpuState, ea: AddressingMode, val: u16) -> (CpuState, Result<
    (),
    Fault,
>) {
    match ea {
        AddressingMode::DataRegisterDirect(reg) => (
            spec_write_dr(s, reg, Size::Word, val as u32),
            Ok(()),
        ),
        AddressingMode::AddressRegisterDirect(reg) => (
            spec_write_ar(s, reg, spec_sign_extend_16_to_32(val)),
            Ok(()),
        ),
        AddressingMode::AddressRegisterIndirect(reg) => spec_mem_write_word(
            s,
            spec_read_ar(s, reg),
            val,
        ),
        AddressingMode::AddressRegisterIndirectPostIncrement(reg) => {
            let addr = spec_read_ar(s, reg);
            let (s1, r1) = spec_mem_write_word(s, addr, val);
            match r1 {
                Ok(_) => (spec_write_ar(s1, reg, addr.wrapping_add(2)), Ok(())),
                Err(f) => (s1, Err(f)),
            }
        },
        AddressingMode::AddressRegisterIndirectPreDecrement(reg) => {
            let addr = spec_read_ar(s, reg).wrapping_sub(2);
            let s1 = spec_write_ar(s, reg, addr);
            spec_mem_write_word(s1, addr, val)
        },
        AddressingMode::AddressRegisterIndirectDisplacement(reg) => {
            let (s1, r1) = spec_fetch_word(s);
            match r1 {
                Ok(w) => {
                    let target = spec_read_ar(s1, reg).wrapping_add(
                        spec_sign_extend_16_to_32(w),
                    );
                    spec_mem_write_word(s1, target, val)
                },
                Err(f) => (s1, Err(f)),
            }
        },
        AddressingMode::AddressRegisterIndirectIndex(reg) => {
            let (s1, r1) = spec_fetch_word(s);
            match r1 {
                Ok(w) => {
                    let target = spec_read_ar(s1, reg).wrapping_add(
                        spec_index_offset(s1, w, Size::Word),
                    );
                    spec_mem_write_word(s1, target, val)
                },
                Err(f) => (s1, Err(f)),
            }
        },
        AddressingMode::Extension(e) => match e {
            ExtensionMode::Word => {
                let (s1, r1) = spec_fetch_word(s);
                match r1 {
                    Ok(w) => spec_mem_write_word(s1, spec_sign_extend_16_to_32(w), val),
                    Err(f) => (s1, Err(f)),
                }
            },
            ExtensionMode::Long => {
                let (s1, r1) = spec_fetch_long(s);
                match r1 {
                    Ok(l) => spec_mem_write_word(s1, l, val),
                    Err(f) => (s1, Err(f)),
                }
            },
            _ => (s, Err(Fault::IllegalMode)),
        },
    }
}

/// Long-wide operand write.
pub open spec fn spec_write_ea_long(s: CpuState, ea: AddressingMode, val: u32) -> (CpuState, Result<
    (),
    Fault,
>) {
    match ea {
        AddressingMode::DataRegisterDirect(reg) => (
            spec_write_dr(s, reg, Size::Long, val),
            Ok(()),
        ),
        AddressingMode::AddressRegisterDirect(reg) => (spec_write_ar(s, reg, val), Ok(())),
        AddressingMode::AddressRegisterIndirect(reg) => spec_mem_write_long(
            s,
            spec_read_ar(s, reg),
            val,
        ),
        AddressingMode::AddressRegisterIndirectPostIncrement(reg) => {
            let addr = spec_read_ar(s, reg);
            let (s1, r1) = spec_mem_write_long(s, addr, val);
            match r1 {
                Ok(_) => (spec_write_ar(s1, reg, addr.wrapping_add(4)), Ok(())),
                Err(f) => (s1, Err(f)),
            }
        },
        AddressingMode::AddressRegisterIndirectPreDecrement(reg) => {
            let addr = spec_read_ar(s, reg).wrapping_sub(4);
            let s1 = spec_write_ar(s, reg, addr);
            spec_mem_write_long(s1, addr, val)
        },
        AddressingMode::AddressRegisterIndirectDisplacement(reg) => {
            let (s1, r1) = spec_fetch_word(s);
            match r1 {
                Ok(w) => {
                    let target = spec_read_ar(s1, reg).wrapping_add(
                        spec_sign_extend_16_to_32(w),
                    );
                    spec_mem_write_long(s1, target, val)
                },
                Err(f) => (s1, Err(f)),
            }
        },
        AddressingMode::AddressRegisterIndirectIndex(reg) => {
            let (s1, r1) = spec_fetch_word(s);
            match r1 {
                Ok(w) => {
                    let target = spec_read_ar(s1, reg).wrapping_add(
                        spec_index_offset(s1, w, Size::Long),
                    );
                    spec_mem_write_long(s1, target, val)
                },
                Err(f) => (s1, Err(f)),
            }
        },
        AddressingMode::Extension(e) => match e {
            ExtensionMode::Word => {
                let (s1, r1) = spec_fetch_word(s);
                match r1 {
                    Ok(w) => spec_mem_write_long(s1, spec_sign_extend_16_to_32(w), val),
                    Err(f) => (s1, Err(f)),
                }
            },
            ExtensionMode::Long => {
                let (s1, r1) = spec_fetch_long(s);
                match r1 {
                    Ok(l) => spec_mem_write_long(s1, l, val),
                    Err(f) => (s1, Err(f)),
                }
            },
            _ => (s, Err(Fault::IllegalMode)),
        },
    }
}

/// Size-dispatched operand read, the value tagged with its width.
pub open spec fn spec_read_ea(s: CpuState, ea: AddressingMode, size: Size) -> (CpuState, Result<
    Value,
    Fault,
>) {
    match size {
        Size::Byte => {
            let (s1, r1) = spec_read_ea_byte(s, ea);
            match r1 {
                Ok(b) => (s1, Ok(Value::Byte(b))),
                Err(f) => (s1, Err(f)),
            }
        },
        Size::Word => {
            let (s1, r1) = spec_read_ea_word(s, ea);
            match r1 {
                Ok(w) => (s1, Ok(Value::Word(w))),
                Err(f) => (s1, Err(f)),
            }
        },
        Size::Long => {
            let (s1, r1) = spec_read_ea_long(s, ea);
            match r1 {
                Ok(l) => (s1, Ok(Value::Long(l))),
                Err(f) => (s1, Err(f)),
            }
        },
    }
}

/// Size-dispatched operand write; the value is truncated to the width.
pub open spec fn spec_write_ea(s: CpuState, ea: AddressingMode, size: Size, val: Value) -> (
    CpuState,
    Result<(), Fault>,
) {
    match size {
        Size::Byte => spec_write_ea_byte(s, ea, value_to_u32(val) as u8),
        Size::Word => spec_write_ea_word(s, ea, value_to_u32(val) as u16),
        Size::Long => spec_write_ea_long(s, ea, value_to_u32(val)),
    }
}

impl Cpu {
    pub(crate) fn mem_read_word(&self, addr: u32) -> (r: Result<u16, Fault>)
        requires
            self.wf(),
        ensures
            r == spec_mem_read_word(self@, addr),
    {
        if (addr & 0xFFFFFF) % 2 != 0 {
            return Err(Fault::Misaligned);
        }
        Ok(self.mmu.read_word(addr))
    }

    pub(crate) fn mem_read_long(&self, addr: u32) -> (r: Result<u32, Fault>)
        requires
            self.wf(),
        ensures
            r == spec_mem_read_long(self@, addr),
    {
        if (addr & 0xFFFFFF) % 2 != 0 {
            return Err(Fault::Misaligned);
        }
        proof {
            lemma_mask24_bound(addr);
        }
        if (addr & 0xFFFFFF) + 4 > RAM_SIZE as u32 {
            return Err(Fault::Misaligned);
        }
        Ok(self.mmu.read_long(addr))
    }

    pub(crate) fn mem_write_word(&mut self, addr: u32, val: u16) -> (r: Result<(), Fault>)
        requires
            old(self).wf(),
        ensures
            final(self).wf(),
            (final(self)@, r) == spec_mem_write_word(old(self)@, addr, val),
    {
        if (addr & 0xFFFFFF) % 2 != 0 {
            return Err(Fault::Misaligned);
        }
        self.mmu.write_word(addr, val);
        Ok(())
    }

    pub(crate) fn mem_write_long(&mut self, addr: u32, val: u32) -> (r: Result<(), Fault>)
        requires
            old(self).wf(),
        ensures
            final(self).wf(),
            (final(self)@, r) == spec_mem_write_long(old(self)@, addr, val),
    {
        if (addr & 0xFFFFFF) % 2 != 0 {
            return Err(Fault::Misaligned);
        }
        proof {
            lemma_mask24_bound(addr);
        }
        if (addr & 0xFFFFFF) + 4 > RAM_SIZE as u32 {
            return Err(Fault::Misaligned);
        }
        self.mmu.write_long(addr, val);
        Ok(())
    }

    /// The offset named by a brief extension word.
    pub(crate) fn get_index_offset(&self, word: u16, size: Size) -> (r: u32)
        requires
            self.wf(),
        ensures
            r == spec_index_offset(self@, word, size),
    {
        let displacement = sign_extend_8_to_32((word & 0xFF) as u8);
        let reg = get_reg(word, 12);
        let raw = if word & 0x8000 == 0 {
            self.read_dr(reg)
        } else {
            self.read_ar(reg)
        };
        let index = if get_bits(word, 11, 1) == 0 {
            sign_extend_16_to_32(raw as u16)
        } else {
            raw
        };
        displacement.wrapping_add(index.wrapping_mul(size.bytes()))
    }

    /// Resolve a control-mode operand to its 24-bit address.
    pub fn get_ea(&mut self, ea: AddressingMode) -> (r: Result<u32, Fault>)
        requires
            old(self).wf(),
            ea_wf(ea),
        ensures
            final(self).wf(),
            (final(self)@, r) == spec_get_ea(old(self)@, ea),
    {
        match ea {
            AddressingMode::AddressRegisterIndirect(reg) => Ok(self.read_ar(reg) & 0xFFFFFF),
            AddressingMode::AddressRegisterIndirectDisplacement(reg) => {
                let w = self.fetch_word()?;
                Ok(self.read_ar(reg).wrapping_add(sign_extend_16_to_32(w)) & 0xFFFFFF)
            },
            AddressingMode::AddressRegisterIndirectIndex(reg) => {
                let w = self.fetch_word()?;
                let offset = self.get_index_offset(w, Size::Byte);
                Ok(self.read_ar(reg).wrapping_add(offset) & 0xFFFFFF)
            },
            AddressingMode::Extension(e) => match e {
                ExtensionMode::Word => {
                    let w = self.fetch_word()?;
                    Ok(sign_extend_16_to_32(w) & 0xFFFFFF)
                },
                ExtensionMode::Long => {
                    let l = self.fetch_long()?;
                    Ok(l & 0xFFFFFF)
                },
                ExtensionMode::PcRelativeDisplacement => {
                    let pc = self.read_pc();
                    let w = self.fetch_word()?;
                    Ok(pc.wrapping_add(sign_extend_16_to_32(w)) & 0xFFFFFF)
                },
                ExtensionMode::PcRelativeIndex => {
                    let pc = self.read_pc();
                    let w = self.fetch_word()?;
                    let offset = self.get_index_offset(w, Size::Byte);
                    Ok(offset.wrapping_add(pc) & 0xFFFFFF)
                },
                ExtensionMode::Immediate => Err(Fault::IllegalMode),
            },
            _ => Err(Fault::IllegalMode),
        }
    }

    /// Read an operand of the given size.
    pub fn read_ea(&mut self, ea: AddressingMode, size: Size) -> (r: Result<Value, Fault>)
        requires
            old(self).wf(),
            ea_wf(ea),
        ensures
            final(self).wf(),
            (final(self)@, r) == spec_read_ea(old(self)@, ea, size),
    {
        match size {
            Size::Byte => {
                let b = self.read_ea_byte(ea)?;
                Ok(Value::Byte(b))
            },
            Size::Word => {
                let w = self.read_ea_word(ea)?;
                Ok(Value::Word(w))
            },
            Size::Long => {
                let l = self.read_ea_long(ea)?;
                Ok(Value::Long(l))
            },
        }
    }

    /// Write an operand of the given size.
    pub fn write_ea(&mut self, ea: AddressingMode, size: Size, val: Value) -> (r: Result<
        (),
        Fault,
    >)
        requires
            old(self).wf(),
            ea_wf(ea),
        ensures
            final(self).wf(),
            (final(self)@, r) == spec_write_ea(old(self)@, ea, size, val),
    {
        match size {
            Size::Byte => self.write_ea_byte(ea, val.to_u32() as u8),
            Size::Word => self.write_ea_word(ea, val.to_u32() as u16),
            Size::Long => self.write_ea_long(ea, val.to_u32()),
        }
    }

    pub fn read_ea_byte(&mut self, ea: AddressingMode) -> (r: Result<u8, Fault>)
        requires
            old(self).wf(),
            ea_wf(ea),
        ensures
            final(self).wf(),
            (final(self)@, r) == spec_read_ea_byte(old(self)@, ea),
    {
        match ea {
            AddressingMode::DataRegisterDirect(reg) => Ok(self.read_dr(reg) as u8),
            AddressingMode::AddressRegisterDirect(reg) => Ok(self.read_ar(reg) as u8),
            AddressingMode::AddressRegisterIndirect(reg) => {
                let addr = self.read_ar(reg);
                Ok(self.mmu.read_byte(addr))
            },
            AddressingMode::AddressRegisterIndirectPostIncrement(reg) => {
                let addr = self.read_ar(reg);
                let step: u32 = if reg == 7 {
                    2
                } else {
                    1
                };
                self.increment_ar(reg, step);
                Ok(self.mmu.read_byte(addr))
            },
            AddressingMode::AddressRegisterIndirectPreDecrement(reg) => {
                let step: u32 = if reg == 7 {
                    2
                } else {
                    1
                };
                self.decrement_ar(reg, step);
                let addr = self.read_ar(reg);
                Ok(self.mmu.read_byte(addr))
            },
            AddressingMode::AddressRegisterIndirectDisplacement(reg) => {
                let w = self.fetch_word()?;
                let target = self.read_ar(reg).wrapping_add(sign_extend_16_to_32(w));
                Ok(self.mmu.read_byte(target))
            },
            AddressingMode::AddressRegisterIndirectIndex(reg) => {
                let w = self.fetch_word()?;
                let offset = self.get_index_offset(w, Size::Byte);
                let target = self.read_ar(reg).wrapping_add(offset);
                Ok(self.mmu.read_byte(target))
            },
            AddressingMode::Extension(e) => match e {
                ExtensionMode::Word => {
                    let w = self.fetch_word()?;
                    Ok(self.mmu.read_byte(sign_extend_16_to_32(w)))
                },
                ExtensionMode::Long => {
                    let l = self.fetch_long()?;
                    Ok(self.mmu.read_byte(l))
                },
                ExtensionMode::PcRelativeDisplacement => {
                    let pc = self.read_pc();
                    let w = self.fetch_word()?;
                    let target = pc.wrapping_add(sign_extend_16_to_32(w));
                    Ok(self.mmu.read_byte(target))
                },
                ExtensionMode::PcRelativeIndex => {
                    let pc = self.read_pc();
                    let w = self.fetch_word()?;
                    let offset = self.get_index_offset(w, Size::Byte);
                    let target = pc.wrapping_add(offset);
                    Ok(self.mmu.read_byte(target))
                },
                ExtensionMode::Immediate => {
                    let w = self.fetch_word()?;
                    Ok(w as u8)
                },
            },
        }
    }

    pub fn read_ea_word(&mut self, ea: AddressingMode) -> (r: Result<u16, Fault>)
        requires
            old(self).wf(),
            ea_wf(ea),
        ensures
            final(self).wf(),
            (final(self)@, r) == spec_read_ea_word(old(self)@, ea),
    {
        match ea {
            AddressingMode::DataRegisterDirect(reg) => Ok(self.read_dr(reg) as u16),
            AddressingMode::AddressRegisterDirect(reg) => Ok(self.read_ar(reg) as u16),
            AddressingMode::AddressRegisterIndirect(reg) => {
                let addr = self.read_ar(reg);
                self.mem_read_word(addr)
            },
            AddressingMode::AddressRegisterIndirectPostIncrement(reg) => {
                let addr = self.read_ar(reg);
                self.increment_ar(reg, 2);
                self.mem_read_word(addr)
            },
            AddressingMode::AddressRegisterIndirectPreDecrement(reg) => {
                self.decrement_ar(reg, 2);
                let addr = self.read_ar(reg);
                self.mem_read_word(addr)
            },
            AddressingMode::AddressRegisterIndirectDisplacement(reg) => {
                let w = self.fetch_word()?;
                let target = self.read_ar(reg).wrapping_add(sign_extend_16_to_32(w));
                self.mem_read_word(target)
            },
            AddressingMode::AddressRegisterIndirectIndex(reg) => {
                let w = self.fetch_word()?;
                let offset = self.get_index_offset(w, Size::Word);
                let target = self.read_ar(reg).wrapping_add(offset);
                self.mem_read_word(target)
            },
            AddressingMode::Extension(e) => match e {
                ExtensionMode::Word => {
                    let w = self.fetch_word()?;
                    self.mem_read_word(sign_extend_16_to_32(w))
                },
                ExtensionMode::Long => {
                    let l = self.fetch_long()?;
                    self.mem_read_word(l)
                },
                ExtensionMode::PcRelativeDisplacement => {
                    let pc = self.read_pc();
                    let w = self.fetch_word()?;
                    let target = pc.wrapping_add(sign_extend_16_to_32(w));
                    self.mem_read_word(target)
                },
                ExtensionMode::PcRelativeIndex => {
                    let pc = self.read_pc();
                    let w = self.fetch_word()?;
                    let offset = self.get_index_offset(w, Size::Word);
                    let target = pc.wrapping_add(offset);
                    self.mem_read_word(target)
                },
                ExtensionMode::Immediate => self.fetch_word(),
            },
        }
    }

    pub fn read_ea_long(&mut self, ea: AddressingMode) -> (r: Result<u32, Fault>)
        requires
            old(self).wf(),
            ea_wf(ea),
        ensures
            final(self).wf(),
            (final(self)@, r) == spec_read_ea_long(old(self)@, ea),
    {
        match ea {
            AddressingMode::DataRegisterDirect(reg) => Ok(self.read_dr(reg)),
            AddressingMode::AddressRegisterDirect(reg) => Ok(self.read_ar(reg)),
            AddressingMode::AddressRegisterIndirect(reg) => {
                let addr = self.read_ar(reg);
                self.mem_read_long(addr)
            },
            AddressingMode::AddressRegisterIndirectPostIncrement(reg) => {
                let addr = self.read_ar(reg);
                self.increment_ar(reg, 4);
                self.mem_read_long(addr)
            },
            AddressingMode::AddressRegisterIndirectPreDecrement(reg) => {
                self.decrement_ar(reg, 4);
                let addr = self.read_ar(reg);
                self.mem_read_long(addr)
            },
            AddressingMode::AddressRegisterIndirectDisplacement(reg) => {
                let w = self.fetch_word()?;
                let target = self.read_ar(reg).wrapping_add(sign_extend_16_to_32(w));
                self.mem_read_long(target)
            },
            AddressingMode::AddressRegisterIndirectIndex(reg) => {
                let w = self.fetch_word()?;
                let offset = self.get_index_offset(w, Size::Long);
                let target = self.read_ar(reg).wrapping_add(offset);
                self.mem_read_long(target)
            },
            AddressingMode::Extension(e) => match e {
                ExtensionMode::Word => {
                    let w = self.fetch_word()?;
                    self.mem_read_long(sign_extend_16_to_32(w))
                },
                ExtensionMode::Long => {
                    let l = self.fetch_long()?;
                    self.mem_read_long(l)
                },
                ExtensionMode::PcRelativeDisplacement => {
                    let pc = self.read_pc();
                    let w = self.fetch_word()?;
                    let target = pc.wrapping_add(sign_extend_16_to_32(w));
                    self.mem_read_long(target)
                },
                ExtensionMode::PcRelativeIndex => {
                    let pc = self.read_pc();
                    let w = self.fetch_word()?;
                    let offset = self.get_index_offset(w, Size::Long);
                    let target = pc.wrapping_add(offset);
                    self.mem_read_long(target)
                },
                ExtensionMode::Immediate => self.fetch_long(),
            },
        }
    }

    pub fn write_ea_byte(&mut self, ea: AddressingMode, val: u8) -> (r: Result<(), Fault>)
        requires
            old(self).wf(),
            ea_wf(ea),
        ensures
            final(self).wf(),
            (final(self)@, r) == spec_write_ea_byte(old(self)@, ea, val),
    {
        match ea {
            AddressingMode::DataRegisterDirect(reg) => {
                self.write_dr_byte(reg, val);
                Ok(())
            },
            AddressingMode::AddressRegisterIndirect(reg) => {
                let addr = self.read_ar(reg);
                self.mmu.write_byte(addr, val);
                Ok(())
            },
            AddressingMode::AddressRegisterIndirectPostIncrement(reg) => {
                let addr = self.read_ar(reg);
                self.mmu.write_byte(addr, val);
                let step: u32 = if reg == 7 {
                    2
                } else {
                    1
                };
                self.increment_ar(reg, step);
                Ok(())
            },
            AddressingMode::AddressRegisterIndirectPreDecrement(reg) => {
                let step: u32 = if reg == 7 {
                    2
                } else {
                    1
                };
                self.decrement_ar(reg, step);
                let addr = self.read_ar(reg);
                self.mmu.write_byte(addr, val);
                Ok(())
            },
            AddressingMode::AddressRegisterIndirectDisplacement(reg) => {
                let w = self.fetch_word()?;
                let target = self.read_ar(reg).wrapping_add(sign_extend_16_to_32(w));
                self.mmu.write_byte(target, val);
                Ok(())
            },
            AddressingMode::AddressRegisterIndirectIndex(reg) => {
                let w = self.fetch_word()?;
                let offset = self.get_index_offset(w, Size::Byte);
                let target = self.read_ar(reg).wrapping_add(offset);
                self.mmu.write_byte(target, val);
                Ok(())
            },
            AddressingMode::Extension(e) => match e {
                ExtensionMode::Word => {
                    let w = self.fetch_word()?;
                    self.mmu.write_byte(sign_extend_16_to_32(w), val);
                    Ok(())
                },
                ExtensionMode::Long => {
                    let l = self.fetch_long()?;
                    self.mmu.write_byte(l, val);
                    Ok(())
                },
                _ => Err(Fault::IllegalMode),
            },
            _ => Err(Fault::IllegalMode),
        }
    }

    pub fn write_ea_word(&mut self, ea: AddressingMode, val: u16) -> (r: Result<(), Fault>)
        requires
            old(self).wf(),
            ea_wf(ea),
        ensures
            final(self).wf(),
            (final(self)@, r) == spec_write_ea_word(old(self)@, ea, val),
    {
        match ea {
            AddressingMode::DataRegisterDirect(reg) => {
                self.write_dr_word(reg, val);
                Ok(())
            },
            AddressingMode::AddressRegisterDirect(reg) => {
                self.write_ar(reg, sign_extend_16_to_32(val));
                Ok(())
            },
            AddressingMode::AddressRegisterIndirect(reg) => {
                let addr = self.read_ar(reg);
                self.mem_write_word(addr, val)
            },
            AddressingMode::AddressRegisterIndirectPostIncrement(reg) => {
                let addr = self.read_ar(reg);
                self.mem_write_word(addr, val)?;
                self.increment_ar(reg, 2);
                Ok(())
            },
            AddressingMode::AddressRegisterIndirectPreDecrement(reg) => {
                self.decrement_ar(reg, 2);
                let addr = self.read_ar(reg);
                self.mem_write_word(addr, val)
            },
            AddressingMode::AddressRegisterIndirectDisplacement(reg) => {
                let w = self.fetch_word()?;
                let target = self.read_ar(reg).wrapping_add(sign_extend_16_to_32(w));
                self.mem_write_word(target, val)
            },
            AddressingMode::AddressRegisterIndirectIndex(reg) => {
                let w = self.fetch_word()?;
                let offset = self.get_index_offset(w, Size::Word);
                let target = self.read_ar(reg).wrapping_add(offset);
                self.mem_write_word(target, val)
            },
            AddressingMode::Extension(e) => match e {
                ExtensionMode::Word => {
                    let w = self.fetch_word()?;
                    self.mem_write_word(sign_extend_16_to_32(w), val)
                },
                ExtensionMode::Long => {
                    let l = self.fetch_long()?;
                    self.mem_write_word(l, val)
                },
                _ => Err(Fault::IllegalMode),
            },
        }
    }

    pub fn write_ea_long(&mut self, ea: AddressingMode, val: u32) -> (r: Result<(), Fault>)
        requires
            old(self).wf(),
            ea_wf(ea),
        ensures
            final(self).wf(),
            (final(self)@, r) == spec_write_ea_long(old(self)@, ea, val),
    {
        match ea {
            AddressingMode::DataRegisterDirect(reg) => {
                self.write_dr_long(reg, val);
                Ok(())
            },
            AddressingMode::AddressRegisterDirect(reg) => {
                self.write_ar(reg, val);
                Ok(())
            },
            AddressingMode::AddressRegisterIndirect(reg) => {
                let addr = self.read_ar(reg);
                self.mem_write_long(addr, val)
            },
            AddressingMode::AddressRegisterIndirectPostIncrement(reg) => {
                let addr = self.read_ar(reg);
                self.mem_write_long(addr, val)?;
                self.increment_ar(reg, 4);
                Ok(())
            },
            AddressingMode::AddressRegisterIndirectPreDecrement(reg) => {
                self.decrement_ar(reg, 4);
                let addr = self.read_ar(reg);
                self.mem_write_long(addr, val)
            },
            AddressingMode::AddressRegisterIndirectDisplacement(reg) => {
                let w = self.fetch_word()?;
                let target = self.read_ar(reg).wrapping_add(sign_extend_16_to_32(w));
                self.mem_write_long(target, val)
            },
            AddressingMode::AddressRegisterIndirectIndex(reg) => {
                let w = self.fetch_word()?;
                let offset = self.get_index_offset(w, Size::Long);
                let target = self.read_ar(reg).wrapping_add(offset);
                self.mem_write_long(target, val)
            },
            AddressingMode::Extension(e) => match e {
                ExtensionMode::Word => {
                    let w = self.fetch_word()?;
                    self.mem_write_long(sign_extend_16_to_32(w), val)
                },
                ExtensionMode::Long => {
                    let l = self.fetch_long()?;
                    self.mem_write_long(l, val)
                },
                _ => Err(Fault::IllegalMode),
            },
        }
    }
}

} // verus!
