use vstd::prelude::*;

verus! {

/// Operand width: the 68000 operates on bytes, words (16 bits) and longs (32 bits).
#[derive(Debug, Copy, Clone, PartialEq, Eq, Structural)]
pub enum Size {
    Byte,
    Word,
    Long,
}

impl Size {
    /// Width in bytes; this is also the step used by the post-increment and
    /// pre-decrement addressing modes.
    pub open spec fn spec_bytes(self) -> u32 {
        match self {
            Size::Byte => 1,
            Size::Word => 2,
            Size::Long => 4,
        }
    }

    pub fn bytes(self) -> (r: u32)
        ensures
            r == self.spec_bytes(),
    {
        match self {
            Size::Byte => 1,
            Size::Word => 2,
            Size::Long => 4,
        }
    }

    /// Width in bits.
    pub open spec fn spec_bits(self) -> u32 {
        match self {
            Size::Byte => 8,
            Size::Word => 16,
            Size::Long => 32,
        }
    }

    pub fn bits(self) -> (r: u32)
        ensures
            r == self.spec_bits(),
    {
        match self {
            Size::Byte => 8,
            Size::Word => 16,
            Size::Long => 32,
        }
    }
}

/// The value kept at an operand width only: byte, word and long writes differ
/// in how much of a register or memory cell they touch.
pub open spec fn mask_to_size(val: u32, size: Size) -> u32 {
    match size {
        Size::Byte => val & 0xFF,
        Size::Word => val & 0xFFFF,
        Size::Long => val,
    }
}

/// An operand together with its width.
#[derive(Debug, PartialEq, Eq, Clone, Copy, Structural)]
pub enum Value {
    Byte(u8),
    Word(u16),
    Long(u32),
}

/// The unsigned number a `Value` denotes (zero-extension).
pub open spec fn value_to_u32(v: Value) -> u32 {
    match v {
        Value::Byte(b) => b as u32,
        Value::Word(w) => w as u32,
        Value::Long(l) => l,
    }
}

/// The width a `Value` carries.
pub open spec fn value_size(v: Value) -> Size {
    match v {
        Value::Byte(_) => Size::Byte,
        Value::Word(_) => Size::Word,
        Value::Long(_) => Size::Long,
    }
}

/// `raw` truncated to `size` and tagged with it.
pub open spec fn value_of(size: Size, raw: u32) -> Value {
    match size {
        Size::Byte => Value::Byte(raw as u8),
        Size::Word => Value::Word(raw as u16),
        Size::Long => Value::Long(raw),
    }
}

impl Value {
    /// Whether bit `idx` of the value is set; `idx == -1` selects the sign bit
    /// of the value's own width.
    pub open spec fn spec_is_bit_set(self, idx: i8) -> bool {
        match self {
            Value::Byte(val) => if idx == -1 {
                val & (1u8 << 7) == (1u8 << 7)
            } else {
                val & (1u8 << idx as u8) == (1u8 << idx as u8)
            },
            Value::Word(val) => if idx == -1 {
                val & (1u16 << 15) == (1u16 << 15)
            } else {
                val & (1u16 << idx as u16) == (1u16 << idx as u16)
            },
            Value::Long(val) => if idx == -1 {
                val & (1u32 << 31) == (1u32 << 31)
            } else {
                val & (1u32 << idx as u32) == (1u32 << idx as u32)
            },
        }
    }

    pub fn is_bit_set(&self, idx: i8) -> (r: bool)
        requires
            idx == -1 || (0 <= idx && idx < value_size(*self).spec_bits()),
        ensures
            r == self.spec_is_bit_set(idx),
    {
        match self {
            Value::Byte(val) => {
                if idx == -1 {
                    *val & (1u8 << 7) == (1u8 << 7)
                } else {
                    *val & (1u8 << (idx as u8)) == (1u8 << (idx as u8))
                }
            },
            Value::Word(val) => {
                if idx == -1 {
                    *val & (1u16 << 15) == (1u16 << 15)
                } else {
                    *val & (1u16 << (idx as u16)) == (1u16 << (idx as u16))
                }
            },
            Value::Long(val) => {
                if idx == -1 {
                    *val & (1u32 << 31) == (1u32 << 31)
                } else {
                    *val & (1u32 << (idx as u32)) == (1u32 << (idx as u32))
                }
            },
        }
    }

    /// The unsigned number this value denotes.
    pub fn to_u32(self) -> (r: u32)
        ensures
            r == value_to_u32(self),
    {
        match self {
            Value::Byte(v) => v as u32,
            Value::Word(v) => v as u32,
            Value::Long(v) => v,
        }
    }

    /// Addition modulo the value's own width; the width is kept.
    pub fn wrapping_add_u8(self, rhs: u8) -> (r: Value)
        ensures
            r == spec_value_wrapping_add_u8(self, rhs),
    {
        match self {
            Value::Byte(v) => Value::Byte(v.wrapping_add(rhs)),
            Value::Word(v) => Value::Word(v.wrapping_add(rhs as u16)),
            Value::Long(v) => Value::Long(v.wrapping_add(rhs as u32)),
        }
    }

    /// Subtraction modulo the value's own width; the width is kept.
    pub fn wrapping_sub_u8(self, rhs: u8) -> (r: Value)
        ensures
            r == spec_value_wrapping_sub_u8(self, rhs),
    {
        match self {
            Value::Byte(v) => Value::Byte(v.wrapping_sub(rhs)),
            Value::Word(v) => Value::Word(v.wrapping_sub(rhs as u16)),
            Value::Long(v) => Value::Long(v.wrapping_sub(rhs as u32)),
        }
    }
}

pub open spec fn spec_value_wrapping_add_u8(v: Value, rhs: u8) -> Value {
    match v {
        Value::Byte(b) => Value::Byte(b.wrapping_add(rhs)),
        Value::Word(w) => Value::Word(w.wrapping_add(rhs as u16)),
        Value::Long(l) => Value::Long(l.wrapping_add(rhs as u32)),
    }
}

pub open spec fn spec_value_wrapping_sub_u8(v: Value, rhs: u8) -> Value {
    match v {
        Value::Byte(b) => Value::Byte(b.wrapping_sub(rhs)),
        Value::Word(w) => Value::Word(w.wrapping_sub(rhs as u16)),
        Value::Long(l) => Value::Long(l.wrapping_sub(rhs as u32)),
    }
}

/// The five extension addressing modes selected by mode field `0b111`.
#[derive(Debug, Copy, Clone, PartialEq, Eq, Structural)]
pub enum ExtensionMode {
    Word,
    Long,
    PcRelativeDisplacement,
    PcRelativeIndex,
    Immediate,
}

/// One of the twelve addressing modes, decoded from the 6-bit mode/register
/// field of an opcode.
#[derive(Debug, Copy, Clone, PartialEq, Eq, Structural)]
pub enum AddressingMode {
    DataRegisterDirect(u8),
    AddressRegisterDirect(u8),
    AddressRegisterIndirect(u8),
    AddressRegisterIndirectPostIncrement(u8),
    AddressRegisterIndirectPreDecrement(u8),
    AddressRegisterIndirectDisplacement(u8),
    AddressRegisterIndirectIndex(u8),
    Extension(ExtensionMode),
}

/// The mode/register field admits every register sub-field except the three
/// unassigned extension codes `0b111_101` through `0b111_111`.
pub open spec fn ea_field_valid(inst: u16) -> bool {
    ((inst >> 3) & 7) != 7 || (inst & 7) < 5
}

/// Meaning of the 6-bit field: bits 5..3 select the mode, bits 2..0 the
/// register, and mode `0b111` selects an extension mode by the register bits.
pub open spec fn spec_decode_ea(inst: u16) -> AddressingMode {
    let mode = (inst >> 3) & 7;
    let reg = (inst & 7) as u8;
    if mode == 0 {
        AddressingMode::DataRegisterDirect(reg)
    } else if mode == 1 {
        AddressingMode::AddressRegisterDirect(reg)
    } else if mode == 2 {
        AddressingMode::AddressRegisterIndirect(reg)
    } else if mode == 3 {
        AddressingMode::AddressRegisterIndirectPostIncrement(reg)
    } else if mode == 4 {
        AddressingMode::AddressRegisterIndirectPreDecrement(reg)
    } else if mode == 5 {
        AddressingMode::AddressRegisterIndirectDisplacement(reg)
    } else if mode == 6 {
        AddressingMode::AddressRegisterIndirectIndex(reg)
    } else if reg == 0 {
        AddressingMode::Extension(ExtensionMode::Word)
    } else if reg == 1 {
        AddressingMode::Extension(ExtensionMode::Long)
    } else if reg == 2 {
        AddressingMode::Extension(ExtensionMode::PcRelativeDisplacement)
    } else if reg == 3 {
        AddressingMode::Extension(ExtensionMode::PcRelativeIndex)
    } else {
        AddressingMode::Extension(ExtensionMode::Immediate)
    }
}

/// Register numbers carried inside an addressing mode are three bits wide.
pub open spec fn ea_wf(ea: AddressingMode) -> bool {
    match ea {
        AddressingMode::DataRegisterDirect(r) => r < 8,
        AddressingMode::AddressRegisterDirect(r) => r < 8,
        AddressingMode::AddressRegisterIndirect(r) => r < 8,
        AddressingMode::AddressRegisterIndirectPostIncrement(r) => r < 8,
        AddressingMode::AddressRegisterIndirectPreDecrement(r) => r < 8,
        AddressingMode::AddressRegisterIndirectDisplacement(r) => r < 8,
        AddressingMode::AddressRegisterIndirectIndex(r) => r < 8,
        AddressingMode::Extension(_) => true,
    }
}

impl AddressingMode {
    pub fn from(inst: u16) -> (r: Self)
        requires
            ea_field_valid(inst),
        ensures
            r == spec_decode_ea(inst),
            ea_wf(r),
    {
        let mode = (0b0000_0000_0011_1000u16 & inst) >> 3;
        let reg = (0b111u16 & inst) as u8;
        proof {
            assert((0b0000_0000_0011_1000u16 & inst) >> 3 == (inst >> 3) & 7) by (bit_vector);
            assert((0b111u16 & inst) == (inst & 7)) by (bit_vector);
            assert((inst & 7) < 8) by (bit_vector);
        }
        match mode {
            0b000 => Self::DataRegisterDirect(reg),
            0b001 => Self::AddressRegisterDirect(reg),
            0b010 => Self::AddressRegisterIndirect(reg),
            0b011 => Self::AddressRegisterIndirectPostIncrement(reg),
            0b100 => Self::AddressRegisterIndirectPreDecrement(reg),
            0b101 => Self::AddressRegisterIndirectDisplacement(reg),
            0b110 => Self::AddressRegisterIndirectIndex(reg),
            _ => match reg {
                0b000 => Self::Extension(ExtensionMode::Word),
                0b001 => Self::Extension(ExtensionMode::Long),
                0b010 => Self::Extension(ExtensionMode::PcRelativeDisplacement),
                0b011 => Self::Extension(ExtensionMode::PcRelativeIndex),
                _ => Self::Extension(ExtensionMode::Immediate),
            },
        }
    }

    /// Whether the 6-bit field decodes at all (the unassigned extension codes
    /// do not name a mode and make the whole opcode illegal).
    pub fn field_valid(inst: u16) -> (r: bool)
        ensures
            r == ea_field_valid(inst),
    {
        let mode = (0b0000_0000_0011_1000u16 & inst) >> 3;
        let reg = 0b111u16 & inst;
        proof {
            assert((0b0000_0000_0011_1000u16 & inst) >> 3 == (inst >> 3) & 7) by (bit_vector);
            assert((0b111u16 & inst) == (inst & 7)) by (bit_vector);
        }
        mode != 7 || reg < 5
    }
}

/// The sixteen condition codes tested by `Bcc`, `DBcc` and `Scc`.
#[derive(Debug, Clone, Copy, PartialEq, Eq, Structural)]
pub enum ConditionCode {
    True,
    False,
    Higher,
    LowerOrSame,
    CarryClear,
    CarrySet,
    NotEqual,
    Equal,
    OverflowClear,
    OverflowSet,
    Plus,
    Minus,
    GreaterOrEqual,
    LessThan,
    GreaterThan,
    LessOrEqual,
}

pub open spec fn spec_decode_cc(value: u8) -> ConditionCode {
    if value == 0 {
        ConditionCode::True
    } else if value == 1 {
        ConditionCode::False
    } else if value == 2 {
        ConditionCode::Higher
    } else if value == 3 {
        ConditionCode::LowerOrSame
    } else if value == 4 {
        ConditionCode::CarryClear
    } else if value == 5 {
        ConditionCode::CarrySet
    } else if value == 6 {
        ConditionCode::NotEqual
    } else if value == 7 {
        ConditionCode::Equal
    } else if value == 8 {
        ConditionCode::OverflowClear
    } else if value == 9 {
        ConditionCode::OverflowSet
    } else if value == 10 {
        ConditionCode::Plus
    } else if value == 11 {
        ConditionCode::Minus
    } else if value == 12 {
        ConditionCode::GreaterOrEqual
    } else if value == 13 {
        ConditionCode::LessThan
    } else if value == 14 {
        ConditionCode::GreaterThan
    } else {
        ConditionCode::LessOrEqual
    }
}

impl ConditionCode {
    pub fn from(value: u8) -> (r: Self)
        requires
            value < 16,
        ensures
            r == spec_decode_cc(value),
    {
        match value {
            0b0000 => ConditionCode::True,
            0b0001 => ConditionCode::False,
            0b0010 => ConditionCode::Higher,
            0b0011 => ConditionCode::LowerOrSame,
            0b0100 => ConditionCode::CarryClear,
            0b0101 => ConditionCode::CarrySet,
            0b0110 => ConditionCode::NotEqual,
            0b0111 => ConditionCode::Equal,
            0b1000 => ConditionCode::OverflowClear,
            0b1001 => ConditionCode::OverflowSet,
            0b1010 => ConditionCode::Plus,
            0b1011 => ConditionCode::Minus,
            0b1100 => ConditionCode::GreaterOrEqual,
            0b1101 => ConditionCode::LessThan,
            0b1110 => ConditionCode::GreaterThan,
            _ => ConditionCode::LessOrEqual,
        }
    }
}

/// A failure the processor itself cannot recover from: an unaligned word or
/// long access, an addressing mode where none is allowed, an opcode this
/// core does not implement, or a program that exhausted the driver's step
/// budget without halting.
#[derive(Debug, Clone, Copy, PartialEq, Eq, Structural)]
pub enum Fault {
    Misaligned,
    IllegalMode,
    Unimplemented,
    Stalled,
}

} // verus!
