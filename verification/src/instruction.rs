//! Instructions: an opcode byte followed by the operands that the version's
//! opcode table prescribes for it.

use vstd::prelude::*;
use crate::decode::{
    decode_i32, decode_i8, decode_u16, decode_u32, decode_u64, decode_u8, i32_from_u32, i8_from_u8,
    u16_from_le, u32_from_le, u64_from_le, Reader,
};
use crate::encode::{
    encode_i32, encode_i8, encode_u16, encode_u32, encode_u64, encode_u8, lemma_signed_round_trip,
    lemma_u16_bytes_of_value, lemma_u16_round_trip, lemma_u32_bytes_of_value,
    lemma_u32_round_trip, lemma_u64_bytes_of_value, lemma_u64_round_trip,
    lemma_unsigned_round_trip, u16_to_le, u32_from_i32, u32_to_le, u64_to_le, u8_from_i8, Writer,
};
use crate::error::HermesError;
use crate::opcode::{Mnemonic, OperandKind};
use crate::types::{
    Addr32, Addr8, BigIntIDUInt16, BigIntIDUInt32, Double, FunctionIDUInt16, FunctionIDUInt32,
    FunctionIDUInt8, Imm32, Reg32, Reg8, StringIDUInt16, StringIDUInt32, StringIDUInt8, UInt16,
    UInt32, UInt8,
};

verus! {

/// One operand of an instruction: a number together with what it is.
#[derive(Debug, Clone, Copy, PartialEq, Eq, Structural)]
pub enum Operand {
    Reg8(Reg8),
    Reg32(Reg32),
    UInt8(UInt8),
    UInt16(UInt16),
    UInt32(UInt32),
    Addr8(Addr8),
    Addr32(Addr32),
    Imm32(Imm32),
    Double(Double),
    StringIDUInt8(StringIDUInt8),
    StringIDUInt16(StringIDUInt16),
    StringIDUInt32(StringIDUInt32),
    FunctionIDUInt8(FunctionIDUInt8),
    FunctionIDUInt16(FunctionIDUInt16),
    FunctionIDUInt32(FunctionIDUInt32),
    BigIntIDUInt16(BigIntIDUInt16),
    BigIntIDUInt32(BigIntIDUInt32),
}

impl Operand {
    /// What the operand is.
    pub open spec fn spec_kind(self) -> OperandKind {
        match self {
            Operand::Reg8(_) => OperandKind::Reg8,
            Operand::Reg32(_) => OperandKind::Reg32,
            Operand::UInt8(_) => OperandKind::UInt8,
            Operand::UInt16(_) => OperandKind::UInt16,
            Operand::UInt32(_) => OperandKind::UInt32,
            Operand::Addr8(_) => OperandKind::Addr8,
            Operand::Addr32(_) => OperandKind::Addr32,
            Operand::Imm32(_) => OperandKind::Imm32,
            Operand::Double(_) => OperandKind::Double,
            Operand::StringIDUInt8(_) => OperandKind::StringIDUInt8,
            Operand::StringIDUInt16(_) => OperandKind::StringIDUInt16,
            Operand::StringIDUInt32(_) => OperandKind::StringIDUInt32,
            Operand::FunctionIDUInt8(_) => OperandKind::FunctionIDUInt8,
            Operand::FunctionIDUInt16(_) => OperandKind::FunctionIDUInt16,
            Operand::FunctionIDUInt32(_) => OperandKind::FunctionIDUInt32,
            Operand::BigIntIDUInt16(_) => OperandKind::BigIntIDUInt16,
            Operand::BigIntIDUInt32(_) => OperandKind::BigIntIDUInt32,
        }
    }

    /// What the operand is.
    pub fn kind(self) -> (k: OperandKind)
        ensures
            k == self.spec_kind(),
    {
        match self {
            Operand::Reg8(_) => OperandKind::Reg8,
            Operand::Reg32(_) => OperandKind::Reg32,
            Operand::UInt8(_) => OperandKind::UInt8,
            Operand::UInt16(_) => OperandKind::UInt16,
            Operand::UInt32(_) => OperandKind::UInt32,
            Operand::Addr8(_) => OperandKind::Addr8,
            Operand::Addr32(_) => OperandKind::Addr32,
            Operand::Imm32(_) => OperandKind::Imm32,
            Operand::Double(_) => OperandKind::Double,
            Operand::StringIDUInt8(_) => OperandKind::StringIDUInt8,
            Operand::StringIDUInt16(_) => OperandKind::StringIDUInt16,
            Operand::StringIDUInt32(_) => OperandKind::StringIDUInt32,
            Operand::FunctionIDUInt8(_) => OperandKind::FunctionIDUInt8,
            Operand::FunctionIDUInt16(_) => OperandKind::FunctionIDUInt16,
            Operand::FunctionIDUInt32(_) => OperandKind::FunctionIDUInt32,
            Operand::BigIntIDUInt16(_) => OperandKind::BigIntIDUInt16,
            Operand::BigIntIDUInt32(_) => OperandKind::BigIntIDUInt32,
        }
    }

    /// The bytes the operand is written as: its number in little-endian
    /// order, signed numbers in two's complement.
    pub open spec fn spec_bytes(self) -> Seq<u8> {
        match self {
            Operand::Reg8(v) => seq![v.0],
            Operand::Reg32(v) => u32_to_le(v.0 as int),
            Operand::UInt8(v) => seq![v.0],
            Operand::UInt16(v) => u16_to_le(v.0 as int),
            Operand::UInt32(v) => u32_to_le(v.0 as int),
            Operand::Addr8(v) => seq![u8_from_i8(v.0 as int)],
            Operand::Addr32(v) => u32_to_le(u32_from_i32(v.0 as int)),
            Operand::Imm32(v) => u32_to_le(u32_from_i32(v.0 as int)),
            Operand::Double(v) => u64_to_le(v.0 as int),
            Operand::StringIDUInt8(v) => seq![v.0],
            Operand::StringIDUInt16(v) => u16_to_le(v.0 as int),
            Operand::StringIDUInt32(v) => u32_to_le(v.0 as int),
            Operand::FunctionIDUInt8(v) => seq![v.0],
            Operand::FunctionIDUInt16(v) => u16_to_le(v.0 as int),
            Operand::FunctionIDUInt32(v) => u32_to_le(v.0 as int),
            Operand::BigIntIDUInt16(v) => u16_to_le(v.0 as int),
            Operand::BigIntIDUInt32(v) => u32_to_le(v.0 as int),
        }
    }

    /// The operand of the given kind that `bytes` read as.
    pub open spec fn spec_parse(kind: OperandKind, bytes: Seq<u8>) -> Operand {
        match kind {
            OperandKind::Reg8 => Operand::Reg8(Reg8(bytes[0])),
            OperandKind::Reg32 => Operand::Reg32(Reg32(u32_from_le(bytes) as u32)),
            OperandKind::UInt8 => Operand::UInt8(UInt8(bytes[0])),
            OperandKind::UInt16 => Operand::UInt16(UInt16(u16_from_le(bytes) as u16)),
            OperandKind::UInt32 => Operand::UInt32(UInt32(u32_from_le(bytes) as u32)),
            OperandKind::Addr8 => Operand::Addr8(Addr8(i8_from_u8(bytes[0]) as i8)),
            OperandKind::Addr32 => Operand::Addr32(Addr32(i32_from_u32(u32_from_le(bytes)) as i32)),
            OperandKind::Imm32 => Operand::Imm32(Imm32(i32_from_u32(u32_from_le(bytes)) as i32)),
            OperandKind::Double => Operand::Double(Double(u64_from_le(bytes) as u64)),
            OperandKind::StringIDUInt8 => Operand::StringIDUInt8(StringIDUInt8(bytes[0])),
            OperandKind::StringIDUInt16 => Operand::StringIDUInt16(StringIDUInt16(u16_from_le(bytes) as u16)),
            OperandKind::StringIDUInt32 => Operand::StringIDUInt32(StringIDUInt32(u32_from_le(bytes) as u32)),
            OperandKind::FunctionIDUInt8 => Operand::FunctionIDUInt8(FunctionIDUInt8(bytes[0])),
            OperandKind::FunctionIDUInt16 => Operand::FunctionIDUInt16(FunctionIDUInt16(u16_from_le(bytes) as u16)),
            OperandKind::FunctionIDUInt32 => Operand::FunctionIDUInt32(FunctionIDUInt32(u32_from_le(bytes) as u32)),
            OperandKind::BigIntIDUInt16 => Operand::BigIntIDUInt16(BigIntIDUInt16(u16_from_le(bytes) as u16)),
            OperandKind::BigIntIDUInt32 => Operand::BigIntIDUInt32(BigIntIDUInt32(u32_from_le(bytes) as u32)),
        }
    }

    /// The operand's number as an unsigned 32-bit value: signed numbers in
    /// two's complement, a double's low 32 bits.
    pub open spec fn spec_as_u32(self) -> u32 {
        match self {
            Operand::Reg8(v) => v.0 as u32,
            Operand::Reg32(v) => v.0 as u32,
            Operand::UInt8(v) => v.0 as u32,
            Operand::UInt16(v) => v.0 as u32,
            Operand::UInt32(v) => v.0 as u32,
            Operand::Addr8(v) => u32_from_i32(v.0 as int) as u32,
            Operand::Addr32(v) => u32_from_i32(v.0 as int) as u32,
            Operand::Imm32(v) => u32_from_i32(v.0 as int) as u32,
            Operand::Double(v) => (v.0 % 0x1_0000_0000) as u32,
            Operand::StringIDUInt8(v) => v.0 as u32,
            Operand::StringIDUInt16(v) => v.0 as u32,
            Operand::StringIDUInt32(v) => v.0 as u32,
            Operand::FunctionIDUInt8(v) => v.0 as u32,
            Operand::FunctionIDUInt16(v) => v.0 as u32,
            Operand::FunctionIDUInt32(v) => v.0 as u32,
            Operand::BigIntIDUInt16(v) => v.0 as u32,
            Operand::BigIntIDUInt32(v) => v.0 as u32,
        }
    }

    /// The operand's number as an unsigned 32-bit value.
    pub fn as_u32(self) -> (x: u32)
        ensures
            x == self.spec_as_u32(),
    {
        match self {
            Operand::Reg8(v) => v.0 as u32,
            Operand::Reg32(v) => v.0,
            Operand::UInt8(v) => v.0 as u32,
            Operand::UInt16(v) => v.0 as u32,
            Operand::UInt32(v) => v.0,
            Operand::Addr8(v) => if v.0 >= 0 { v.0 as u32 } else { (v.0 as i64 + 0x1_0000_0000) as u32 },
            Operand::Addr32(v) => if v.0 >= 0 { v.0 as u32 } else { (v.0 as i64 + 0x1_0000_0000) as u32 },
            Operand::Imm32(v) => if v.0 >= 0 { v.0 as u32 } else { (v.0 as i64 + 0x1_0000_0000) as u32 },
            Operand::Double(v) => (v.0 % 0x1_0000_0000) as u32,
            Operand::StringIDUInt8(v) => v.0 as u32,
            Operand::StringIDUInt16(v) => v.0 as u32,
            Operand::StringIDUInt32(v) => v.0,
            Operand::FunctionIDUInt8(v) => v.0 as u32,
            Operand::FunctionIDUInt16(v) => v.0 as u32,
            Operand::FunctionIDUInt32(v) => v.0,
            Operand::BigIntIDUInt16(v) => v.0 as u32,
            Operand::BigIntIDUInt32(v) => v.0,
        }
    }

    /// The number of bytes the operand takes.
    pub fn size(self) -> (n: usize)
        ensures
            n == self.spec_kind().spec_size(),
            n == self.spec_bytes().len(),
    {
        self.kind().size()
    }

    /// Appends the operand's bytes.
    pub fn serialize(self, w: &mut Writer)
        ensures
            final(w)@ == old(w)@ + self.spec_bytes(),
    {
        match self {
            Operand::Reg8(v) => encode_u8(w, v.0),
            Operand::Reg32(v) => encode_u32(w, v.0),
            Operand::UInt8(v) => encode_u8(w, v.0),
            Operand::UInt16(v) => encode_u16(w, v.0),
            Operand::UInt32(v) => encode_u32(w, v.0),
            Operand::Addr8(v) => encode_i8(w, v.0),
            Operand::Addr32(v) => encode_i32(w, v.0),
            Operand::Imm32(v) => encode_i32(w, v.0),
            Operand::Double(v) => encode_u64(w, v.0),
            Operand::StringIDUInt8(v) => encode_u8(w, v.0),
            Operand::StringIDUInt16(v) => encode_u16(w, v.0),
            Operand::StringIDUInt32(v) => encode_u32(w, v.0),
            Operand::FunctionIDUInt8(v) => encode_u8(w, v.0),
            Operand::FunctionIDUInt16(v) => encode_u16(w, v.0),
            Operand::FunctionIDUInt32(v) => encode_u32(w, v.0),
            Operand::BigIntIDUInt16(v) => encode_u16(w, v.0),
            Operand::BigIntIDUInt32(v) => encode_u32(w, v.0),
        }
        assert(w@ =~= old(w)@ + self.spec_bytes());
    }

    /// Reads an operand of the given kind.
    pub fn deserialize(r: &mut Reader, kind: OperandKind) -> (res: Result<Operand, HermesError>)
        ensures
            match res {
                Ok(v) => old(r).can_read(kind.spec_size() as int) && v == Self::spec_parse(
                    kind,
                    old(r).peek(kind.spec_size() as int),
                ) && final(r).advanced_from(old(r), kind.spec_size() as int),
                Err(e) => e == HermesError::MalformedInput && !old(r).can_read(
                    kind.spec_size() as int,
                ) && final(r).unmoved_from(old(r)),
            },
    {
        match kind {
            OperandKind::Reg8 => Ok(Operand::Reg8(Reg8(decode_u8(r)?))),
            OperandKind::Reg32 => Ok(Operand::Reg32(Reg32(decode_u32(r)?))),
            OperandKind::UInt8 => Ok(Operand::UInt8(UInt8(decode_u8(r)?))),
            OperandKind::UInt16 => Ok(Operand::UInt16(UInt16(decode_u16(r)?))),
            OperandKind::UInt32 => Ok(Operand::UInt32(UInt32(decode_u32(r)?))),
            OperandKind::Addr8 => Ok(Operand::Addr8(Addr8(decode_i8(r)?))),
            OperandKind::Addr32 => Ok(Operand::Addr32(Addr32(decode_i32(r)?))),
            OperandKind::Imm32 => Ok(Operand::Imm32(Imm32(decode_i32(r)?))),
            OperandKind::Double => Ok(Operand::Double(Double(decode_u64(r)?))),
            OperandKind::StringIDUInt8 => Ok(Operand::StringIDUInt8(StringIDUInt8(decode_u8(r)?))),
            OperandKind::StringIDUInt16 => Ok(Operand::StringIDUInt16(StringIDUInt16(decode_u16(r)?))),
            OperandKind::StringIDUInt32 => Ok(Operand::StringIDUInt32(StringIDUInt32(decode_u32(r)?))),
            OperandKind::FunctionIDUInt8 => Ok(Operand::FunctionIDUInt8(FunctionIDUInt8(decode_u8(r)?))),
            OperandKind::FunctionIDUInt16 => Ok(Operand::FunctionIDUInt16(FunctionIDUInt16(decode_u16(r)?))),
            OperandKind::FunctionIDUInt32 => Ok(Operand::FunctionIDUInt32(FunctionIDUInt32(decode_u32(r)?))),
            OperandKind::BigIntIDUInt16 => Ok(Operand::BigIntIDUInt16(BigIntIDUInt16(decode_u16(r)?))),
            OperandKind::BigIntIDUInt32 => Ok(Operand::BigIntIDUInt32(BigIntIDUInt32(decode_u32(r)?))),
        }
    }

    /// An operand is written as many bytes as its kind takes, and reads back
    /// as itself.
    pub proof fn lemma_round_trip(self)
        ensures
            self.spec_bytes().len() == self.spec_kind().spec_size(),
            Self::spec_parse(self.spec_kind(), self.spec_bytes()) == self,
    {
        match self {
            Operand::Reg8(v) => {},
            Operand::Reg32(v) => lemma_u32_round_trip(v.0),
            Operand::UInt8(v) => {},
            Operand::UInt16(v) => lemma_u16_round_trip(v.0),
            Operand::UInt32(v) => lemma_u32_round_trip(v.0),
            Operand::Addr8(v) => lemma_signed_round_trip(v.0, 0),
            Operand::Addr32(v) => {
                lemma_signed_round_trip(0, v.0);
                lemma_u32_round_trip(u32_from_i32(v.0 as int) as u32);
            },
            Operand::Imm32(v) => {
                lemma_signed_round_trip(0, v.0);
                lemma_u32_round_trip(u32_from_i32(v.0 as int) as u32);
            },
            Operand::Double(v) => lemma_u64_round_trip(v.0),
            Operand::StringIDUInt8(v) => {},
            Operand::StringIDUInt16(v) => lemma_u16_round_trip(v.0),
            Operand::StringIDUInt32(v) => lemma_u32_round_trip(v.0),
            Operand::FunctionIDUInt8(v) => {},
            Operand::FunctionIDUInt16(v) => lemma_u16_round_trip(v.0),
            Operand::FunctionIDUInt32(v) => lemma_u32_round_trip(v.0),
            Operand::BigIntIDUInt16(v) => lemma_u16_round_trip(v.0),
            Operand::BigIntIDUInt32(v) => lemma_u32_round_trip(v.0),
        }
    }
}

/// Whether this crate has the opcode table of the given bytecode version.
pub open spec fn spec_supported_version(version: u32) -> bool {
    version == 84 || version == 95
}

/// Whether this crate has the opcode table of the given bytecode version.
pub fn supported_version(version: u32) -> (b: bool)
    ensures
        b == spec_supported_version(version),
{
    version == 84 || version == 95
}

/// The instruction that `op` stands for in the given version.
pub open spec fn spec_mnemonic(version: u32, op: u8) -> Mnemonic {
    if version == 84 {
        crate::v84::spec_mnemonic(op)
    } else {
        crate::v95::spec_mnemonic(op)
    }
}

/// The kinds of the operands that follow `op` in the given version.
pub open spec fn spec_signature(version: u32, op: u8) -> Seq<OperandKind> {
    if version == 84 {
        crate::v84::spec_operands(crate::v84::spec_mnemonic(op))
    } else {
        crate::v95::spec_operands(crate::v95::spec_mnemonic(op))
    }
}

/// No opcode takes more than six operands.
pub proof fn lemma_signature_bound(version: u32, op: u8)
    ensures
        spec_signature(version, op).len() <= 6,
{
    crate::v84::lemma_operands_bound(crate::v84::spec_mnemonic(op));
    crate::v95::lemma_operands_bound(crate::v95::spec_mnemonic(op));
}

/// Whether the version's table defines `op`.
pub open spec fn spec_is_defined(version: u32, op: u8) -> bool {
    if version == 84 {
        op <= crate::v84::MAX_OPCODE
    } else {
        op <= crate::v95::MAX_OPCODE
    }
}

/// The instruction that `op` stands for in a supported version. A byte that
/// the table does not define stands for `Unreachable`.
pub fn op_to_mnemonic(version: u32, op: u8) -> (m: Mnemonic)
    requires
        spec_supported_version(version),
    ensures
        m == spec_mnemonic(version, op),
{
    if version == 84 {
        crate::v84::op_to_mnemonic(op)
    } else {
        crate::v95::op_to_mnemonic(op)
    }
}

/// The byte that stands for `m` in a supported version, if the version has
/// the instruction.
pub fn mnemonic_to_op(version: u32, m: Mnemonic) -> (op: Option<u8>)
    requires
        spec_supported_version(version),
    ensures
        match op {
            Some(b) => spec_is_defined(version, b) && spec_mnemonic(version, b) == m,
            None => forall|b: u8| spec_is_defined(version, b) ==> spec_mnemonic(version, b) != m,
        },
{
    proof {
        crate::v84::lemma_mnemonic_of_opcode(m);
        crate::v95::lemma_mnemonic_of_opcode(m);
    }
    if version == 84 {
        crate::v84::mnemonic_to_op(m)
    } else {
        crate::v95::mnemonic_to_op(m)
    }
}

/// Whether the table of a supported version defines `op`.
pub fn is_defined(version: u32, op: u8) -> (b: bool)
    requires
        spec_supported_version(version),
    ensures
        b == spec_is_defined(version, op),
{
    if version == 84 {
        op <= crate::v84::MAX_OPCODE
    } else {
        op <= crate::v95::MAX_OPCODE
    }
}

/// The kinds of the operands that follow `op` in a supported version.
pub fn signature(version: u32, op: u8) -> (kinds: Vec<OperandKind>)
    requires
        spec_supported_version(version),
    ensures
        kinds@ == spec_signature(version, op),
{
    if version == 84 {
        crate::v84::operands(crate::v84::op_to_mnemonic(op))
    } else {
        crate::v95::operands(crate::v95::op_to_mnemonic(op))
    }
}

/// The name of the instruction that `op` stands for, or `unknown` for a
/// byte that the table does not define.
pub fn op_to_str(version: u32, op: u8) -> (s: &'static str)
    requires
        spec_supported_version(version),
    ensures
        s@ == (if spec_is_defined(version, op) {
            spec_mnemonic(version, op).spec_name()
        } else {
            "unknown"@
        }),
{
    if is_defined(version, op) {
        op_to_mnemonic(version, op).name()
    } else {
        "unknown"
    }
}

impl Operand {
    /// The operand that bytes read as is written as those bytes.
    pub proof fn lemma_bytes_of_parsed(kind: OperandKind, bytes: Seq<u8>)
        requires
            bytes.len() == kind.spec_size(),
        ensures
            Self::spec_parse(kind, bytes).spec_kind() == kind,
            Self::spec_parse(kind, bytes).spec_bytes() == bytes,
    {
        let parsed = Self::spec_parse(kind, bytes);
        match kind {
            OperandKind::Reg8 | OperandKind::UInt8 | OperandKind::StringIDUInt8
            | OperandKind::FunctionIDUInt8 => {
                assert(parsed.spec_bytes() =~= bytes);
            },
            OperandKind::Addr8 => {
                lemma_unsigned_round_trip(bytes[0], 0);
                assert(parsed.spec_bytes() =~= bytes);
            },
            OperandKind::UInt16 | OperandKind::StringIDUInt16 | OperandKind::FunctionIDUInt16
            | OperandKind::BigIntIDUInt16 => {
                lemma_u16_bytes_of_value(bytes);
            },
            OperandKind::Reg32 | OperandKind::UInt32 | OperandKind::StringIDUInt32
            | OperandKind::FunctionIDUInt32 | OperandKind::BigIntIDUInt32 => {
                lemma_u32_bytes_of_value(bytes);
            },
            OperandKind::Addr32 | OperandKind::Imm32 => {
                lemma_u32_bytes_of_value(bytes);
                lemma_unsigned_round_trip(0, u32_from_le(bytes) as u32);
            },
            OperandKind::Double => {
                lemma_u64_bytes_of_value(bytes);
            },
        }
    }
}

/// The kinds of a row of operands.
pub open spec fn kinds_of(operands: Seq<Operand>) -> Seq<OperandKind> {
    Seq::new(operands.len(), |i: int| operands[i].spec_kind())
}

/// The number of bytes that operands of the given kinds take together.
pub open spec fn kinds_size(kinds: Seq<OperandKind>) -> nat
    decreases kinds.len(),
{
    if kinds.len() == 0 {
        0
    } else {
        kinds_size(kinds.drop_last()) + kinds.last().spec_size()
    }
}

/// The bytes that a row of operands is written as: each operand's bytes, in order.
pub open spec fn operands_bytes(operands: Seq<Operand>) -> Seq<u8>
    decreases operands.len(),
{
    if operands.len() == 0 {
        Seq::empty()
    } else {
        operands_bytes(operands.drop_last()) + operands.last().spec_bytes()
    }
}

/// Operand `i` of a row of the given kinds that starts at `start` in `data`.
pub open spec fn operand_at(data: Seq<u8>, start: int, kinds: Seq<OperandKind>, i: int) -> Operand {
    let from = start + kinds_size(kinds.take(i));
    Operand::spec_parse(kinds[i], data.subrange(from, from + kinds[i].spec_size()))
}

/// The row of operands of the given kinds that starts at `start` in `data`.
pub open spec fn parse_operands(data: Seq<u8>, start: int, kinds: Seq<OperandKind>) -> Seq<Operand> {
    Seq::new(kinds.len(), |i: int| operand_at(data, start, kinds, i))
}

/// One more kind adds its size.
pub proof fn lemma_kinds_size_take(kinds: Seq<OperandKind>, i: int)
    requires
        0 <= i < kinds.len(),
    ensures
        kinds_size(kinds.take(i + 1)) == kinds_size(kinds.take(i)) + kinds[i].spec_size(),
{
    assert(kinds.take(i + 1).drop_last() =~= kinds.take(i));
}

/// A prefix of a row of kinds takes no more bytes than the row.
pub proof fn lemma_kinds_size_monotone(kinds: Seq<OperandKind>, i: int)
    requires
        0 <= i <= kinds.len(),
    ensures
        kinds_size(kinds.take(i)) <= kinds_size(kinds),
    decreases kinds.len() - i,
{
    if i < kinds.len() {
        lemma_kinds_size_take(kinds, i);
        lemma_kinds_size_monotone(kinds, i + 1);
    } else {
        assert(kinds.take(i) =~= kinds);
    }
}

/// A row of operands is written as many bytes as its kinds take.
pub proof fn lemma_operands_bytes_len(operands: Seq<Operand>)
    ensures
        operands_bytes(operands).len() == kinds_size(kinds_of(operands)),
    decreases operands.len(),
{
    if operands.len() > 0 {
        lemma_operands_bytes_len(operands.drop_last());
        operands.last().lemma_round_trip();
        assert(kinds_of(operands).drop_last() =~= kinds_of(operands.drop_last()));
    }
}

/// In the bytes of a written row, operand `i` lies where its kind says, and
/// is followed by whatever follows the row.
pub proof fn lemma_operand_in_row(operands: Seq<Operand>, i: int)
    requires
        0 <= i < operands.len(),
    ensures
        ({
            let from = kinds_size(kinds_of(operands).take(i)) as int;
            &&& from + operands[i].spec_kind().spec_size() <= operands_bytes(operands).len()
            &&& operands_bytes(operands).subrange(from, from + operands[i].spec_kind().spec_size())
                == operands[i].spec_bytes()
        }),
    decreases operands.len(),
{
    let kinds = kinds_of(operands);
    let front = operands.drop_last();
    let n = operands.len() as int;
    lemma_operands_bytes_len(operands);
    lemma_operands_bytes_len(front);
    operands[i].lemma_round_trip();
    operands.last().lemma_round_trip();
    assert(kinds.drop_last() =~= kinds_of(front));
    let from = kinds_size(kinds.take(i)) as int;
    if i == n - 1 {
        assert(kinds.take(i) =~= kinds_of(front));
        assert(operands_bytes(operands).subrange(from, from + operands[i].spec_kind().spec_size())
            =~= operands[i].spec_bytes());
    } else {
        lemma_operand_in_row(front, i);
        assert(kinds.take(i) =~= kinds_of(front).take(i));
        assert(operands_bytes(operands).subrange(from, from + operands[i].spec_kind().spec_size())
            =~= operands_bytes(front).subrange(
            from,
            from + operands[i].spec_kind().spec_size(),
        ));
    }
}

/// An operand whose bytes lie where its kind says reads as itself.
pub proof fn lemma_operand_at(
    data: Seq<u8>,
    start: int,
    kinds: Seq<OperandKind>,
    i: int,
    operand: Operand,
)
    requires
        0 <= i < kinds.len(),
        kinds[i] == operand.spec_kind(),
        data.subrange(
            start + kinds_size(kinds.take(i)),
            start + kinds_size(kinds.take(i)) + kinds[i].spec_size(),
        ) == operand.spec_bytes(),
    ensures
        operand_at(data, start, kinds, i) == operand,
{
    operand.lemma_round_trip();
}

/// A written row of operands, wherever it stands among other bytes, reads
/// back as the operands it was written from.
pub proof fn lemma_operands_round_trip(pre: Seq<u8>, operands: Seq<Operand>, post: Seq<u8>)
    ensures
        parse_operands(pre + operands_bytes(operands) + post, pre.len() as int, kinds_of(operands))
            == operands,
{
    let kinds = kinds_of(operands);
    let row = operands_bytes(operands);
    let data = pre + row + post;
    let start = pre.len() as int;
    let parsed = parse_operands(data, start, kinds);
    assert forall|i: int| 0 <= i < operands.len() implies parsed[i] == operands[i] by {
        lemma_operand_in_row(operands, i);
        let from = kinds_size(kinds.take(i)) as int;
        let size = operands[i].spec_kind().spec_size() as int;
        assert(kinds[i] == operands[i].spec_kind());
        assert(from + size <= row.len());
        assert(data.subrange(start + from, start + from + size) =~= row.subrange(from, from + size));
        lemma_operand_at(data, start, kinds, i, operands[i]);
    }
    assert(parsed =~= operands);
}

/// A row of operands followed by one more is written as the bytes of the
/// row followed by those of the one, and has the kinds of the row followed
/// by that of the one.
pub proof fn lemma_operands_push(operands: Seq<Operand>, last: Operand)
    ensures
        operands_bytes(operands.push(last)) == operands_bytes(operands) + last.spec_bytes(),
        kinds_of(operands.push(last)) == kinds_of(operands).push(last.spec_kind()),
{
    let whole = operands.push(last);
    assert(whole.drop_last() =~= operands);
    assert(whole.last() == last);
    assert(kinds_of(whole) =~= kinds_of(operands).push(last.spec_kind()));
}

/// The operands that a row of kinds reads are those that the row without
/// its last kind reads, followed by the operand that the last kind reads
/// behind them.
pub proof fn lemma_parse_operands_last(data: Seq<u8>, start: int, kinds: Seq<OperandKind>)
    requires
        kinds.len() > 0,
    ensures
        parse_operands(data, start, kinds) == parse_operands(data, start, kinds.drop_last()).push(
            Operand::spec_parse(
                kinds.last(),
                data.subrange(
                    start + kinds_size(kinds.drop_last()),
                    start + kinds_size(kinds.drop_last()) + kinds.last().spec_size(),
                ),
            ),
        ),
{
    let n = kinds.len() as int;
    let front = kinds.drop_last();
    let parsed = parse_operands(data, start, kinds);
    let from = start + kinds_size(front);
    let last = Operand::spec_parse(kinds.last(), data.subrange(from, from + kinds.last().spec_size()));
    let built = parse_operands(data, start, front).push(last);
    assert(kinds.take(n - 1) =~= front);
    assert forall|i: int| 0 <= i < n implies parsed[i] == built[i] by {
        if i < n - 1 {
            assert(front.take(i) =~= kinds.take(i));
            assert(front[i] == kinds[i]);
        }
    }
    assert(parsed =~= built);
}

/// The operands that bytes read as are of the kinds they were read by,
/// and are written as those bytes.
pub proof fn lemma_parsed_operands_bytes(data: Seq<u8>, start: int, kinds: Seq<OperandKind>)
    requires
        0 <= start,
        start + kinds_size(kinds) <= data.len(),
    ensures
        kinds_of(parse_operands(data, start, kinds)) == kinds,
        operands_bytes(parse_operands(data, start, kinds)) == data.subrange(
            start,
            start + kinds_size(kinds),
        ),
    decreases kinds.len(),
{
    if kinds.len() > 0 {
        let front = kinds.drop_last();
        let from = start + kinds_size(front);
        let size = kinds.last().spec_size() as int;
        let bytes = data.subrange(from, from + size);
        let last = Operand::spec_parse(kinds.last(), bytes);
        let before = parse_operands(data, start, front);
        lemma_parsed_operands_bytes(data, start, front);
        lemma_parse_operands_last(data, start, kinds);
        Operand::lemma_bytes_of_parsed(kinds.last(), bytes);
        lemma_operands_push(before, last);
        assert(front.push(kinds.last()) =~= kinds);
        assert(data.subrange(start, from) + bytes =~= data.subrange(start, start + kinds_size(kinds)));
    } else {
        assert(parse_operands(data, start, kinds) =~= Seq::<Operand>::empty());
        assert(kinds_of(parse_operands(data, start, kinds)) =~= kinds);
        assert(data.subrange(start, start + kinds_size(kinds)) =~= Seq::<u8>::empty());
    }
}

/// An instruction: its opcode byte and its operands.
#[derive(Debug, Clone, PartialEq, Eq)]
pub struct Instruction {
    pub op: u8,
    pub operands: Vec<Operand>,
}

impl Instruction {
    /// The bytes the instruction is written as: the opcode byte, then the operands.
    pub open spec fn spec_bytes(&self) -> Seq<u8> {
        seq![self.op] + operands_bytes(self.operands@)
    }

    /// Whether the operands are of the kinds that the version's table
    /// prescribes for the opcode.
    pub open spec fn well_formed(&self, version: u32) -> bool {
        spec_supported_version(version) && kinds_of(self.operands@) == spec_signature(
            version,
            self.op,
        )
    }

    /// The first operand that is a jump offset, as an unsigned number, or
    /// zero where there is none.
    pub open spec fn spec_address_field(operands: Seq<Operand>) -> u32
        decreases operands.len(),
    {
        if operands.len() == 0 {
            0
        } else if operands[0].spec_kind().spec_is_address() {
            operands[0].spec_as_u32()
        } else {
            Self::spec_address_field(operands.skip(1))
        }
    }

    /// An instruction with the given opcode and operands.
    pub fn new(op: u8, operands: Vec<Operand>) -> (i: Instruction)
        ensures
            i.op == op,
            i.operands@ == operands@,
    {
        Instruction { op, operands }
    }

    /// The instruction named `m` of a supported version, with the given
    /// operands. `None` where the version lacks the instruction or the
    /// operands are not of the kinds that the instruction takes.
    pub fn build(version: u32, m: Mnemonic, operands: Vec<Operand>) -> (res: Option<Instruction>)
        requires
            spec_supported_version(version),
        ensures
            match res {
                Some(i) => i.operands@ == operands@ && i.well_formed(version) && spec_is_defined(
                    version,
                    i.op,
                ) && spec_mnemonic(version, i.op) == m,
                None => forall|b: u8|
                    spec_is_defined(version, b) && spec_mnemonic(version, b) == m ==> kinds_of(
                        operands@,
                    ) != spec_signature(version, b),
            },
    {
        match mnemonic_to_op(version, m) {
            Some(op) => {
                let kinds = signature(version, op);
                if kinds.len() != operands.len() {
                    proof {
                        lemma_table_one_to_one(version, m, op);
                    }
                    return None;
                }
                let mut i: usize = 0;
                while i < kinds.len()
                    invariant
                        i <= kinds@.len(),
                        kinds@.len() == operands@.len(),
                        spec_supported_version(version),
                        spec_is_defined(version, op),
                        spec_mnemonic(version, op) == m,
                        kinds@ == spec_signature(version, op),
                        forall|j: int| 0 <= j < i ==> operands@[j].spec_kind() == kinds@[j],
                    decreases kinds@.len() - i,
                {
                    if !same_kind(operands[i].kind(), kinds[i]) {
                        proof {
                            lemma_table_one_to_one(version, m, op);
                            assert(kinds_of(operands@)[i as int] != kinds@[i as int]);
                        }
                        return None;
                    }
                    i = i + 1;
                }
                assert(kinds_of(operands@) =~= kinds@);
                Some(Instruction { op, operands })
            },
            None => None,
        }
    }

    /// The number of bytes the instruction is written as.
    pub fn size(&self) -> (n: usize)
        requires
            self.operands@.len() <= 0x1000_0000,
        ensures
            n == self.spec_bytes().len(),
            n == 1 + kinds_size(kinds_of(self.operands@)),
    {
        let mut n: usize = 1;
        let mut i: usize = 0;
        while i < self.operands.len()
            invariant
                i <= self.operands@.len() <= 0x1000_0000,
                n == 1 + kinds_size(kinds_of(self.operands@).take(i as int)),
                n <= 1 + 8 * i,
            decreases self.operands@.len() - i,
        {
            proof {
                lemma_kinds_size_take(kinds_of(self.operands@), i as int);
            }
            n = n + self.operands[i].size();
            i = i + 1;
        }
        proof {
            assert(kinds_of(self.operands@).take(i as int) =~= kinds_of(self.operands@));
            lemma_operands_bytes_len(self.operands@);
        }
        n
    }

    /// Appends the opcode byte and the operands.
    pub fn serialize(&self, w: &mut Writer)
        ensures
            final(w)@ == old(w)@ + self.spec_bytes(),
    {
        encode_u8(w, self.op);
        let mut i: usize = 0;
        while i < self.operands.len()
            invariant
                i <= self.operands@.len(),
                w@ == old(w)@ + seq![self.op] + operands_bytes(self.operands@.subrange(0, i as int)),
            decreases self.operands@.len() - i,
        {
            self.operands[i].serialize(w);
            proof {
                let next = self.operands@.subrange(0, i + 1);
                assert(next.drop_last() =~= self.operands@.subrange(0, i as int));
                assert(w@ =~= old(w)@ + seq![self.op] + operands_bytes(next));
            }
            i = i + 1;
        }
        assert(self.operands@.subrange(0, i as int) =~= self.operands@);
        assert(w@ =~= old(w)@ + self.spec_bytes());
    }

    /// Reads the operands that follow the opcode byte `op`, which the caller
    /// has read already. Fails with `UnsupportedVersion` where the version
    /// has no table here, and with `MalformedInput` where the bytes end
    /// before the operands do; the reader is then left where it was.
    pub fn deserialize(r: &mut Reader, version: u32, op: u8) -> (res: Result<
        Instruction,
        HermesError,
    >)
        ensures
            final(r).data@ == old(r).data@,
            match res {
                Ok(i) => {
                    let kinds = spec_signature(version, op);
                    &&& spec_supported_version(version)
                    &&& old(r).can_read(kinds_size(kinds) as int)
                    &&& i.op == op
                    &&& i.operands@ == parse_operands(old(r).data@, old(r).pos as int, kinds)
                    &&& i.well_formed(version)
                    &&& final(r).pos == old(r).pos + kinds_size(kinds)
                },
                Err(e) => {
                    &&& final(r).pos == old(r).pos
                    &&& (e == HermesError::UnsupportedVersion <==> !spec_supported_version(version))
                    &&& (e == HermesError::MalformedInput <==> spec_supported_version(version)
                        && !old(r).can_read(kinds_size(spec_signature(version, op)) as int))
                    &&& (e == HermesError::UnsupportedVersion || e == HermesError::MalformedInput)
                },
            },
    {
        if !supported_version(version) {
            return Err(HermesError::UnsupportedVersion);
        }
        let kinds = signature(version, op);
        let start: usize = r.position();
        let mut operands: Vec<Operand> = Vec::new();
        let mut i: usize = 0;
        if !r.has(0) {
            return Err(HermesError::MalformedInput);
        }
        while i < kinds.len()
            invariant
                i <= kinds@.len(),
                spec_supported_version(version),
                kinds@ == spec_signature(version, op),
                start == old(r).pos,
                r.data@ == old(r).data@,
                r.pos == start + kinds_size(kinds@.take(i as int)),
                r.pos <= r.data@.len(),
                operands@ == parse_operands(r.data@, start as int, kinds@).take(i as int),
            decreases kinds@.len() - i,
        {
            proof {
                lemma_kinds_size_take(kinds@, i as int);
                lemma_kinds_size_monotone(kinds@, i + 1);
            }
            match Operand::deserialize(r, kinds[i]) {
                Ok(v) => {
                    operands.push(v);
                    assert(operands@ =~= parse_operands(r.data@, start as int, kinds@).take(i + 1));
                },
                Err(e) => {
                    r.seek(start);
                    return Err(HermesError::MalformedInput);
                },
            }
            i = i + 1;
        }
        proof {
            assert(kinds@.take(i as int) =~= kinds@);
            assert(operands@ =~= parse_operands(r.data@, start as int, kinds@));
            assert(kinds_of(operands@) =~= kinds@);
        }
        Ok(Instruction { op, operands })
    }

    /// The first operand that is a jump offset, as an unsigned number, or
    /// zero where there is none.
    pub fn get_address_field(&self) -> (a: u32)
        ensures
            a == Self::spec_address_field(self.operands@),
    {
        let mut i: usize = 0;
        assert(self.operands@.skip(0) =~= self.operands@);
        while i < self.operands.len()
            invariant
                i <= self.operands@.len(),
                Self::spec_address_field(self.operands@) == Self::spec_address_field(
                    self.operands@.skip(i as int),
                ),
            decreases self.operands@.len() - i,
        {
            let ghost rest = self.operands@.skip(i as int);
            assert(rest[0] == self.operands@[i as int]);
            assert(rest.skip(1) =~= self.operands@.skip(i + 1));
            if self.operands[i].kind().is_address() {
                return self.operands[i].as_u32();
            }
            i = i + 1;
        }
        assert(self.operands@.skip(i as int).len() == 0);
        0
    }
}

/// Whether two operand kinds are the same.
pub fn same_kind(a: OperandKind, b: OperandKind) -> (r: bool)
    ensures
        r == (a == b),
{
    a == b
}

/// In a supported version no two defined bytes stand for the same instruction.
pub proof fn lemma_table_one_to_one(version: u32, m: Mnemonic, op: u8)
    requires
        spec_supported_version(version),
        spec_is_defined(version, op),
        spec_mnemonic(version, op) == m,
    ensures
        forall|b: u8| spec_is_defined(version, b) && spec_mnemonic(version, b) == m ==> b == op,
{
    crate::v84::lemma_mnemonic_of_opcode(m);
    crate::v95::lemma_mnemonic_of_opcode(m);
    assert forall|b: u8| spec_is_defined(version, b) && spec_mnemonic(version, b) == m implies b
        == op by {
        if version == 84 {
            crate::v84::lemma_opcode_of_mnemonic(b);
            crate::v84::lemma_opcode_of_mnemonic(op);
        } else {
            crate::v95::lemma_opcode_of_mnemonic(b);
            crate::v95::lemma_opcode_of_mnemonic(op);
        }
    }
}

/// Reading undoes writing: an instruction whose operands are of the kinds
/// its opcode takes is written as bytes whose operands read back as its own.
pub proof fn lemma_instruction_round_trip(i: Instruction, version: u32, pre: Seq<u8>, post: Seq<u8>)
    requires
        i.well_formed(version),
    ensures
        i.spec_bytes().len() == 1 + kinds_size(spec_signature(version, i.op)),
        i.spec_bytes()[0] == i.op,
        parse_operands(
            pre + i.spec_bytes() + post,
            pre.len() as int + 1,
            spec_signature(version, i.op),
        ) == i.operands@,
{
    lemma_operands_bytes_len(i.operands@);
    lemma_operands_round_trip(pre + seq![i.op], i.operands@, post);
    assert(pre + i.spec_bytes() + post =~= (pre + seq![i.op]) + operands_bytes(i.operands@) + post);
}

/// An instruction together with the bytecode version whose table it is read by.
#[derive(Debug, Clone, PartialEq, Eq)]
pub enum HermesInstruction {
    V84(Instruction),
    V95(Instruction),
}

impl HermesInstruction {
    /// The bytecode version.
    pub open spec fn spec_version(&self) -> u32 {
        match self {
            HermesInstruction::V84(_) => 84,
            HermesInstruction::V95(_) => 95,
        }
    }

    /// The instruction itself.
    pub open spec fn spec_instruction(&self) -> Instruction {
        match self {
            HermesInstruction::V84(i) => *i,
            HermesInstruction::V95(i) => *i,
        }
    }

    /// The instruction's name in its version's table.
    pub open spec fn spec_mnemonic(&self) -> Mnemonic {
        spec_mnemonic(self.spec_version(), self.spec_instruction().op)
    }

    /// Tags an instruction with a supported version.
    pub fn of_version(version: u32, instruction: Instruction) -> (res: Option<HermesInstruction>)
        ensures
            match res {
                Some(h) => spec_supported_version(version) && h.spec_version() == version
                    && h.spec_instruction() == instruction,
                None => !spec_supported_version(version),
            },
    {
        if version == 84 {
            Some(HermesInstruction::V84(instruction))
        } else if version == 95 {
            Some(HermesInstruction::V95(instruction))
        } else {
            None
        }
    }

    /// The bytecode version.
    pub fn version(&self) -> (v: u32)
        ensures
            v == self.spec_version(),
            spec_supported_version(v),
    {
        match self {
            HermesInstruction::V84(_) => 84,
            HermesInstruction::V95(_) => 95,
        }
    }

    /// The instruction itself.
    pub fn instruction(&self) -> (i: &Instruction)
        ensures
            *i == self.spec_instruction(),
    {
        match self {
            HermesInstruction::V84(i) => i,
            HermesInstruction::V95(i) => i,
        }
    }

    /// The instruction's name in its version's table.
    pub fn mnemonic(&self) -> (m: Mnemonic)
        ensures
            m == self.spec_mnemonic(),
    {
        op_to_mnemonic(self.version(), self.instruction().op)
    }

    /// Whether the instruction may transfer control to the address it carries.
    pub fn is_jmp(&self) -> (b: bool)
        ensures
            b == self.spec_mnemonic().spec_is_jmp(),
    {
        self.mnemonic().is_jmp()
    }

    /// Whether control comes back after the instruction.
    pub fn has_ret_target(&self) -> (b: bool)
        ensures
            b == self.spec_mnemonic().spec_has_ret_target(),
    {
        self.mnemonic().has_ret_target()
    }

    /// The first operand that is a jump offset, as an unsigned number, or
    /// zero where there is none.
    pub fn get_address_field(&self) -> (a: u32)
        ensures
            a == Instruction::spec_address_field(self.spec_instruction().operands@),
    {
        self.instruction().get_address_field()
    }

    /// The number of bytes the instruction is written as.
    pub fn size(&self) -> (n: usize)
        requires
            self.spec_instruction().operands@.len() <= 0x1000_0000,
        ensures
            n == self.spec_instruction().spec_bytes().len(),
            n == 1 + kinds_size(kinds_of(self.spec_instruction().operands@)),
    {
        self.instruction().size()
    }

    /// Appends the opcode byte and the operands.
    pub fn serialize(&self, w: &mut Writer)
        ensures
            final(w)@ == old(w)@ + self.spec_instruction().spec_bytes(),
    {
        self.instruction().serialize(w)
    }

    /// Reads the operands that follow the opcode byte `op` in a file of the
    /// given version.
    pub fn deserialize(r: &mut Reader, version: u32, op: u8) -> (res: Result<
        HermesInstruction,
        HermesError,
    >)
        ensures
            final(r).data@ == old(r).data@,
            match res {
                Ok(h) => {
                    let kinds = spec_signature(version, op);
                    &&& h.spec_version() == version
                    &&& old(r).can_read(kinds_size(kinds) as int)
                    &&& h.spec_instruction().op == op
                    &&& h.spec_instruction().operands@ == parse_operands(
                        old(r).data@,
                        old(r).pos as int,
                        kinds,
                    )
                    &&& h.spec_instruction().well_formed(version)
                    &&& final(r).pos == old(r).pos + kinds_size(kinds)
                },
                Err(e) => {
                    &&& final(r).pos == old(r).pos
                    &&& (e == HermesError::UnsupportedVersion <==> !spec_supported_version(version))
                    &&& (e == HermesError::MalformedInput <==> spec_supported_version(version)
                        && !old(r).can_read(kinds_size(spec_signature(version, op)) as int))
                    &&& (e == HermesError::UnsupportedVersion || e == HermesError::MalformedInput)
                },
            },
    {
        let i = Instruction::deserialize(r, version, op)?;
        if version == 84 {
            Ok(HermesInstruction::V84(i))
        } else {
            Ok(HermesInstruction::V95(i))
        }
    }
}

/// An instruction as plain values: its opcode byte and its operands.
pub struct InstructionView {
    pub op: u8,
    pub operands: Seq<Operand>,
}

impl View for Instruction {
    type V = InstructionView;

    open spec fn view(&self) -> InstructionView {
        InstructionView { op: self.op, operands: self.operands@ }
    }
}

/// A version-tagged instruction as plain values.
pub struct HermesInstructionView {
    pub version: u32,
    pub op: u8,
    pub operands: Seq<Operand>,
}

impl View for HermesInstruction {
    type V = HermesInstructionView;

    open spec fn view(&self) -> HermesInstructionView {
        HermesInstructionView {
            version: self.spec_version(),
            op: self.spec_instruction().op,
            operands: self.spec_instruction().operands@,
        }
    }
}

/// The plain values of each instruction of a row.
pub open spec fn instructions_view(list: Seq<HermesInstruction>) -> Seq<HermesInstructionView> {
    Seq::new(list.len(), |i: int| list[i]@)
}

/// The instructions that a function's bytecode reads as in a supported
/// version: an opcode byte, the operands its table entry prescribes, and so
/// on to the end. `None` where the bytes end in the middle of an instruction.
pub open spec fn spec_decode_stream(bytes: Seq<u8>, version: u32) -> Option<
    Seq<HermesInstructionView>,
>
    decreases bytes.len(),
{
    if bytes.len() == 0 {
        Some(Seq::empty())
    } else {
        let op = bytes[0];
        let kinds = spec_signature(version, op);
        let size = 1 + kinds_size(kinds);
        if size > bytes.len() {
            None
        } else {
            match spec_decode_stream(bytes.skip(size as int), version) {
                Some(rest) => Some(
                    seq![
                        HermesInstructionView {
                            version,
                            op,
                            operands: parse_operands(bytes, 1, kinds),
                        },
                    ] + rest,
                ),
                None => None,
            }
        }
    }
}

/// The bytes that a row of instructions is written as.
pub open spec fn stream_bytes(list: Seq<HermesInstructionView>) -> Seq<u8>
    decreases list.len(),
{
    if list.len() == 0 {
        Seq::empty()
    } else {
        seq![list[0].op] + operands_bytes(list[0].operands) + stream_bytes(list.drop_first())
    }
}

/// Writing undoes reading, for whole functions: the instructions that
/// bytes read as are written as those bytes, and each has the operands that
/// the version's table prescribes for its opcode.
pub proof fn lemma_decoded_stream_bytes(bytes: Seq<u8>, version: u32)
    requires
        spec_decode_stream(bytes, version) is Some,
    ensures
        stream_bytes(spec_decode_stream(bytes, version).unwrap()) == bytes,
        stream_well_formed(spec_decode_stream(bytes, version).unwrap(), version),
    decreases bytes.len(),
{
    let list = spec_decode_stream(bytes, version).unwrap();
    if bytes.len() > 0 {
        let op = bytes[0];
        let kinds = spec_signature(version, op);
        let size = 1 + kinds_size(kinds);
        let tail = bytes.skip(size as int);
        let rest = spec_decode_stream(tail, version).unwrap();
        lemma_decoded_stream_bytes(tail, version);
        lemma_parsed_operands_bytes(bytes, 1, kinds);
        assert(list.drop_first() =~= rest);
        assert(list[0].operands == parse_operands(bytes, 1, kinds));
        assert(stream_bytes(list) =~= bytes);
        assert forall|i: int| 0 <= i < list.len() implies (#[trigger] list[i]).version == version
            && kinds_of(list[i].operands) == spec_signature(version, list[i].op) by {
            if i > 0 {
                assert(list[i] == rest[i - 1]);
            }
        }
    }
}

/// A row of instructions followed by one more is written as the bytes of
/// the row followed by those of the one.
pub proof fn lemma_stream_bytes_push(list: Seq<HermesInstructionView>, last: HermesInstructionView)
    ensures
        stream_bytes(list.push(last)) == stream_bytes(list) + (seq![last.op] + operands_bytes(
            last.operands,
        )),
    decreases list.len(),
{
    let whole = list.push(last);
    if list.len() == 0 {
        assert(whole.drop_first() =~= Seq::<HermesInstructionView>::empty());
        assert(whole[0] == last);
        assert(stream_bytes(whole.drop_first()) =~= Seq::<u8>::empty());
        assert(stream_bytes(list) =~= Seq::<u8>::empty());
        assert(stream_bytes(whole) =~= stream_bytes(list) + (seq![last.op] + operands_bytes(
            last.operands,
        )));
    } else {
        lemma_stream_bytes_push(list.drop_first(), last);
        assert(whole.drop_first() =~= list.drop_first().push(last));
        assert(whole[0] == list[0]);
        assert(stream_bytes(whole) =~= stream_bytes(list) + (seq![last.op] + operands_bytes(
            last.operands,
        )));
    }
}

/// Every instruction of the row belongs to `version` and has the operands
/// that the version's table prescribes for its opcode.
pub open spec fn stream_well_formed(list: Seq<HermesInstructionView>, version: u32) -> bool {
    forall|i: int|
        0 <= i < list.len() ==> (#[trigger] list[i]).version == version && kinds_of(list[i].operands)
            == spec_signature(version, list[i].op)
}

/// Reading undoes writing, for whole functions: a row of instructions that
/// belong to a supported version is written as bytes that read back as the
/// same row.
pub proof fn lemma_stream_round_trip(list: Seq<HermesInstructionView>, version: u32)
    requires
        stream_well_formed(list, version),
    ensures
        spec_decode_stream(stream_bytes(list), version) == Some(list),
    decreases list.len(),
{
    if list.len() > 0 {
        let first = list[0];
        let rest = list.drop_first();
        let bytes = stream_bytes(list);
        let kinds = spec_signature(version, first.op);
        assert forall|i: int| 0 <= i < rest.len() implies (#[trigger] rest[i]).version == version
            && kinds_of(rest[i].operands) == spec_signature(version, rest[i].op) by {
            assert(rest[i] == list[i + 1]);
        }
        lemma_stream_round_trip(rest, version);
        lemma_operands_bytes_len(first.operands);
        lemma_operands_round_trip(seq![first.op], first.operands, stream_bytes(rest));
        let size = 1 + kinds_size(kinds);
        assert(bytes.skip(size as int) =~= stream_bytes(rest));
        assert(bytes =~= seq![first.op] + operands_bytes(first.operands) + stream_bytes(rest));
        assert(seq![first] + rest =~= list);
    }
}

/// What the bytes from `here` on read as, in terms of the instruction at
/// `here` and the bytes behind it.
pub proof fn lemma_decode_step(all: Seq<u8>, here: int, version: u32)
    requires
        0 <= here < all.len(),
    ensures
        ({
            let op = all[here];
            let kinds = spec_signature(version, op);
            let size = 1 + kinds_size(kinds);
            spec_decode_stream(all.skip(here), version) == (if here + size > all.len() {
                None
            } else {
                match spec_decode_stream(all.skip(here + size), version) {
                    Some(rest) => Some(
                        seq![
                            HermesInstructionView {
                                version,
                                op,
                                operands: parse_operands(all, here + 1, kinds),
                            },
                        ] + rest,
                    ),
                    None => None,
                }
            })
        }),
{
    let tail = all.skip(here);
    let op = all[here];
    let kinds = spec_signature(version, op);
    let size = 1 + kinds_size(kinds);
    assert(tail[0] == op);
    if here + size <= all.len() {
        assert(tail.skip(size as int) =~= all.skip(here + size));
        assert forall|i: int| 0 <= i < kinds.len() implies operand_at(tail, 1, kinds, i) == operand_at(
            all,
            here + 1,
            kinds,
            i,
        ) by {
            lemma_kinds_size_take(kinds, i);
            lemma_kinds_size_monotone(kinds, i + 1);
            let from = kinds_size(kinds.take(i)) as int;
            assert(tail.subrange(1 + from, 1 + from + kinds[i].spec_size()) =~= all.subrange(
                here + 1 + from,
                here + 1 + from + kinds[i].spec_size(),
            ));
        }
        assert(parse_operands(tail, 1, kinds) =~= parse_operands(all, here + 1, kinds));
    }
}

/// Decodes the instructions of a function's bytecode. Fails with
/// `UnsupportedVersion` where the version has no table here, and with
/// `MalformedInput` where the bytes end in the middle of an instruction.
pub fn decode_stream(bytes: Vec<u8>, version: u32) -> (res: Result<
    Vec<HermesInstruction>,
    HermesError,
>)
    ensures
        match res {
            Ok(list) => spec_supported_version(version) && spec_decode_stream(bytes@, version)
                == Some(instructions_view(list@)) && forall|i: int|
                0 <= i < list@.len() ==> (#[trigger] list@[i])@.operands.len() <= 6
                    && list@[i]@.version == version,
            Err(e) => if spec_supported_version(version) {
                e == HermesError::MalformedInput && spec_decode_stream(bytes@, version) is None
            } else {
                e == HermesError::UnsupportedVersion
            },
        },
{
    if !supported_version(version) {
        return Err(HermesError::UnsupportedVersion);
    }
    let ghost all = bytes@;
    let total: usize = bytes.len();
    let mut r = Reader::new(bytes);
    let mut list: Vec<HermesInstruction> = Vec::new();
    assert(all.skip(0) =~= all);
    while r.pos < total
        invariant
            spec_supported_version(version),
            all == bytes@,
            r.data@ == all,
            total == all.len(),
            r.pos <= total,
            forall|i: int|
                0 <= i < list@.len() ==> (#[trigger] list@[i])@.operands.len() <= 6 && list@[i]@.version
                    == version,
            match spec_decode_stream(all.skip(r.pos as int), version) {
                Some(rest) => spec_decode_stream(all, version) == Some(instructions_view(list@) + rest),
                None => spec_decode_stream(all, version) is None,
            },
        decreases total - r.pos,
    {
        let ghost here = r.pos as int;
        let ghost tail = all.skip(here);
        let ghost before = instructions_view(list@);
        let op = match crate::decode::decode_u8(&mut r) {
            Ok(op) => op,
            Err(e) => {
                return Err(HermesError::MalformedInput);
            },
        };
        assert(tail[0] == op);
        let ghost kinds = spec_signature(version, op);
        let ghost size = 1 + kinds_size(kinds);
        match HermesInstruction::deserialize(&mut r, version, op) {
            Ok(ins) => {
                proof {
                    lemma_decode_step(all, here, version);
                    lemma_signature_bound(version, op);
                }
                let ghost listed = list@;
                list.push(ins);
                assert forall|i: int| 0 <= i < list@.len() implies (#[trigger] list@[i])@.operands.len()
                    <= 6 && list@[i]@.version == version by {
                    if i < listed.len() {
                        assert(list@[i] == listed[i]);
                    }
                }
                proof {
                    assert(instructions_view(list@) =~= before.push(ins@));
                    match spec_decode_stream(all.skip(r.pos as int), version) {
                        Some(rest) => {
                            assert(before + (seq![ins@] + rest) =~= instructions_view(list@) + rest);
                        },
                        None => {},
                    }
                }
            },
            Err(e) => {
                proof {
                    lemma_decode_step(all, here, version);
                }
                return Err(HermesError::MalformedInput);
            },
        }
    }
    proof {
        assert(all.skip(r.pos as int).len() == 0);
        assert(instructions_view(list@) + Seq::empty() =~= instructions_view(list@));
    }
    Ok(list)
}

/// A function has no more instructions than bytes.
pub proof fn lemma_decode_stream_len(bytes: Seq<u8>, version: u32)
    requires
        spec_decode_stream(bytes, version) is Some,
    ensures
        spec_decode_stream(bytes, version).unwrap().len() <= bytes.len(),
    decreases bytes.len(),
{
    if bytes.len() > 0 {
        let size = 1 + kinds_size(spec_signature(version, bytes[0]));
        lemma_decode_stream_len(bytes.skip(size as int), version);
    }
}

/// An instruction of one version, which can be tagged with its version.
pub trait IntoParentInstruction: Sized {
    /// The version that the instruction belongs to.
    spec fn parent_version(&self) -> u32;

    /// The instruction itself.
    spec fn parent_instruction(&self) -> Instruction;

    /// The instruction tagged with its version.
    fn into_parent(self) -> (h: HermesInstruction)
        ensures
            h.spec_version() == self.parent_version(),
            h.spec_instruction() == self.parent_instruction(),
    ;
}

/// What an instruction offers, whatever its version: its codec, its size,
/// and what it is with regard to control flow.
pub trait InstructionParser: Sized {
    /// The instruction as plain values.
    spec fn parsed(&self) -> HermesInstructionView;

    /// Reads the operands that follow the opcode byte `op` in a file of
    /// the given version.
    fn deserialize(r: &mut Reader, version: u32, op: u8) -> (res: Result<Self, HermesError>)
        ensures
            final(r).data@ == old(r).data@,
            match res {
                Ok(v) => {
                    let kinds = spec_signature(version, op);
                    &&& spec_supported_version(version)
                    &&& v.parsed() == (HermesInstructionView {
                        version,
                        op,
                        operands: parse_operands(old(r).data@, old(r).pos as int, kinds),
                    })
                    &&& final(r).pos == old(r).pos + kinds_size(kinds)
                },
                Err(e) => final(r).pos == old(r).pos && (e == HermesError::UnsupportedVersion
                    || e == HermesError::MalformedInput),
            },
    ;

    /// Appends the opcode byte and the operands.
    fn serialize(&self, w: &mut Writer)
        ensures
            final(w)@ == old(w)@ + seq![self.parsed().op] + operands_bytes(self.parsed().operands),
    ;

    /// The number of bytes the instruction is written as.
    fn size(&self) -> (n: usize)
        requires
            self.parsed().operands.len() <= 0x1000_0000,
        ensures
            n == 1 + kinds_size(kinds_of(self.parsed().operands)),
    ;

    /// Whether control comes back after the instruction.
    fn has_ret_target(&self) -> (b: bool)
        ensures
            b == spec_mnemonic(self.parsed().version, self.parsed().op).spec_has_ret_target(),
    ;

    /// Whether the instruction may transfer control to the address it carries.
    fn is_jmp(&self) -> (b: bool)
        ensures
            b == spec_mnemonic(self.parsed().version, self.parsed().op).spec_is_jmp(),
    ;

    /// The first operand that is a jump offset, as an unsigned number, or
    /// zero where there is none.
    fn get_address_field(&self) -> (a: u32)
        ensures
            a == Instruction::spec_address_field(self.parsed().operands),
    ;
}

impl InstructionParser for HermesInstruction {
    open spec fn parsed(&self) -> HermesInstructionView {
        self@
    }

    fn deserialize(r: &mut Reader, version: u32, op: u8) -> (res: Result<Self, HermesError>) {
        HermesInstruction::deserialize(r, version, op)
    }

    fn serialize(&self, w: &mut Writer) {
        HermesInstruction::serialize(self, w);
        assert(w@ =~= old(w)@ + seq![self@.op] + operands_bytes(self@.operands));
    }

    fn size(&self) -> (n: usize) {
        HermesInstruction::size(self)
    }

    fn has_ret_target(&self) -> (b: bool) {
        HermesInstruction::has_ret_target(self)
    }

    fn is_jmp(&self) -> (b: bool) {
        HermesInstruction::is_jmp(self)
    }

    fn get_address_field(&self) -> (a: u32) {
        HermesInstruction::get_address_field(self)
    }
}

/// The instruction with the given name, if there is one.
pub fn mnemonic_from_name(name: &str) -> (res: Option<Mnemonic>)
    ensures
        match res {
            Some(m) => m.spec_name() == name@,
            None => forall|m: Mnemonic| m.spec_name() != name@,
        },
{
    let wanted = crate::text::chars_of(name);
    let mut op: u8 = 0;
    loop
        invariant
            op <= crate::v95::MAX_OPCODE,
            wanted@ == name@,
            forall|b: u8| b < op ==> (#[trigger] crate::v95::spec_mnemonic(b)).spec_name() != name@,
        decreases crate::v95::MAX_OPCODE - op,
    {
        let m = crate::v95::op_to_mnemonic(op);
        let shown = crate::text::chars_of(m.name());
        if crate::text::same_chars(&shown, &wanted) {
            return Some(m);
        }
        if op == crate::v95::MAX_OPCODE {
            proof {
                assert forall|m: Mnemonic| m.spec_name() != name@ by {
                    crate::v95::lemma_every_mnemonic_has_opcode(m);
                    crate::v95::lemma_mnemonic_of_opcode(m);
                    let b = crate::v95::spec_opcode(m).unwrap();
                    assert(crate::v95::spec_mnemonic(b) == m);
                }
            }
            return None;
        }
        op = op + 1;
    }
}

/// The byte that stands for the instruction named `instr` in a supported
/// version, if the version has an instruction of that name.
pub fn find_op(version: u32, instr: &str) -> (res: Option<u8>)
    requires
        spec_supported_version(version),
    ensures
        match res {
            Some(b) => spec_is_defined(version, b) && spec_mnemonic(version, b).spec_name() == instr@,
            None => forall|b: u8|
                spec_is_defined(version, b) ==> (#[trigger] spec_mnemonic(version, b)).spec_name()
                    != instr@,
        },
{
    let wanted = crate::text::chars_of(instr);
    let last: u8 = if version == 84 { crate::v84::MAX_OPCODE } else { crate::v95::MAX_OPCODE };
    let mut op: u8 = 0;
    loop
        invariant
            spec_supported_version(version),
            op <= last,
            last == (if version == 84 { crate::v84::MAX_OPCODE } else { crate::v95::MAX_OPCODE }),
            wanted@ == instr@,
            forall|b: u8| b < op ==> (#[trigger] spec_mnemonic(version, b)).spec_name() != instr@,
        decreases last - op,
    {
        let shown = crate::text::chars_of(op_to_mnemonic(version, op).name());
        if crate::text::same_chars(&shown, &wanted) {
            return Some(op);
        }
        if op == last {
            return None;
        }
        op = op + 1;
    }
}

/// The byte that stands for the instruction named `instr` in a supported
/// version, or zero where the version has no instruction of that name. Zero
/// is also the byte of `Unreachable`: `find_op` tells the two apart.
pub fn str_to_op(version: u32, instr: &str) -> (res: u8)
    requires
        spec_supported_version(version),
    ensures
        (spec_is_defined(version, res) && spec_mnemonic(version, res).spec_name() == instr@) || (res
            == 0 && forall|b: u8|
            spec_is_defined(version, b) ==> (#[trigger] spec_mnemonic(version, b)).spec_name()
                != instr@),
{
    match find_op(version, instr) {
        Some(b) => b,
        None => 0,
    }
}

} // verus!
