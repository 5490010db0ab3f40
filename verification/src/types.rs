//! The typed operands of instructions. Each wraps the number that the
//! bytecode stores and says what the number is: a register, a jump offset,
//! an immediate, or an index into one of the file's tables.

use vstd::prelude::*;
use vstd::std_specs::convert::FromSpecImpl;

verus! {

/// A register number that fits one byte.
#[derive(Debug, Clone, Copy, PartialEq, Eq, Structural)]
pub struct Reg8(pub u8);

impl Reg8 {
    /// The number wrapped.
    pub fn value(self) -> (v: u8)
        ensures
            v == self.0,
    {
        self.0
    }
}

impl Default for Reg8 {
    fn default() -> (r: Self)
        ensures
            r.0 == 0,
    {
        Reg8(0)
    }
}

impl From<u8> for Reg8 {
    fn from(value: u8) -> (r: Self) {
        Reg8(value)
    }
}

impl FromSpecImpl<u8> for Reg8 {
    open spec fn obeys_from_spec() -> bool {
        true
    }

    open spec fn from_spec(value: u8) -> Self {
        Reg8(value)
    }
}

impl From<Reg8> for u8 {
    fn from(value: Reg8) -> (r: Self) {
        value.0
    }
}

impl FromSpecImpl<Reg8> for u8 {
    open spec fn obeys_from_spec() -> bool {
        true
    }

    open spec fn from_spec(value: Reg8) -> Self {
        value.0
    }
}

/// A register number held in four bytes.
#[derive(Debug, Clone, Copy, PartialEq, Eq, Structural)]
pub struct Reg32(pub u32);

impl Reg32 {
    /// The number wrapped.
    pub fn value(self) -> (v: u32)
        ensures
            v == self.0,
    {
        self.0
    }
}

impl Default for Reg32 {
    fn default() -> (r: Self)
        ensures
            r.0 == 0,
    {
        Reg32(0)
    }
}

impl From<u32> for Reg32 {
    fn from(value: u32) -> (r: Self) {
        Reg32(value)
    }
}

impl FromSpecImpl<u32> for Reg32 {
    open spec fn obeys_from_spec() -> bool {
        true
    }

    open spec fn from_spec(value: u32) -> Self {
        Reg32(value)
    }
}

impl From<Reg32> for u32 {
    fn from(value: Reg32) -> (r: Self) {
        value.0
    }
}

impl FromSpecImpl<Reg32> for u32 {
    open spec fn obeys_from_spec() -> bool {
        true
    }

    open spec fn from_spec(value: Reg32) -> Self {
        value.0
    }
}

/// A one-byte unsigned immediate.
#[derive(Debug, Clone, Copy, PartialEq, Eq, Structural)]
pub struct UInt8(pub u8);

impl UInt8 {
    /// The number wrapped.
    pub fn value(self) -> (v: u8)
        ensures
            v == self.0,
    {
        self.0
    }
}

impl Default for UInt8 {
    fn default() -> (r: Self)
        ensures
            r.0 == 0,
    {
        UInt8(0)
    }
}

impl From<u8> for UInt8 {
    fn from(value: u8) -> (r: Self) {
        UInt8(value)
    }
}

impl FromSpecImpl<u8> for UInt8 {
    open spec fn obeys_from_spec() -> bool {
        true
    }

    open spec fn from_spec(value: u8) -> Self {
        UInt8(value)
    }
}

impl From<UInt8> for u8 {
    fn from(value: UInt8) -> (r: Self) {
        value.0
    }
}

impl FromSpecImpl<UInt8> for u8 {
    open spec fn obeys_from_spec() -> bool {
        true
    }

    open spec fn from_spec(value: UInt8) -> Self {
        value.0
    }
}

/// A two-byte unsigned immediate.
#[derive(Debug, Clone, Copy, PartialEq, Eq, Structural)]
pub struct UInt16(pub u16);

impl UInt16 {
    /// The number wrapped.
    pub fn value(self) -> (v: u16)
        ensures
            v == self.0,
    {
        self.0
    }
}

impl Default for UInt16 {
    fn default() -> (r: Self)
        ensures
            r.0 == 0,
    {
        UInt16(0)
    }
}

impl From<u16> for UInt16 {
    fn from(value: u16) -> (r: Self) {
        UInt16(value)
    }
}

impl FromSpecImpl<u16> for UInt16 {
    open spec fn obeys_from_spec() -> bool {
        true
    }

    open spec fn from_spec(value: u16) -> Self {
        UInt16(value)
    }
}

impl From<UInt16> for u16 {
    fn from(value: UInt16) -> (r: Self) {
        value.0
    }
}

impl FromSpecImpl<UInt16> for u16 {
    open spec fn obeys_from_spec() -> bool {
        true
    }

    open spec fn from_spec(value: UInt16) -> Self {
        value.0
    }
}

/// A four-byte unsigned immediate.
#[derive(Debug, Clone, Copy, PartialEq, Eq, Structural)]
pub struct UInt32(pub u32);

impl UInt32 {
    /// The number wrapped.
    pub fn value(self) -> (v: u32)
        ensures
            v == self.0,
    {
        self.0
    }
}

impl Default for UInt32 {
    fn default() -> (r: Self)
        ensures
            r.0 == 0,
    {
        UInt32(0)
    }
}

impl From<u32> for UInt32 {
    fn from(value: u32) -> (r: Self) {
        UInt32(value)
    }
}

impl FromSpecImpl<u32> for UInt32 {
    open spec fn obeys_from_spec() -> bool {
        true
    }

    open spec fn from_spec(value: u32) -> Self {
        UInt32(value)
    }
}

impl From<UInt32> for u32 {
    fn from(value: UInt32) -> (r: Self) {
        value.0
    }
}

impl FromSpecImpl<UInt32> for u32 {
    open spec fn obeys_from_spec() -> bool {
        true
    }

    open spec fn from_spec(value: UInt32) -> Self {
        value.0
    }
}

/// A one-byte signed jump offset.
#[derive(Debug, Clone, Copy, PartialEq, Eq, Structural)]
pub struct Addr8(pub i8);

impl Addr8 {
    /// The number wrapped.
    pub fn value(self) -> (v: i8)
        ensures
            v == self.0,
    {
        self.0
    }
}

impl Default for Addr8 {
    fn default() -> (r: Self)
        ensures
            r.0 == 0,
    {
        Addr8(0)
    }
}

impl From<i8> for Addr8 {
    fn from(value: i8) -> (r: Self) {
        Addr8(value)
    }
}

impl FromSpecImpl<i8> for Addr8 {
    open spec fn obeys_from_spec() -> bool {
        true
    }

    open spec fn from_spec(value: i8) -> Self {
        Addr8(value)
    }
}

impl From<Addr8> for i8 {
    fn from(value: Addr8) -> (r: Self) {
        value.0
    }
}

impl FromSpecImpl<Addr8> for i8 {
    open spec fn obeys_from_spec() -> bool {
        true
    }

    open spec fn from_spec(value: Addr8) -> Self {
        value.0
    }
}

/// A four-byte signed jump offset.
#[derive(Debug, Clone, Copy, PartialEq, Eq, Structural)]
pub struct Addr32(pub i32);

impl Addr32 {
    /// The number wrapped.
    pub fn value(self) -> (v: i32)
        ensures
            v == self.0,
    {
        self.0
    }
}

impl Default for Addr32 {
    fn default() -> (r: Self)
        ensures
            r.0 == 0,
    {
        Addr32(0)
    }
}

impl From<i32> for Addr32 {
    fn from(value: i32) -> (r: Self) {
        Addr32(value)
    }
}

impl FromSpecImpl<i32> for Addr32 {
    open spec fn obeys_from_spec() -> bool {
        true
    }

    open spec fn from_spec(value: i32) -> Self {
        Addr32(value)
    }
}

impl From<Addr32> for i32 {
    fn from(value: Addr32) -> (r: Self) {
        value.0
    }
}

impl FromSpecImpl<Addr32> for i32 {
    open spec fn obeys_from_spec() -> bool {
        true
    }

    open spec fn from_spec(value: Addr32) -> Self {
        value.0
    }
}

/// A four-byte signed immediate.
#[derive(Debug, Clone, Copy, PartialEq, Eq, Structural)]
pub struct Imm32(pub i32);

impl Imm32 {
    /// The number wrapped.
    pub fn value(self) -> (v: i32)
        ensures
            v == self.0,
    {
        self.0
    }
}

impl Default for Imm32 {
    fn default() -> (r: Self)
        ensures
            r.0 == 0,
    {
        Imm32(0)
    }
}

impl From<i32> for Imm32 {
    fn from(value: i32) -> (r: Self) {
        Imm32(value)
    }
}

impl FromSpecImpl<i32> for Imm32 {
    open spec fn obeys_from_spec() -> bool {
        true
    }

    open spec fn from_spec(value: i32) -> Self {
        Imm32(value)
    }
}

impl From<Imm32> for i32 {
    fn from(value: Imm32) -> (r: Self) {
        value.0
    }
}

impl FromSpecImpl<Imm32> for i32 {
    open spec fn obeys_from_spec() -> bool {
        true
    }

    open spec fn from_spec(value: Imm32) -> Self {
        value.0
    }
}

/// A double-precision immediate, held as the 64 bits of its IEEE-754 form.
#[derive(Debug, Clone, Copy, PartialEq, Eq, Structural)]
pub struct Double(pub u64);

impl Double {
    /// The number wrapped.
    pub fn value(self) -> (v: u64)
        ensures
            v == self.0,
    {
        self.0
    }
}

impl Default for Double {
    fn default() -> (r: Self)
        ensures
            r.0 == 0,
    {
        Double(0)
    }
}

impl From<u64> for Double {
    fn from(value: u64) -> (r: Self) {
        Double(value)
    }
}

impl FromSpecImpl<u64> for Double {
    open spec fn obeys_from_spec() -> bool {
        true
    }

    open spec fn from_spec(value: u64) -> Self {
        Double(value)
    }
}

impl From<Double> for u64 {
    fn from(value: Double) -> (r: Self) {
        value.0
    }
}

impl FromSpecImpl<Double> for u64 {
    open spec fn obeys_from_spec() -> bool {
        true
    }

    open spec fn from_spec(value: Double) -> Self {
        value.0
    }
}

/// A one-byte index into the string table.
#[derive(Debug, Clone, Copy, PartialEq, Eq, Structural)]
pub struct StringIDUInt8(pub u8);

impl StringIDUInt8 {
    /// The number wrapped.
    pub fn value(self) -> (v: u8)
        ensures
            v == self.0,
    {
        self.0
    }
}

impl Default for StringIDUInt8 {
    fn default() -> (r: Self)
        ensures
            r.0 == 0,
    {
        StringIDUInt8(0)
    }
}

impl From<u8> for StringIDUInt8 {
    fn from(value: u8) -> (r: Self) {
        StringIDUInt8(value)
    }
}

impl FromSpecImpl<u8> for StringIDUInt8 {
    open spec fn obeys_from_spec() -> bool {
        true
    }

    open spec fn from_spec(value: u8) -> Self {
        StringIDUInt8(value)
    }
}

impl From<StringIDUInt8> for u8 {
    fn from(value: StringIDUInt8) -> (r: Self) {
        value.0
    }
}

impl FromSpecImpl<StringIDUInt8> for u8 {
    open spec fn obeys_from_spec() -> bool {
        true
    }

    open spec fn from_spec(value: StringIDUInt8) -> Self {
        value.0
    }
}

/// A two-byte index into the string table.
#[derive(Debug, Clone, Copy, PartialEq, Eq, Structural)]
pub struct StringIDUInt16(pub u16);

impl StringIDUInt16 {
    /// The number wrapped.
    pub fn value(self) -> (v: u16)
        ensures
            v == self.0,
    {
        self.0
    }
}

impl Default for StringIDUInt16 {
    fn default() -> (r: Self)
        ensures
            r.0 == 0,
    {
        StringIDUInt16(0)
    }
}

impl From<u16> for StringIDUInt16 {
    fn from(value: u16) -> (r: Self) {
        StringIDUInt16(value)
    }
}

impl FromSpecImpl<u16> for StringIDUInt16 {
    open spec fn obeys_from_spec() -> bool {
        true
    }

    open spec fn from_spec(value: u16) -> Self {
        StringIDUInt16(value)
    }
}

impl From<StringIDUInt16> for u16 {
    fn from(value: StringIDUInt16) -> (r: Self) {
        value.0
    }
}

impl FromSpecImpl<StringIDUInt16> for u16 {
    open spec fn obeys_from_spec() -> bool {
        true
    }

    open spec fn from_spec(value: StringIDUInt16) -> Self {
        value.0
    }
}

/// A four-byte index into the string table.
#[derive(Debug, Clone, Copy, PartialEq, Eq, Structural)]
pub struct StringIDUInt32(pub u32);

impl StringIDUInt32 {
    /// The number wrapped.
    pub fn value(self) -> (v: u32)
        ensures
            v == self.0,
    {
        self.0
    }
}

impl Default for StringIDUInt32 {
    fn default() -> (r: Self)
        ensures
            r.0 == 0,
    {
        StringIDUInt32(0)
    }
}

impl From<u32> for StringIDUInt32 {
    fn from(value: u32) -> (r: Self) {
        StringIDUInt32(value)
    }
}

impl FromSpecImpl<u32> for StringIDUInt32 {
    open spec fn obeys_from_spec() -> bool {
        true
    }

    open spec fn from_spec(value: u32) -> Self {
        StringIDUInt32(value)
    }
}

impl From<StringIDUInt32> for u32 {
    fn from(value: StringIDUInt32) -> (r: Self) {
        value.0
    }
}

impl FromSpecImpl<StringIDUInt32> for u32 {
    open spec fn obeys_from_spec() -> bool {
        true
    }

    open spec fn from_spec(value: StringIDUInt32) -> Self {
        value.0
    }
}

/// A one-byte index into the function table.
#[derive(Debug, Clone, Copy, PartialEq, Eq, Structural)]
pub struct FunctionIDUInt8(pub u8);

impl FunctionIDUInt8 {
    /// The number wrapped.
    pub fn value(self) -> (v: u8)
        ensures
            v == self.0,
    {
        self.0
    }
}

impl Default for FunctionIDUInt8 {
    fn default() -> (r: Self)
        ensures
            r.0 == 0,
    {
        FunctionIDUInt8(0)
    }
}

impl From<u8> for FunctionIDUInt8 {
    fn from(value: u8) -> (r: Self) {
        FunctionIDUInt8(value)
    }
}

impl FromSpecImpl<u8> for FunctionIDUInt8 {
    open spec fn obeys_from_spec() -> bool {
        true
    }

    open spec fn from_spec(value: u8) -> Self {
        FunctionIDUInt8(value)
    }
}

impl From<FunctionIDUInt8> for u8 {
    fn from(value: FunctionIDUInt8) -> (r: Self) {
        value.0
    }
}

impl FromSpecImpl<FunctionIDUInt8> for u8 {
    open spec fn obeys_from_spec() -> bool {
        true
    }

    open spec fn from_spec(value: FunctionIDUInt8) -> Self {
        value.0
    }
}

/// A two-byte index into the function table.
#[derive(Debug, Clone, Copy, PartialEq, Eq, Structural)]
pub struct FunctionIDUInt16(pub u16);

impl FunctionIDUInt16 {
    /// The number wrapped.
    pub fn value(self) -> (v: u16)
        ensures
            v == self.0,
    {
        self.0
    }
}

impl Default for FunctionIDUInt16 {
    fn default() -> (r: Self)
        ensures
            r.0 == 0,
    {
        FunctionIDUInt16(0)
    }
}

impl From<u16> for FunctionIDUInt16 {
    fn from(value: u16) -> (r: Self) {
        FunctionIDUInt16(value)
    }
}

impl FromSpecImpl<u16> for FunctionIDUInt16 {
    open spec fn obeys_from_spec() -> bool {
        true
    }

    open spec fn from_spec(value: u16) -> Self {
        FunctionIDUInt16(value)
    }
}

impl From<FunctionIDUInt16> for u16 {
    fn from(value: FunctionIDUInt16) -> (r: Self) {
        value.0
    }
}

impl FromSpecImpl<FunctionIDUInt16> for u16 {
    open spec fn obeys_from_spec() -> bool {
        true
    }

    open spec fn from_spec(value: FunctionIDUInt16) -> Self {
        value.0
    }
}

/// A four-byte index into the function table.
#[derive(Debug, Clone, Copy, PartialEq, Eq, Structural)]
pub struct FunctionIDUInt32(pub u32);

impl FunctionIDUInt32 {
    /// The number wrapped.
    pub fn value(self) -> (v: u32)
        ensures
            v == self.0,
    {
        self.0
    }
}

impl Default for FunctionIDUInt32 {
    fn default() -> (r: Self)
        ensures
            r.0 == 0,
    {
        FunctionIDUInt32(0)
    }
}

impl From<u32> for FunctionIDUInt32 {
    fn from(value: u32) -> (r: Self) {
        FunctionIDUInt32(value)
    }
}

impl FromSpecImpl<u32> for FunctionIDUInt32 {
    open spec fn obeys_from_spec() -> bool {
        true
    }

    open spec fn from_spec(value: u32) -> Self {
        FunctionIDUInt32(value)
    }
}

impl From<FunctionIDUInt32> for u32 {
    fn from(value: FunctionIDUInt32) -> (r: Self) {
        value.0
    }
}

impl FromSpecImpl<FunctionIDUInt32> for u32 {
    open spec fn obeys_from_spec() -> bool {
        true
    }

    open spec fn from_spec(value: FunctionIDUInt32) -> Self {
        value.0
    }
}

/// A two-byte index into the BigInt table.
#[derive(Debug, Clone, Copy, PartialEq, Eq, Structural)]
pub struct BigIntIDUInt16(pub u16);

impl BigIntIDUInt16 {
    /// The number wrapped.
    pub fn value(self) -> (v: u16)
        ensures
            v == self.0,
    {
        self.0
    }
}

impl Default for BigIntIDUInt16 {
    fn default() -> (r: Self)
        ensures
            r.0 == 0,
    {
        BigIntIDUInt16(0)
    }
}

impl From<u16> for BigIntIDUInt16 {
    fn from(value: u16) -> (r: Self) {
        BigIntIDUInt16(value)
    }
}

impl FromSpecImpl<u16> for BigIntIDUInt16 {
    open spec fn obeys_from_spec() -> bool {
        true
    }

    open spec fn from_spec(value: u16) -> Self {
        BigIntIDUInt16(value)
    }
}

impl From<BigIntIDUInt16> for u16 {
    fn from(value: BigIntIDUInt16) -> (r: Self) {
        value.0
    }
}

impl FromSpecImpl<BigIntIDUInt16> for u16 {
    open spec fn obeys_from_spec() -> bool {
        true
    }

    open spec fn from_spec(value: BigIntIDUInt16) -> Self {
        value.0
    }
}

/// A four-byte index into the BigInt table.
#[derive(Debug, Clone, Copy, PartialEq, Eq, Structural)]
pub struct BigIntIDUInt32(pub u32);

impl BigIntIDUInt32 {
    /// The number wrapped.
    pub fn value(self) -> (v: u32)
        ensures
            v == self.0,
    {
        self.0
    }
}

impl Default for BigIntIDUInt32 {
    fn default() -> (r: Self)
        ensures
            r.0 == 0,
    {
        BigIntIDUInt32(0)
    }
}

impl From<u32> for BigIntIDUInt32 {
    fn from(value: u32) -> (r: Self) {
        BigIntIDUInt32(value)
    }
}

impl FromSpecImpl<u32> for BigIntIDUInt32 {
    open spec fn obeys_from_spec() -> bool {
        true
    }

    open spec fn from_spec(value: u32) -> Self {
        BigIntIDUInt32(value)
    }
}

impl From<BigIntIDUInt32> for u32 {
    fn from(value: BigIntIDUInt32) -> (r: Self) {
        value.0
    }
}

impl FromSpecImpl<BigIntIDUInt32> for u32 {
    open spec fn obeys_from_spec() -> bool {
        true
    }

    open spec fn from_spec(value: BigIntIDUInt32) -> Self {
        value.0
    }
}

} // verus!
