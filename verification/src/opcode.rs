//! Operand kinds and instruction mnemonics, shared by every bytecode version.

use vstd::prelude::*;

verus! {

/// What an operand of an instruction is, which fixes how many bytes it takes
/// and how it is shown.
#[derive(Debug, Clone, Copy, PartialEq, Eq, Structural)]
pub enum OperandKind {
    Reg8,
    Reg32,
    UInt8,
    UInt16,
    UInt32,
    Addr8,
    Addr32,
    Imm32,
    Double,
    StringIDUInt8,
    StringIDUInt16,
    StringIDUInt32,
    FunctionIDUInt8,
    FunctionIDUInt16,
    FunctionIDUInt32,
    BigIntIDUInt16,
    BigIntIDUInt32,
}

impl OperandKind {
    /// The number of bytes an operand of this kind takes.
    pub open spec fn spec_size(self) -> nat {
        match self {
            OperandKind::Reg8 | OperandKind::UInt8 | OperandKind::Addr8 |
            OperandKind::StringIDUInt8 | OperandKind::FunctionIDUInt8 => 1,
            OperandKind::UInt16 | OperandKind::StringIDUInt16 | OperandKind::FunctionIDUInt16 |
            OperandKind::BigIntIDUInt16 => 2,
            OperandKind::Reg32 | OperandKind::UInt32 | OperandKind::Addr32 | OperandKind::Imm32 |
            OperandKind::StringIDUInt32 | OperandKind::FunctionIDUInt32 |
            OperandKind::BigIntIDUInt32 => 4,
            OperandKind::Double => 8,
        }
    }

    /// The number of bytes an operand of this kind takes.
    pub fn size(self) -> (n: usize)
        ensures
            n == self.spec_size(),
    {
        match self {
            OperandKind::Reg8 | OperandKind::UInt8 | OperandKind::Addr8 |
            OperandKind::StringIDUInt8 | OperandKind::FunctionIDUInt8 => 1,
            OperandKind::UInt16 | OperandKind::StringIDUInt16 | OperandKind::FunctionIDUInt16 |
            OperandKind::BigIntIDUInt16 => 2,
            OperandKind::Reg32 | OperandKind::UInt32 | OperandKind::Addr32 | OperandKind::Imm32 |
            OperandKind::StringIDUInt32 | OperandKind::FunctionIDUInt32 |
            OperandKind::BigIntIDUInt32 => 4,
            OperandKind::Double => 8,
        }
    }

    /// Whether operands of this kind are jump offsets.
    pub open spec fn spec_is_address(self) -> bool {
        self == OperandKind::Addr8 || self == OperandKind::Addr32
    }

    /// Whether operands of this kind are jump offsets.
    pub fn is_address(self) -> (b: bool)
        ensures
            b == self.spec_is_address(),
    {
        match self {
            OperandKind::Addr8 | OperandKind::Addr32 => true,
            _ => false,
        }
    }
}

/// The name of an instruction. A version's opcode table gives some of these
/// names a byte each.
#[derive(Debug, Clone, Copy, PartialEq, Eq, Structural)]
pub enum Mnemonic {
    Unreachable,
    NewObjectWithBuffer,
    NewObjectWithBufferLong,
    NewObject,
    NewObjectWithParent,
    NewArrayWithBuffer,
    NewArrayWithBufferLong,
    NewArray,
    Mov,
    MovLong,
    Negate,
    Not,
    BitNot,
    TypeOf,
    Eq,
    StrictEq,
    Neq,
    StrictNeq,
    Less,
    LessEq,
    Greater,
    GreaterEq,
    Add,
    AddN,
    Mul,
    MulN,
    Div,
    DivN,
    Mod,
    Sub,
    SubN,
    LShift,
    RShift,
    URshift,
    BitAnd,
    BitXor,
    BitOr,
    Inc,
    Dec,
    InstanceOf,
    IsIn,
    GetEnvironment,
    StoreToEnvironment,
    StoreToEnvironmentL,
    StoreNPToEnvironment,
    StoreNPToEnvironmentL,
    LoadFromEnvironment,
    LoadFromEnvironmentL,
    GetGlobalObject,
    GetNewTarget,
    CreateEnvironment,
    CreateInnerEnvironment,
    DeclareGlobalVar,
    ThrowIfHasRestrictedGlobalProperty,
    GetByIdShort,
    GetById,
    GetByIdLong,
    TryGetById,
    TryGetByIdLong,
    PutById,
    PutByIdLong,
    TryPutById,
    TryPutByIdLong,
    PutNewOwnByIdShort,
    PutNewOwnById,
    PutNewOwnByIdLong,
    PutNewOwnNEById,
    PutNewOwnNEByIdLong,
    PutOwnByIndex,
    PutOwnByIndexL,
    PutOwnByVal,
    DelById,
    DelByIdLong,
    GetByVal,
    PutByVal,
    DelByVal,
    PutOwnGetterSetterByVal,
    GetPNameList,
    GetNextPName,
    Call,
    Construct,
    Call1,
    CallDirect,
    Call2,
    Call3,
    Call4,
    CallLong,
    ConstructLong,
    CallDirectLongIndex,
    CallBuiltin,
    CallBuiltinLong,
    GetBuiltinClosure,
    Ret,
    Catch,
    DirectEval,
    Throw,
    ThrowIfEmpty,
    Debugger,
    AsyncBreakCheck,
    ProfilePoint,
    CreateClosure,
    CreateClosureLongIndex,
    CreateGeneratorClosure,
    CreateGeneratorClosureLongIndex,
    CreateAsyncClosure,
    CreateAsyncClosureLongIndex,
    CreateThis,
    SelectObject,
    LoadParam,
    LoadParamLong,
    LoadConstUInt8,
    LoadConstInt,
    LoadConstDouble,
    LoadConstBigInt,
    LoadConstBigIntLongIndex,
    LoadConstString,
    LoadConstStringLongIndex,
    LoadConstEmpty,
    LoadConstUndefined,
    LoadConstNull,
    LoadConstTrue,
    LoadConstFalse,
    LoadConstZero,
    CoerceThisNS,
    LoadThisNS,
    ToNumber,
    ToNumeric,
    ToInt32,
    AddEmptyString,
    GetArgumentsPropByVal,
    GetArgumentsLength,
    ReifyArguments,
    CreateRegExp,
    SwitchImm,
    StartGenerator,
    ResumeGenerator,
    CompleteGenerator,
    CreateGenerator,
    CreateGeneratorLongIndex,
    IteratorBegin,
    IteratorNext,
    IteratorClose,
    Jmp,
    JmpLong,
    JmpTrue,
    JmpTrueLong,
    JmpFalse,
    JmpFalseLong,
    JmpUndefined,
    JmpUndefinedLong,
    SaveGenerator,
    SaveGeneratorLong,
    JLess,
    JLessLong,
    JNotLess,
    JNotLessLong,
    JLessN,
    JLessNLong,
    JNotLessN,
    JNotLessNLong,
    JLessEqual,
    JLessEqualLong,
    JNotLessEqual,
    JNotLessEqualLong,
    JLessEqualN,
    JLessEqualNLong,
    JNotLessEqualN,
    JNotLessEqualNLong,
    JGreater,
    JGreaterLong,
    JNotGreater,
    JNotGreaterLong,
    JGreaterN,
    JGreaterNLong,
    JNotGreaterN,
    JNotGreaterNLong,
    JGreaterEqual,
    JGreaterEqualLong,
    JNotGreaterEqual,
    JNotGreaterEqualLong,
    JGreaterEqualN,
    JGreaterEqualNLong,
    JNotGreaterEqualN,
    JNotGreaterEqualNLong,
    JEqual,
    JEqualLong,
    JNotEqual,
    JNotEqualLong,
    JStrictEqual,
    JStrictEqualLong,
    JStrictNotEqual,
    JStrictNotEqualLong,
    Add32,
    Sub32,
    Mul32,
    Divi32,
    Divu32,
    Loadi8,
    Loadu8,
    Loadi16,
    Loadu16,
    Loadi32,
    Loadu32,
    Store8,
    Store16,
    Store32,
}

impl Mnemonic {
    /// The name as text.
    pub open spec fn spec_name(self) -> Seq<char> {
        match self {
            Mnemonic::Unreachable => "Unreachable"@,
            Mnemonic::NewObjectWithBuffer => "NewObjectWithBuffer"@,
            Mnemonic::NewObjectWithBufferLong => "NewObjectWithBufferLong"@,
            Mnemonic::NewObject => "NewObject"@,
            Mnemonic::NewObjectWithParent => "NewObjectWithParent"@,
            Mnemonic::NewArrayWithBuffer => "NewArrayWithBuffer"@,
            Mnemonic::NewArrayWithBufferLong => "NewArrayWithBufferLong"@,
            Mnemonic::NewArray => "NewArray"@,
            Mnemonic::Mov => "Mov"@,
            Mnemonic::MovLong => "MovLong"@,
            Mnemonic::Negate => "Negate"@,
            Mnemonic::Not => "Not"@,
            Mnemonic::BitNot => "BitNot"@,
            Mnemonic::TypeOf => "TypeOf"@,
            Mnemonic::Eq => "Eq"@,
            Mnemonic::StrictEq => "StrictEq"@,
            Mnemonic::Neq => "Neq"@,
            Mnemonic::StrictNeq => "StrictNeq"@,
            Mnemonic::Less => "Less"@,
            Mnemonic::LessEq => "LessEq"@,
            Mnemonic::Greater => "Greater"@,
            Mnemonic::GreaterEq => "GreaterEq"@,
            Mnemonic::Add => "Add"@,
            Mnemonic::AddN => "AddN"@,
            Mnemonic::Mul => "Mul"@,
            Mnemonic::MulN => "MulN"@,
            Mnemonic::Div => "Div"@,
            Mnemonic::DivN => "DivN"@,
            Mnemonic::Mod => "Mod"@,
            Mnemonic::Sub => "Sub"@,
            Mnemonic::SubN => "SubN"@,
            Mnemonic::LShift => "LShift"@,
            Mnemonic::RShift => "RShift"@,
            Mnemonic::URshift => "URshift"@,
            Mnemonic::BitAnd => "BitAnd"@,
            Mnemonic::BitXor => "BitXor"@,
            Mnemonic::BitOr => "BitOr"@,
            Mnemonic::Inc => "Inc"@,
            Mnemonic::Dec => "Dec"@,
            Mnemonic::InstanceOf => "InstanceOf"@,
            Mnemonic::IsIn => "IsIn"@,
            Mnemonic::GetEnvironment => "GetEnvironment"@,
            Mnemonic::StoreToEnvironment => "StoreToEnvironment"@,
            Mnemonic::StoreToEnvironmentL => "StoreToEnvironmentL"@,
            Mnemonic::StoreNPToEnvironment => "StoreNPToEnvironment"@,
            Mnemonic::StoreNPToEnvironmentL => "StoreNPToEnvironmentL"@,
            Mnemonic::LoadFromEnvironment => "LoadFromEnvironment"@,
            Mnemonic::LoadFromEnvironmentL => "LoadFromEnvironmentL"@,
            Mnemonic::GetGlobalObject => "GetGlobalObject"@,
            Mnemonic::GetNewTarget => "GetNewTarget"@,
            Mnemonic::CreateEnvironment => "CreateEnvironment"@,
            Mnemonic::CreateInnerEnvironment => "CreateInnerEnvironment"@,
            Mnemonic::DeclareGlobalVar => "DeclareGlobalVar"@,
            Mnemonic::ThrowIfHasRestrictedGlobalProperty => "ThrowIfHasRestrictedGlobalProperty"@,
            Mnemonic::GetByIdShort => "GetByIdShort"@,
            Mnemonic::GetById => "GetById"@,
            Mnemonic::GetByIdLong => "GetByIdLong"@,
            Mnemonic::TryGetById => "TryGetById"@,
            Mnemonic::TryGetByIdLong => "TryGetByIdLong"@,
            Mnemonic::PutById => "PutById"@,
            Mnemonic::PutByIdLong => "PutByIdLong"@,
            Mnemonic::TryPutById => "TryPutById"@,
            Mnemonic::TryPutByIdLong => "TryPutByIdLong"@,
            Mnemonic::PutNewOwnByIdShort => "PutNewOwnByIdShort"@,
            Mnemonic::PutNewOwnById => "PutNewOwnById"@,
            Mnemonic::PutNewOwnByIdLong => "PutNewOwnByIdLong"@,
            Mnemonic::PutNewOwnNEById => "PutNewOwnNEById"@,
            Mnemonic::PutNewOwnNEByIdLong => "PutNewOwnNEByIdLong"@,
            Mnemonic::PutOwnByIndex => "PutOwnByIndex"@,
            Mnemonic::PutOwnByIndexL => "PutOwnByIndexL"@,
            Mnemonic::PutOwnByVal => "PutOwnByVal"@,
            Mnemonic::DelById => "DelById"@,
            Mnemonic::DelByIdLong => "DelByIdLong"@,
            Mnemonic::GetByVal => "GetByVal"@,
            Mnemonic::PutByVal => "PutByVal"@,
            Mnemonic::DelByVal => "DelByVal"@,
            Mnemonic::PutOwnGetterSetterByVal => "PutOwnGetterSetterByVal"@,
            Mnemonic::GetPNameList => "GetPNameList"@,
            Mnemonic::GetNextPName => "GetNextPName"@,
            Mnemonic::Call => "Call"@,
            Mnemonic::Construct => "Construct"@,
            Mnemonic::Call1 => "Call1"@,
            Mnemonic::CallDirect => "CallDirect"@,
            Mnemonic::Call2 => "Call2"@,
            Mnemonic::Call3 => "Call3"@,
            Mnemonic::Call4 => "Call4"@,
            Mnemonic::CallLong => "CallLong"@,
            Mnemonic::ConstructLong => "ConstructLong"@,
            Mnemonic::CallDirectLongIndex => "CallDirectLongIndex"@,
            Mnemonic::CallBuiltin => "CallBuiltin"@,
            Mnemonic::CallBuiltinLong => "CallBuiltinLong"@,
            Mnemonic::GetBuiltinClosure => "GetBuiltinClosure"@,
            Mnemonic::Ret => "Ret"@,
            Mnemonic::Catch => "Catch"@,
            Mnemonic::DirectEval => "DirectEval"@,
            Mnemonic::Throw => "Throw"@,
            Mnemonic::ThrowIfEmpty => "ThrowIfEmpty"@,
            Mnemonic::Debugger => "Debugger"@,
            Mnemonic::AsyncBreakCheck => "AsyncBreakCheck"@,
            Mnemonic::ProfilePoint => "ProfilePoint"@,
            Mnemonic::CreateClosure => "CreateClosure"@,
            Mnemonic::CreateClosureLongIndex => "CreateClosureLongIndex"@,
            Mnemonic::CreateGeneratorClosure => "CreateGeneratorClosure"@,
            Mnemonic::CreateGeneratorClosureLongIndex => "CreateGeneratorClosureLongIndex"@,
            Mnemonic::CreateAsyncClosure => "CreateAsyncClosure"@,
            Mnemonic::CreateAsyncClosureLongIndex => "CreateAsyncClosureLongIndex"@,
            Mnemonic::CreateThis => "CreateThis"@,
            Mnemonic::SelectObject => "SelectObject"@,
            Mnemonic::LoadParam => "LoadParam"@,
            Mnemonic::LoadParamLong => "LoadParamLong"@,
            Mnemonic::LoadConstUInt8 => "LoadConstUInt8"@,
            Mnemonic::LoadConstInt => "LoadConstInt"@,
            Mnemonic::LoadConstDouble => "LoadConstDouble"@,
            Mnemonic::LoadConstBigInt => "LoadConstBigInt"@,
            Mnemonic::LoadConstBigIntLongIndex => "LoadConstBigIntLongIndex"@,
            Mnemonic::LoadConstString => "LoadConstString"@,
            Mnemonic::LoadConstStringLongIndex => "LoadConstStringLongIndex"@,
            Mnemonic::LoadConstEmpty => "LoadConstEmpty"@,
            Mnemonic::LoadConstUndefined => "LoadConstUndefined"@,
            Mnemonic::LoadConstNull => "LoadConstNull"@,
            Mnemonic::LoadConstTrue => "LoadConstTrue"@,
            Mnemonic::LoadConstFalse => "LoadConstFalse"@,
            Mnemonic::LoadConstZero => "LoadConstZero"@,
            Mnemonic::CoerceThisNS => "CoerceThisNS"@,
            Mnemonic::LoadThisNS => "LoadThisNS"@,
            Mnemonic::ToNumber => "ToNumber"@,
            Mnemonic::ToNumeric => "ToNumeric"@,
            Mnemonic::ToInt32 => "ToInt32"@,
            Mnemonic::AddEmptyString => "AddEmptyString"@,
            Mnemonic::GetArgumentsPropByVal => "GetArgumentsPropByVal"@,
            Mnemonic::GetArgumentsLength => "GetArgumentsLength"@,
            Mnemonic::ReifyArguments => "ReifyArguments"@,
            Mnemonic::CreateRegExp => "CreateRegExp"@,
            Mnemonic::SwitchImm => "SwitchImm"@,
            Mnemonic::StartGenerator => "StartGenerator"@,
            Mnemonic::ResumeGenerator => "ResumeGenerator"@,
            Mnemonic::CompleteGenerator => "CompleteGenerator"@,
            Mnemonic::CreateGenerator => "CreateGenerator"@,
            Mnemonic::CreateGeneratorLongIndex => "CreateGeneratorLongIndex"@,
            Mnemonic::IteratorBegin => "IteratorBegin"@,
            Mnemonic::IteratorNext => "IteratorNext"@,
            Mnemonic::IteratorClose => "IteratorClose"@,
            Mnemonic::Jmp => "Jmp"@,
            Mnemonic::JmpLong => "JmpLong"@,
            Mnemonic::JmpTrue => "JmpTrue"@,
            Mnemonic::JmpTrueLong => "JmpTrueLong"@,
            Mnemonic::JmpFalse => "JmpFalse"@,
            Mnemonic::JmpFalseLong => "JmpFalseLong"@,
            Mnemonic::JmpUndefined => "JmpUndefined"@,
            Mnemonic::JmpUndefinedLong => "JmpUndefinedLong"@,
            Mnemonic::SaveGenerator => "SaveGenerator"@,
            Mnemonic::SaveGeneratorLong => "SaveGeneratorLong"@,
            Mnemonic::JLess => "JLess"@,
            Mnemonic::JLessLong => "JLessLong"@,
            Mnemonic::JNotLess => "JNotLess"@,
            Mnemonic::JNotLessLong => "JNotLessLong"@,
            Mnemonic::JLessN => "JLessN"@,
            Mnemonic::JLessNLong => "JLessNLong"@,
            Mnemonic::JNotLessN => "JNotLessN"@,
            Mnemonic::JNotLessNLong => "JNotLessNLong"@,
            Mnemonic::JLessEqual => "JLessEqual"@,
            Mnemonic::JLessEqualLong => "JLessEqualLong"@,
            Mnemonic::JNotLessEqual => "JNotLessEqual"@,
            Mnemonic::JNotLessEqualLong => "JNotLessEqualLong"@,
            Mnemonic::JLessEqualN => "JLessEqualN"@,
            Mnemonic::JLessEqualNLong => "JLessEqualNLong"@,
            Mnemonic::JNotLessEqualN => "JNotLessEqualN"@,
            Mnemonic::JNotLessEqualNLong => "JNotLessEqualNLong"@,
            Mnemonic::JGreater => "JGreater"@,
            Mnemonic::JGreaterLong => "JGreaterLong"@,
            Mnemonic::JNotGreater => "JNotGreater"@,
            Mnemonic::JNotGreaterLong => "JNotGreaterLong"@,
            Mnemonic::JGreaterN => "JGreaterN"@,
            Mnemonic::JGreaterNLong => "JGreaterNLong"@,
            Mnemonic::JNotGreaterN => "JNotGreaterN"@,
            Mnemonic::JNotGreaterNLong => "JNotGreaterNLong"@,
            Mnemonic::JGreaterEqual => "JGreaterEqual"@,
            Mnemonic::JGreaterEqualLong => "JGreaterEqualLong"@,
            Mnemonic::JNotGreaterEqual => "JNotGreaterEqual"@,
            Mnemonic::JNotGreaterEqualLong => "JNotGreaterEqualLong"@,
            Mnemonic::JGreaterEqualN => "JGreaterEqualN"@,
            Mnemonic::JGreaterEqualNLong => "JGreaterEqualNLong"@,
            Mnemonic::JNotGreaterEqualN => "JNotGreaterEqualN"@,
            Mnemonic::JNotGreaterEqualNLong => "JNotGreaterEqualNLong"@,
            Mnemonic::JEqual => "JEqual"@,
            Mnemonic::JEqualLong => "JEqualLong"@,
            Mnemonic::JNotEqual => "JNotEqual"@,
            Mnemonic::JNotEqualLong => "JNotEqualLong"@,
            Mnemonic::JStrictEqual => "JStrictEqual"@,
            Mnemonic::JStrictEqualLong => "JStrictEqualLong"@,
            Mnemonic::JStrictNotEqual => "JStrictNotEqual"@,
            Mnemonic::JStrictNotEqualLong => "JStrictNotEqualLong"@,
            Mnemonic::Add32 => "Add32"@,
            Mnemonic::Sub32 => "Sub32"@,
            Mnemonic::Mul32 => "Mul32"@,
            Mnemonic::Divi32 => "Divi32"@,
            Mnemonic::Divu32 => "Divu32"@,
            Mnemonic::Loadi8 => "Loadi8"@,
            Mnemonic::Loadu8 => "Loadu8"@,
            Mnemonic::Loadi16 => "Loadi16"@,
            Mnemonic::Loadu16 => "Loadu16"@,
            Mnemonic::Loadi32 => "Loadi32"@,
            Mnemonic::Loadu32 => "Loadu32"@,
            Mnemonic::Store8 => "Store8"@,
            Mnemonic::Store16 => "Store16"@,
            Mnemonic::Store32 => "Store32"@,
        }
    }

    /// The name as text.
    pub fn name(self) -> (s: &'static str)
        ensures
            s@ == self.spec_name(),
    {
        match self {
            Mnemonic::Unreachable => "Unreachable",
            Mnemonic::NewObjectWithBuffer => "NewObjectWithBuffer",
            Mnemonic::NewObjectWithBufferLong => "NewObjectWithBufferLong",
            Mnemonic::NewObject => "NewObject",
            Mnemonic::NewObjectWithParent => "NewObjectWithParent",
            Mnemonic::NewArrayWithBuffer => "NewArrayWithBuffer",
            Mnemonic::NewArrayWithBufferLong => "NewArrayWithBufferLong",
            Mnemonic::NewArray => "NewArray",
            Mnemonic::Mov => "Mov",
            Mnemonic::MovLong => "MovLong",
            Mnemonic::Negate => "Negate",
            Mnemonic::Not => "Not",
            Mnemonic::BitNot => "BitNot",
            Mnemonic::TypeOf => "TypeOf",
            Mnemonic::Eq => "Eq",
            Mnemonic::StrictEq => "StrictEq",
            Mnemonic::Neq => "Neq",
            Mnemonic::StrictNeq => "StrictNeq",
            Mnemonic::Less => "Less",
            Mnemonic::LessEq => "LessEq",
            Mnemonic::Greater => "Greater",
            Mnemonic::GreaterEq => "GreaterEq",
            Mnemonic::Add => "Add",
            Mnemonic::AddN => "AddN",
            Mnemonic::Mul => "Mul",
            Mnemonic::MulN => "MulN",
            Mnemonic::Div => "Div",
            Mnemonic::DivN => "DivN",
            Mnemonic::Mod => "Mod",
            Mnemonic::Sub => "Sub",
            Mnemonic::SubN => "SubN",
            Mnemonic::LShift => "LShift",
            Mnemonic::RShift => "RShift",
            Mnemonic::URshift => "URshift",
            Mnemonic::BitAnd => "BitAnd",
            Mnemonic::BitXor => "BitXor",
            Mnemonic::BitOr => "BitOr",
            Mnemonic::Inc => "Inc",
            Mnemonic::Dec => "Dec",
            Mnemonic::InstanceOf => "InstanceOf",
            Mnemonic::IsIn => "IsIn",
            Mnemonic::GetEnvironment => "GetEnvironment",
            Mnemonic::StoreToEnvironment => "StoreToEnvironment",
            Mnemonic::StoreToEnvironmentL => "StoreToEnvironmentL",
            Mnemonic::StoreNPToEnvironment => "StoreNPToEnvironment",
            Mnemonic::StoreNPToEnvironmentL => "StoreNPToEnvironmentL",
            Mnemonic::LoadFromEnvironment => "LoadFromEnvironment",
            Mnemonic::LoadFromEnvironmentL => "LoadFromEnvironmentL",
            Mnemonic::GetGlobalObject => "GetGlobalObject",
            Mnemonic::GetNewTarget => "GetNewTarget",
            Mnemonic::CreateEnvironment => "CreateEnvironment",
            Mnemonic::CreateInnerEnvironment => "CreateInnerEnvironment",
            Mnemonic::DeclareGlobalVar => "DeclareGlobalVar",
            Mnemonic::ThrowIfHasRestrictedGlobalProperty => "ThrowIfHasRestrictedGlobalProperty",
            Mnemonic::GetByIdShort => "GetByIdShort",
            Mnemonic::GetById => "GetById",
            Mnemonic::GetByIdLong => "GetByIdLong",
            Mnemonic::TryGetById => "TryGetById",
            Mnemonic::TryGetByIdLong => "TryGetByIdLong",
            Mnemonic::PutById => "PutById",
            Mnemonic::PutByIdLong => "PutByIdLong",
            Mnemonic::TryPutById => "TryPutById",
            Mnemonic::TryPutByIdLong => "TryPutByIdLong",
            Mnemonic::PutNewOwnByIdShort => "PutNewOwnByIdShort",
            Mnemonic::PutNewOwnById => "PutNewOwnById",
            Mnemonic::PutNewOwnByIdLong => "PutNewOwnByIdLong",
            Mnemonic::PutNewOwnNEById => "PutNewOwnNEById",
            Mnemonic::PutNewOwnNEByIdLong => "PutNewOwnNEByIdLong",
            Mnemonic::PutOwnByIndex => "PutOwnByIndex",
            Mnemonic::PutOwnByIndexL => "PutOwnByIndexL",
            Mnemonic::PutOwnByVal => "PutOwnByVal",
            Mnemonic::DelById => "DelById",
            Mnemonic::DelByIdLong => "DelByIdLong",
            Mnemonic::GetByVal => "GetByVal",
            Mnemonic::PutByVal => "PutByVal",
            Mnemonic::DelByVal => "DelByVal",
            Mnemonic::PutOwnGetterSetterByVal => "PutOwnGetterSetterByVal",
            Mnemonic::GetPNameList => "GetPNameList",
            Mnemonic::GetNextPName => "GetNextPName",
            Mnemonic::Call => "Call",
            Mnemonic::Construct => "Construct",
            Mnemonic::Call1 => "Call1",
            Mnemonic::CallDirect => "CallDirect",
            Mnemonic::Call2 => "Call2",
            Mnemonic::Call3 => "Call3",
            Mnemonic::Call4 => "Call4",
            Mnemonic::CallLong => "CallLong",
            Mnemonic::ConstructLong => "ConstructLong",
            Mnemonic::CallDirectLongIndex => "CallDirectLongIndex",
            Mnemonic::CallBuiltin => "CallBuiltin",
            Mnemonic::CallBuiltinLong => "CallBuiltinLong",
            Mnemonic::GetBuiltinClosure => "GetBuiltinClosure",
            Mnemonic::Ret => "Ret",
            Mnemonic::Catch => "Catch",
            Mnemonic::DirectEval => "DirectEval",
            Mnemonic::Throw => "Throw",
            Mnemonic::ThrowIfEmpty => "ThrowIfEmpty",
            Mnemonic::Debugger => "Debugger",
            Mnemonic::AsyncBreakCheck => "AsyncBreakCheck",
            Mnemonic::ProfilePoint => "ProfilePoint",
            Mnemonic::CreateClosure => "CreateClosure",
            Mnemonic::CreateClosureLongIndex => "CreateClosureLongIndex",
            Mnemonic::CreateGeneratorClosure => "CreateGeneratorClosure",
            Mnemonic::CreateGeneratorClosureLongIndex => "CreateGeneratorClosureLongIndex",
            Mnemonic::CreateAsyncClosure => "CreateAsyncClosure",
            Mnemonic::CreateAsyncClosureLongIndex => "CreateAsyncClosureLongIndex",
            Mnemonic::CreateThis => "CreateThis",
            Mnemonic::SelectObject => "SelectObject",
            Mnemonic::LoadParam => "LoadParam",
            Mnemonic::LoadParamLong => "LoadParamLong",
            Mnemonic::LoadConstUInt8 => "LoadConstUInt8",
            Mnemonic::LoadConstInt => "LoadConstInt",
            Mnemonic::LoadConstDouble => "LoadConstDouble",
            Mnemonic::LoadConstBigInt => "LoadConstBigInt",
            Mnemonic::LoadConstBigIntLongIndex => "LoadConstBigIntLongIndex",
            Mnemonic::LoadConstString => "LoadConstString",
            Mnemonic::LoadConstStringLongIndex => "LoadConstStringLongIndex",
            Mnemonic::LoadConstEmpty => "LoadConstEmpty",
            Mnemonic::LoadConstUndefined => "LoadConstUndefined",
            Mnemonic::LoadConstNull => "LoadConstNull",
            Mnemonic::LoadConstTrue => "LoadConstTrue",
            Mnemonic::LoadConstFalse => "LoadConstFalse",
            Mnemonic::LoadConstZero => "LoadConstZero",
            Mnemonic::CoerceThisNS => "CoerceThisNS",
            Mnemonic::LoadThisNS => "LoadThisNS",
            Mnemonic::ToNumber => "ToNumber",
            Mnemonic::ToNumeric => "ToNumeric",
            Mnemonic::ToInt32 => "ToInt32",
            Mnemonic::AddEmptyString => "AddEmptyString",
            Mnemonic::GetArgumentsPropByVal => "GetArgumentsPropByVal",
            Mnemonic::GetArgumentsLength => "GetArgumentsLength",
            Mnemonic::ReifyArguments => "ReifyArguments",
            Mnemonic::CreateRegExp => "CreateRegExp",
            Mnemonic::SwitchImm => "SwitchImm",
            Mnemonic::StartGenerator => "StartGenerator",
            Mnemonic::ResumeGenerator => "ResumeGenerator",
            Mnemonic::CompleteGenerator => "CompleteGenerator",
            Mnemonic::CreateGenerator => "CreateGenerator",
            Mnemonic::CreateGeneratorLongIndex => "CreateGeneratorLongIndex",
            Mnemonic::IteratorBegin => "IteratorBegin",
            Mnemonic::IteratorNext => "IteratorNext",
            Mnemonic::IteratorClose => "IteratorClose",
            Mnemonic::Jmp => "Jmp",
            Mnemonic::JmpLong => "JmpLong",
            Mnemonic::JmpTrue => "JmpTrue",
            Mnemonic::JmpTrueLong => "JmpTrueLong",
            Mnemonic::JmpFalse => "JmpFalse",
            Mnemonic::JmpFalseLong => "JmpFalseLong",
            Mnemonic::JmpUndefined => "JmpUndefined",
            Mnemonic::JmpUndefinedLong => "JmpUndefinedLong",
            Mnemonic::SaveGenerator => "SaveGenerator",
            Mnemonic::SaveGeneratorLong => "SaveGeneratorLong",
            Mnemonic::JLess => "JLess",
            Mnemonic::JLessLong => "JLessLong",
            Mnemonic::JNotLess => "JNotLess",
            Mnemonic::JNotLessLong => "JNotLessLong",
            Mnemonic::JLessN => "JLessN",
            Mnemonic::JLessNLong => "JLessNLong",
            Mnemonic::JNotLessN => "JNotLessN",
            Mnemonic::JNotLessNLong => "JNotLessNLong",
            Mnemonic::JLessEqual => "JLessEqual",
            Mnemonic::JLessEqualLong => "JLessEqualLong",
            Mnemonic::JNotLessEqual => "JNotLessEqual",
            Mnemonic::JNotLessEqualLong => "JNotLessEqualLong",
            Mnemonic::JLessEqualN => "JLessEqualN",
            Mnemonic::JLessEqualNLong => "JLessEqualNLong",
            Mnemonic::JNotLessEqualN => "JNotLessEqualN",
            Mnemonic::JNotLessEqualNLong => "JNotLessEqualNLong",
            Mnemonic::JGreater => "JGreater",
            Mnemonic::JGreaterLong => "JGreaterLong",
            Mnemonic::JNotGreater => "JNotGreater",
            Mnemonic::JNotGreaterLong => "JNotGreaterLong",
            Mnemonic::JGreaterN => "JGreaterN",
            Mnemonic::JGreaterNLong => "JGreaterNLong",
            Mnemonic::JNotGreaterN => "JNotGreaterN",
            Mnemonic::JNotGreaterNLong => "JNotGreaterNLong",
            Mnemonic::JGreaterEqual => "JGreaterEqual",
            Mnemonic::JGreaterEqualLong => "JGreaterEqualLong",
            Mnemonic::JNotGreaterEqual => "JNotGreaterEqual",
            Mnemonic::JNotGreaterEqualLong => "JNotGreaterEqualLong",
            Mnemonic::JGreaterEqualN => "JGreaterEqualN",
            Mnemonic::JGreaterEqualNLong => "JGreaterEqualNLong",
            Mnemonic::JNotGreaterEqualN => "JNotGreaterEqualN",
            Mnemonic::JNotGreaterEqualNLong => "JNotGreaterEqualNLong",
            Mnemonic::JEqual => "JEqual",
            Mnemonic::JEqualLong => "JEqualLong",
            Mnemonic::JNotEqual => "JNotEqual",
            Mnemonic::JNotEqualLong => "JNotEqualLong",
            Mnemonic::JStrictEqual => "JStrictEqual",
            Mnemonic::JStrictEqualLong => "JStrictEqualLong",
            Mnemonic::JStrictNotEqual => "JStrictNotEqual",
            Mnemonic::JStrictNotEqualLong => "JStrictNotEqualLong",
            Mnemonic::Add32 => "Add32",
            Mnemonic::Sub32 => "Sub32",
            Mnemonic::Mul32 => "Mul32",
            Mnemonic::Divi32 => "Divi32",
            Mnemonic::Divu32 => "Divu32",
            Mnemonic::Loadi8 => "Loadi8",
            Mnemonic::Loadu8 => "Loadu8",
            Mnemonic::Loadi16 => "Loadi16",
            Mnemonic::Loadu16 => "Loadu16",
            Mnemonic::Loadi32 => "Loadi32",
            Mnemonic::Loadu32 => "Loadu32",
            Mnemonic::Store8 => "Store8",
            Mnemonic::Store16 => "Store16",
            Mnemonic::Store32 => "Store32",
        }
    }

    /// Whether the instruction may transfer control to the address it
    /// carries: the jumps, the generator saves and `SwitchImm`.
    pub open spec fn spec_is_jmp(self) -> bool {
        match self {
            Mnemonic::Jmp | Mnemonic::JmpLong | Mnemonic::JmpTrue | Mnemonic::JmpTrueLong |
            Mnemonic::JmpFalse | Mnemonic::JmpFalseLong | Mnemonic::JmpUndefined |
            Mnemonic::JmpUndefinedLong | Mnemonic::SaveGenerator | Mnemonic::SaveGeneratorLong |
            Mnemonic::JLess | Mnemonic::JLessLong | Mnemonic::JNotLess | Mnemonic::JNotLessLong |
            Mnemonic::JLessN | Mnemonic::JLessNLong | Mnemonic::JNotLessN |
            Mnemonic::JNotLessNLong | Mnemonic::JLessEqual | Mnemonic::JLessEqualLong |
            Mnemonic::JNotLessEqual | Mnemonic::JNotLessEqualLong | Mnemonic::JLessEqualN |
            Mnemonic::JLessEqualNLong | Mnemonic::JNotLessEqualN | Mnemonic::JNotLessEqualNLong |
            Mnemonic::JGreater | Mnemonic::JGreaterLong | Mnemonic::JNotGreater |
            Mnemonic::JNotGreaterLong | Mnemonic::JGreaterN | Mnemonic::JGreaterNLong |
            Mnemonic::JNotGreaterN | Mnemonic::JNotGreaterNLong | Mnemonic::JGreaterEqual |
            Mnemonic::JGreaterEqualLong | Mnemonic::JNotGreaterEqual |
            Mnemonic::JNotGreaterEqualLong | Mnemonic::JGreaterEqualN |
            Mnemonic::JGreaterEqualNLong | Mnemonic::JNotGreaterEqualN |
            Mnemonic::JNotGreaterEqualNLong | Mnemonic::JEqual | Mnemonic::JEqualLong |
            Mnemonic::JNotEqual | Mnemonic::JNotEqualLong | Mnemonic::JStrictEqual |
            Mnemonic::JStrictEqualLong | Mnemonic::JStrictNotEqual |
            Mnemonic::JStrictNotEqualLong | Mnemonic::SwitchImm => true,
            _ => false,
        }
    }

    /// Whether the instruction may transfer control to the address it carries.
    pub fn is_jmp(self) -> (b: bool)
        ensures
            b == self.spec_is_jmp(),
    {
        match self {
            Mnemonic::Jmp | Mnemonic::JmpLong | Mnemonic::JmpTrue | Mnemonic::JmpTrueLong |
            Mnemonic::JmpFalse | Mnemonic::JmpFalseLong | Mnemonic::JmpUndefined |
            Mnemonic::JmpUndefinedLong | Mnemonic::SaveGenerator | Mnemonic::SaveGeneratorLong |
            Mnemonic::JLess | Mnemonic::JLessLong | Mnemonic::JNotLess | Mnemonic::JNotLessLong |
            Mnemonic::JLessN | Mnemonic::JLessNLong | Mnemonic::JNotLessN |
            Mnemonic::JNotLessNLong | Mnemonic::JLessEqual | Mnemonic::JLessEqualLong |
            Mnemonic::JNotLessEqual | Mnemonic::JNotLessEqualLong | Mnemonic::JLessEqualN |
            Mnemonic::JLessEqualNLong | Mnemonic::JNotLessEqualN | Mnemonic::JNotLessEqualNLong |
            Mnemonic::JGreater | Mnemonic::JGreaterLong | Mnemonic::JNotGreater |
            Mnemonic::JNotGreaterLong | Mnemonic::JGreaterN | Mnemonic::JGreaterNLong |
            Mnemonic::JNotGreaterN | Mnemonic::JNotGreaterNLong | Mnemonic::JGreaterEqual |
            Mnemonic::JGreaterEqualLong | Mnemonic::JNotGreaterEqual |
            Mnemonic::JNotGreaterEqualLong | Mnemonic::JGreaterEqualN |
            Mnemonic::JGreaterEqualNLong | Mnemonic::JNotGreaterEqualN |
            Mnemonic::JNotGreaterEqualNLong | Mnemonic::JEqual | Mnemonic::JEqualLong |
            Mnemonic::JNotEqual | Mnemonic::JNotEqualLong | Mnemonic::JStrictEqual |
            Mnemonic::JStrictEqualLong | Mnemonic::JStrictNotEqual |
            Mnemonic::JStrictNotEqualLong | Mnemonic::SwitchImm => true,
            _ => false,
        }
    }

    /// Whether control comes back after the instruction: the calls and constructs.
    pub open spec fn spec_has_ret_target(self) -> bool {
        match self {
            Mnemonic::Call | Mnemonic::Construct | Mnemonic::Call1 | Mnemonic::CallDirect |
            Mnemonic::Call2 | Mnemonic::Call3 | Mnemonic::Call4 | Mnemonic::CallLong |
            Mnemonic::ConstructLong | Mnemonic::CallDirectLongIndex => true,
            _ => false,
        }
    }

    /// Whether control comes back after the instruction.
    pub fn has_ret_target(self) -> (b: bool)
        ensures
            b == self.spec_has_ret_target(),
    {
        match self {
            Mnemonic::Call | Mnemonic::Construct | Mnemonic::Call1 | Mnemonic::CallDirect |
            Mnemonic::Call2 | Mnemonic::Call3 | Mnemonic::Call4 | Mnemonic::CallLong |
            Mnemonic::ConstructLong | Mnemonic::CallDirectLongIndex => true,
            _ => false,
        }
    }
}

} // verus!
