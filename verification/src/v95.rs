//! The opcode table of bytecode version 95: which byte stands for which
//! instruction, and which operands follow it.

use vstd::prelude::*;
use crate::instruction::{HermesInstruction, IntoParentInstruction};
use crate::opcode::{Mnemonic, OperandKind};

verus! {

/// The bytecode version that this table belongs to.
pub const VERSION: u32 = 95;

/// An instruction of this version.
#[derive(Debug, Clone, PartialEq, Eq)]
pub struct Instruction(pub crate::instruction::Instruction);

impl IntoParentInstruction for Instruction {
    open spec fn parent_version(&self) -> u32 {
        VERSION
    }

    open spec fn parent_instruction(&self) -> crate::instruction::Instruction {
        self.0
    }

    fn into_parent(self) -> (h: HermesInstruction) {
        HermesInstruction::V95(self.0)
    }
}

/// The highest byte that the table defines.
pub const MAX_OPCODE: u8 = 205;

/// The instruction that `op` stands for; a byte above the table's last
/// entry stands for `Unreachable`.
pub open spec fn spec_mnemonic(op: u8) -> Mnemonic {
    match op {
        0 => Mnemonic::Unreachable,
        1 => Mnemonic::NewObjectWithBuffer,
        2 => Mnemonic::NewObjectWithBufferLong,
        3 => Mnemonic::NewObject,
        4 => Mnemonic::NewObjectWithParent,
        5 => Mnemonic::NewArrayWithBuffer,
        6 => Mnemonic::NewArrayWithBufferLong,
        7 => Mnemonic::NewArray,
        8 => Mnemonic::Mov,
        9 => Mnemonic::MovLong,
        10 => Mnemonic::Negate,
        11 => Mnemonic::Not,
        12 => Mnemonic::BitNot,
        13 => Mnemonic::TypeOf,
        14 => Mnemonic::Eq,
        15 => Mnemonic::StrictEq,
        16 => Mnemonic::Neq,
        17 => Mnemonic::StrictNeq,
        18 => Mnemonic::Less,
        19 => Mnemonic::LessEq,
        20 => Mnemonic::Greater,
        21 => Mnemonic::GreaterEq,
        22 => Mnemonic::Add,
        23 => Mnemonic::AddN,
        24 => Mnemonic::Mul,
        25 => Mnemonic::MulN,
        26 => Mnemonic::Div,
        27 => Mnemonic::DivN,
        28 => Mnemonic::Mod,
        29 => Mnemonic::Sub,
        30 => Mnemonic::SubN,
        31 => Mnemonic::LShift,
        32 => Mnemonic::RShift,
        33 => Mnemonic::URshift,
        34 => Mnemonic::BitAnd,
        35 => Mnemonic::BitXor,
        36 => Mnemonic::BitOr,
        37 => Mnemonic::Inc,
        38 => Mnemonic::Dec,
        39 => Mnemonic::InstanceOf,
        40 => Mnemonic::IsIn,
        41 => Mnemonic::GetEnvironment,
        42 => Mnemonic::StoreToEnvironment,
        43 => Mnemonic::StoreToEnvironmentL,
        44 => Mnemonic::StoreNPToEnvironment,
        45 => Mnemonic::StoreNPToEnvironmentL,
        46 => Mnemonic::LoadFromEnvironment,
        47 => Mnemonic::LoadFromEnvironmentL,
        48 => Mnemonic::GetGlobalObject,
        49 => Mnemonic::GetNewTarget,
        50 => Mnemonic::CreateEnvironment,
        51 => Mnemonic::CreateInnerEnvironment,
        52 => Mnemonic::DeclareGlobalVar,
        53 => Mnemonic::ThrowIfHasRestrictedGlobalProperty,
        54 => Mnemonic::GetByIdShort,
        55 => Mnemonic::GetById,
        56 => Mnemonic::GetByIdLong,
        57 => Mnemonic::TryGetById,
        58 => Mnemonic::TryGetByIdLong,
        59 => Mnemonic::PutById,
        60 => Mnemonic::PutByIdLong,
        61 => Mnemonic::TryPutById,
        62 => Mnemonic::TryPutByIdLong,
        63 => Mnemonic::PutNewOwnByIdShort,
        64 => Mnemonic::PutNewOwnById,
        65 => Mnemonic::PutNewOwnByIdLong,
        66 => Mnemonic::PutNewOwnNEById,
        67 => Mnemonic::PutNewOwnNEByIdLong,
        68 => Mnemonic::PutOwnByIndex,
        69 => Mnemonic::PutOwnByIndexL,
        70 => Mnemonic::PutOwnByVal,
        71 => Mnemonic::DelById,
        72 => Mnemonic::DelByIdLong,
        73 => Mnemonic::GetByVal,
        74 => Mnemonic::PutByVal,
        75 => Mnemonic::DelByVal,
        76 => Mnemonic::PutOwnGetterSetterByVal,
        77 => Mnemonic::GetPNameList,
        78 => Mnemonic::GetNextPName,
        79 => Mnemonic::Call,
        80 => Mnemonic::Construct,
        81 => Mnemonic::Call1,
        82 => Mnemonic::CallDirect,
        83 => Mnemonic::Call2,
        84 => Mnemonic::Call3,
        85 => Mnemonic::Call4,
        86 => Mnemonic::CallLong,
        87 => Mnemonic::ConstructLong,
        88 => Mnemonic::CallDirectLongIndex,
        89 => Mnemonic::CallBuiltin,
        90 => Mnemonic::CallBuiltinLong,
        91 => Mnemonic::GetBuiltinClosure,
        92 => Mnemonic::Ret,
        93 => Mnemonic::Catch,
        94 => Mnemonic::DirectEval,
        95 => Mnemonic::Throw,
        96 => Mnemonic::ThrowIfEmpty,
        97 => Mnemonic::Debugger,
        98 => Mnemonic::AsyncBreakCheck,
        99 => Mnemonic::ProfilePoint,
        100 => Mnemonic::CreateClosure,
        101 => Mnemonic::CreateClosureLongIndex,
        102 => Mnemonic::CreateGeneratorClosure,
        103 => Mnemonic::CreateGeneratorClosureLongIndex,
        104 => Mnemonic::CreateAsyncClosure,
        105 => Mnemonic::CreateAsyncClosureLongIndex,
        106 => Mnemonic::CreateThis,
        107 => Mnemonic::SelectObject,
        108 => Mnemonic::LoadParam,
        109 => Mnemonic::LoadParamLong,
        110 => Mnemonic::LoadConstUInt8,
        111 => Mnemonic::LoadConstInt,
        112 => Mnemonic::LoadConstDouble,
        113 => Mnemonic::LoadConstBigInt,
        114 => Mnemonic::LoadConstBigIntLongIndex,
        115 => Mnemonic::LoadConstString,
        116 => Mnemonic::LoadConstStringLongIndex,
        117 => Mnemonic::LoadConstEmpty,
        118 => Mnemonic::LoadConstUndefined,
        119 => Mnemonic::LoadConstNull,
        120 => Mnemonic::LoadConstTrue,
        121 => Mnemonic::LoadConstFalse,
        122 => Mnemonic::LoadConstZero,
        123 => Mnemonic::CoerceThisNS,
        124 => Mnemonic::LoadThisNS,
        125 => Mnemonic::ToNumber,
        126 => Mnemonic::ToNumeric,
        127 => Mnemonic::ToInt32,
        128 => Mnemonic::AddEmptyString,
        129 => Mnemonic::GetArgumentsPropByVal,
        130 => Mnemonic::GetArgumentsLength,
        131 => Mnemonic::ReifyArguments,
        132 => Mnemonic::CreateRegExp,
        133 => Mnemonic::SwitchImm,
        134 => Mnemonic::StartGenerator,
        135 => Mnemonic::ResumeGenerator,
        136 => Mnemonic::CompleteGenerator,
        137 => Mnemonic::CreateGenerator,
        138 => Mnemonic::CreateGeneratorLongIndex,
        139 => Mnemonic::IteratorBegin,
        140 => Mnemonic::IteratorNext,
        141 => Mnemonic::IteratorClose,
        142 => Mnemonic::Jmp,
        143 => Mnemonic::JmpLong,
        144 => Mnemonic::JmpTrue,
        145 => Mnemonic::JmpTrueLong,
        146 => Mnemonic::JmpFalse,
        147 => Mnemonic::JmpFalseLong,
        148 => Mnemonic::JmpUndefined,
        149 => Mnemonic::JmpUndefinedLong,
        150 => Mnemonic::SaveGenerator,
        151 => Mnemonic::SaveGeneratorLong,
        152 => Mnemonic::JLess,
        153 => Mnemonic::JLessLong,
        154 => Mnemonic::JNotLess,
        155 => Mnemonic::JNotLessLong,
        156 => Mnemonic::JLessN,
        157 => Mnemonic::JLessNLong,
        158 => Mnemonic::JNotLessN,
        159 => Mnemonic::JNotLessNLong,
        160 => Mnemonic::JLessEqual,
        161 => Mnemonic::JLessEqualLong,
        162 => Mnemonic::JNotLessEqual,
        163 => Mnemonic::JNotLessEqualLong,
        164 => Mnemonic::JLessEqualN,
        165 => Mnemonic::JLessEqualNLong,
        166 => Mnemonic::JNotLessEqualN,
        167 => Mnemonic::JNotLessEqualNLong,
        168 => Mnemonic::JGreater,
        169 => Mnemonic::JGreaterLong,
        170 => Mnemonic::JNotGreater,
        171 => Mnemonic::JNotGreaterLong,
        172 => Mnemonic::JGreaterN,
        173 => Mnemonic::JGreaterNLong,
        174 => Mnemonic::JNotGreaterN,
        175 => Mnemonic::JNotGreaterNLong,
        176 => Mnemonic::JGreaterEqual,
        177 => Mnemonic::JGreaterEqualLong,
        178 => Mnemonic::JNotGreaterEqual,
        179 => Mnemonic::JNotGreaterEqualLong,
        180 => Mnemonic::JGreaterEqualN,
        181 => Mnemonic::JGreaterEqualNLong,
        182 => Mnemonic::JNotGreaterEqualN,
        183 => Mnemonic::JNotGreaterEqualNLong,
        184 => Mnemonic::JEqual,
        185 => Mnemonic::JEqualLong,
        186 => Mnemonic::JNotEqual,
        187 => Mnemonic::JNotEqualLong,
        188 => Mnemonic::JStrictEqual,
        189 => Mnemonic::JStrictEqualLong,
        190 => Mnemonic::JStrictNotEqual,
        191 => Mnemonic::JStrictNotEqualLong,
        192 => Mnemonic::Add32,
        193 => Mnemonic::Sub32,
        194 => Mnemonic::Mul32,
        195 => Mnemonic::Divi32,
        196 => Mnemonic::Divu32,
        197 => Mnemonic::Loadi8,
        198 => Mnemonic::Loadu8,
        199 => Mnemonic::Loadi16,
        200 => Mnemonic::Loadu16,
        201 => Mnemonic::Loadi32,
        202 => Mnemonic::Loadu32,
        203 => Mnemonic::Store8,
        204 => Mnemonic::Store16,
        205 => Mnemonic::Store32,
        _ => Mnemonic::Unreachable,
    }
}

/// The instruction that `op` stands for.
pub fn op_to_mnemonic(op: u8) -> (m: Mnemonic)
    ensures
        m == spec_mnemonic(op),
{
    match op {
        0 => Mnemonic::Unreachable,
        1 => Mnemonic::NewObjectWithBuffer,
        2 => Mnemonic::NewObjectWithBufferLong,
        3 => Mnemonic::NewObject,
        4 => Mnemonic::NewObjectWithParent,
        5 => Mnemonic::NewArrayWithBuffer,
        6 => Mnemonic::NewArrayWithBufferLong,
        7 => Mnemonic::NewArray,
        8 => Mnemonic::Mov,
        9 => Mnemonic::MovLong,
        10 => Mnemonic::Negate,
        11 => Mnemonic::Not,
        12 => Mnemonic::BitNot,
        13 => Mnemonic::TypeOf,
        14 => Mnemonic::Eq,
        15 => Mnemonic::StrictEq,
        16 => Mnemonic::Neq,
        17 => Mnemonic::StrictNeq,
        18 => Mnemonic::Less,
        19 => Mnemonic::LessEq,
        20 => Mnemonic::Greater,
        21 => Mnemonic::GreaterEq,
        22 => Mnemonic::Add,
        23 => Mnemonic::AddN,
        24 => Mnemonic::Mul,
        25 => Mnemonic::MulN,
        26 => Mnemonic::Div,
        27 => Mnemonic::DivN,
        28 => Mnemonic::Mod,
        29 => Mnemonic::Sub,
        30 => Mnemonic::SubN,
        31 => Mnemonic::LShift,
        32 => Mnemonic::RShift,
        33 => Mnemonic::URshift,
        34 => Mnemonic::BitAnd,
        35 => Mnemonic::BitXor,
        36 => Mnemonic::BitOr,
        37 => Mnemonic::Inc,
        38 => Mnemonic::Dec,
        39 => Mnemonic::InstanceOf,
        40 => Mnemonic::IsIn,
        41 => Mnemonic::GetEnvironment,
        42 => Mnemonic::StoreToEnvironment,
        43 => Mnemonic::StoreToEnvironmentL,
        44 => Mnemonic::StoreNPToEnvironment,
        45 => Mnemonic::StoreNPToEnvironmentL,
        46 => Mnemonic::LoadFromEnvironment,
        47 => Mnemonic::LoadFromEnvironmentL,
        48 => Mnemonic::GetGlobalObject,
        49 => Mnemonic::GetNewTarget,
        50 => Mnemonic::CreateEnvironment,
        51 => Mnemonic::CreateInnerEnvironment,
        52 => Mnemonic::DeclareGlobalVar,
        53 => Mnemonic::ThrowIfHasRestrictedGlobalProperty,
        54 => Mnemonic::GetByIdShort,
        55 => Mnemonic::GetById,
        56 => Mnemonic::GetByIdLong,
        57 => Mnemonic::TryGetById,
        58 => Mnemonic::TryGetByIdLong,
        59 => Mnemonic::PutById,
        60 => Mnemonic::PutByIdLong,
        61 => Mnemonic::TryPutById,
        62 => Mnemonic::TryPutByIdLong,
        63 => Mnemonic::PutNewOwnByIdShort,
        64 => Mnemonic::PutNewOwnById,
        65 => Mnemonic::PutNewOwnByIdLong,
        66 => Mnemonic::PutNewOwnNEById,
        67 => Mnemonic::PutNewOwnNEByIdLong,
        68 => Mnemonic::PutOwnByIndex,
        69 => Mnemonic::PutOwnByIndexL,
        70 => Mnemonic::PutOwnByVal,
        71 => Mnemonic::DelById,
        72 => Mnemonic::DelByIdLong,
        73 => Mnemonic::GetByVal,
        74 => Mnemonic::PutByVal,
        75 => Mnemonic::DelByVal,
        76 => Mnemonic::PutOwnGetterSetterByVal,
        77 => Mnemonic::GetPNameList,
        78 => Mnemonic::GetNextPName,
        79 => Mnemonic::Call,
        80 => Mnemonic::Construct,
        81 => Mnemonic::Call1,
        82 => Mnemonic::CallDirect,
        83 => Mnemonic::Call2,
        84 => Mnemonic::Call3,
        85 => Mnemonic::Call4,
        86 => Mnemonic::CallLong,
        87 => Mnemonic::ConstructLong,
        88 => Mnemonic::CallDirectLongIndex,
        89 => Mnemonic::CallBuiltin,
        90 => Mnemonic::CallBuiltinLong,
        91 => Mnemonic::GetBuiltinClosure,
        92 => Mnemonic::Ret,
        93 => Mnemonic::Catch,
        94 => Mnemonic::DirectEval,
        95 => Mnemonic::Throw,
        96 => Mnemonic::ThrowIfEmpty,
        97 => Mnemonic::Debugger,
        98 => Mnemonic::AsyncBreakCheck,
        99 => Mnemonic::ProfilePoint,
        100 => Mnemonic::CreateClosure,
        101 => Mnemonic::CreateClosureLongIndex,
        102 => Mnemonic::CreateGeneratorClosure,
        103 => Mnemonic::CreateGeneratorClosureLongIndex,
        104 => Mnemonic::CreateAsyncClosure,
        105 => Mnemonic::CreateAsyncClosureLongIndex,
        106 => Mnemonic::CreateThis,
        107 => Mnemonic::SelectObject,
        108 => Mnemonic::LoadParam,
        109 => Mnemonic::LoadParamLong,
        110 => Mnemonic::LoadConstUInt8,
        111 => Mnemonic::LoadConstInt,
        112 => Mnemonic::LoadConstDouble,
        113 => Mnemonic::LoadConstBigInt,
        114 => Mnemonic::LoadConstBigIntLongIndex,
        115 => Mnemonic::LoadConstString,
        116 => Mnemonic::LoadConstStringLongIndex,
        117 => Mnemonic::LoadConstEmpty,
        118 => Mnemonic::LoadConstUndefined,
        119 => Mnemonic::LoadConstNull,
        120 => Mnemonic::LoadConstTrue,
        121 => Mnemonic::LoadConstFalse,
        122 => Mnemonic::LoadConstZero,
        123 => Mnemonic::CoerceThisNS,
        124 => Mnemonic::LoadThisNS,
        125 => Mnemonic::ToNumber,
        126 => Mnemonic::ToNumeric,
        127 => Mnemonic::ToInt32,
        128 => Mnemonic::AddEmptyString,
        129 => Mnemonic::GetArgumentsPropByVal,
        130 => Mnemonic::GetArgumentsLength,
        131 => Mnemonic::ReifyArguments,
        132 => Mnemonic::CreateRegExp,
        133 => Mnemonic::SwitchImm,
        134 => Mnemonic::StartGenerator,
        135 => Mnemonic::ResumeGenerator,
        136 => Mnemonic::CompleteGenerator,
        137 => Mnemonic::CreateGenerator,
        138 => Mnemonic::CreateGeneratorLongIndex,
        139 => Mnemonic::IteratorBegin,
        140 => Mnemonic::IteratorNext,
        141 => Mnemonic::IteratorClose,
        142 => Mnemonic::Jmp,
        143 => Mnemonic::JmpLong,
        144 => Mnemonic::JmpTrue,
        145 => Mnemonic::JmpTrueLong,
        146 => Mnemonic::JmpFalse,
        147 => Mnemonic::JmpFalseLong,
        148 => Mnemonic::JmpUndefined,
        149 => Mnemonic::JmpUndefinedLong,
        150 => Mnemonic::SaveGenerator,
        151 => Mnemonic::SaveGeneratorLong,
        152 => Mnemonic::JLess,
        153 => Mnemonic::JLessLong,
        154 => Mnemonic::JNotLess,
        155 => Mnemonic::JNotLessLong,
        156 => Mnemonic::JLessN,
        157 => Mnemonic::JLessNLong,
        158 => Mnemonic::JNotLessN,
        159 => Mnemonic::JNotLessNLong,
        160 => Mnemonic::JLessEqual,
        161 => Mnemonic::JLessEqualLong,
        162 => Mnemonic::JNotLessEqual,
        163 => Mnemonic::JNotLessEqualLong,
        164 => Mnemonic::JLessEqualN,
        165 => Mnemonic::JLessEqualNLong,
        166 => Mnemonic::JNotLessEqualN,
        167 => Mnemonic::JNotLessEqualNLong,
        168 => Mnemonic::JGreater,
        169 => Mnemonic::JGreaterLong,
        170 => Mnemonic::JNotGreater,
        171 => Mnemonic::JNotGreaterLong,
        172 => Mnemonic::JGreaterN,
        173 => Mnemonic::JGreaterNLong,
        174 => Mnemonic::JNotGreaterN,
        175 => Mnemonic::JNotGreaterNLong,
        176 => Mnemonic::JGreaterEqual,
        177 => Mnemonic::JGreaterEqualLong,
        178 => Mnemonic::JNotGreaterEqual,
        179 => Mnemonic::JNotGreaterEqualLong,
        180 => Mnemonic::JGreaterEqualN,
        181 => Mnemonic::JGreaterEqualNLong,
        182 => Mnemonic::JNotGreaterEqualN,
        183 => Mnemonic::JNotGreaterEqualNLong,
        184 => Mnemonic::JEqual,
        185 => Mnemonic::JEqualLong,
        186 => Mnemonic::JNotEqual,
        187 => Mnemonic::JNotEqualLong,
        188 => Mnemonic::JStrictEqual,
        189 => Mnemonic::JStrictEqualLong,
        190 => Mnemonic::JStrictNotEqual,
        191 => Mnemonic::JStrictNotEqualLong,
        192 => Mnemonic::Add32,
        193 => Mnemonic::Sub32,
        194 => Mnemonic::Mul32,
        195 => Mnemonic::Divi32,
        196 => Mnemonic::Divu32,
        197 => Mnemonic::Loadi8,
        198 => Mnemonic::Loadu8,
        199 => Mnemonic::Loadi16,
        200 => Mnemonic::Loadu16,
        201 => Mnemonic::Loadi32,
        202 => Mnemonic::Loadu32,
        203 => Mnemonic::Store8,
        204 => Mnemonic::Store16,
        205 => Mnemonic::Store32,
        _ => Mnemonic::Unreachable,
    }
}

/// The byte that stands for `m`, if this version has the instruction.
pub open spec fn spec_opcode(m: Mnemonic) -> Option<u8> {
    match m {
        Mnemonic::Unreachable => Some(0),
        Mnemonic::NewObjectWithBuffer => Some(1),
        Mnemonic::NewObjectWithBufferLong => Some(2),
        Mnemonic::NewObject => Some(3),
        Mnemonic::NewObjectWithParent => Some(4),
        Mnemonic::NewArrayWithBuffer => Some(5),
        Mnemonic::NewArrayWithBufferLong => Some(6),
        Mnemonic::NewArray => Some(7),
        Mnemonic::Mov => Some(8),
        Mnemonic::MovLong => Some(9),
        Mnemonic::Negate => Some(10),
        Mnemonic::Not => Some(11),
        Mnemonic::BitNot => Some(12),
        Mnemonic::TypeOf => Some(13),
        Mnemonic::Eq => Some(14),
        Mnemonic::StrictEq => Some(15),
        Mnemonic::Neq => Some(16),
        Mnemonic::StrictNeq => Some(17),
        Mnemonic::Less => Some(18),
        Mnemonic::LessEq => Some(19),
        Mnemonic::Greater => Some(20),
        Mnemonic::GreaterEq => Some(21),
        Mnemonic::Add => Some(22),
        Mnemonic::AddN => Some(23),
        Mnemonic::Mul => Some(24),
        Mnemonic::MulN => Some(25),
        Mnemonic::Div => Some(26),
        Mnemonic::DivN => Some(27),
        Mnemonic::Mod => Some(28),
        Mnemonic::Sub => Some(29),
        Mnemonic::SubN => Some(30),
        Mnemonic::LShift => Some(31),
        Mnemonic::RShift => Some(32),
        Mnemonic::URshift => Some(33),
        Mnemonic::BitAnd => Some(34),
        Mnemonic::BitXor => Some(35),
        Mnemonic::BitOr => Some(36),
        Mnemonic::Inc => Some(37),
        Mnemonic::Dec => Some(38),
        Mnemonic::InstanceOf => Some(39),
        Mnemonic::IsIn => Some(40),
        Mnemonic::GetEnvironment => Some(41),
        Mnemonic::StoreToEnvironment => Some(42),
        Mnemonic::StoreToEnvironmentL => Some(43),
        Mnemonic::StoreNPToEnvironment => Some(44),
        Mnemonic::StoreNPToEnvironmentL => Some(45),
        Mnemonic::LoadFromEnvironment => Some(46),
        Mnemonic::LoadFromEnvironmentL => Some(47),
        Mnemonic::GetGlobalObject => Some(48),
        Mnemonic::GetNewTarget => Some(49),
        Mnemonic::CreateEnvironment => Some(50),
        Mnemonic::CreateInnerEnvironment => Some(51),
        Mnemonic::DeclareGlobalVar => Some(52),
        Mnemonic::ThrowIfHasRestrictedGlobalProperty => Some(53),
        Mnemonic::GetByIdShort => Some(54),
        Mnemonic::GetById => Some(55),
        Mnemonic::GetByIdLong => Some(56),
        Mnemonic::TryGetById => Some(57),
        Mnemonic::TryGetByIdLong => Some(58),
        Mnemonic::PutById => Some(59),
        Mnemonic::PutByIdLong => Some(60),
        Mnemonic::TryPutById => Some(61),
        Mnemonic::TryPutByIdLong => Some(62),
        Mnemonic::PutNewOwnByIdShort => Some(63),
        Mnemonic::PutNewOwnById => Some(64),
        Mnemonic::PutNewOwnByIdLong => Some(65),
        Mnemonic::PutNewOwnNEById => Some(66),
        Mnemonic::PutNewOwnNEByIdLong => Some(67),
        Mnemonic::PutOwnByIndex => Some(68),
        Mnemonic::PutOwnByIndexL => Some(69),
        Mnemonic::PutOwnByVal => Some(70),
        Mnemonic::DelById => Some(71),
        Mnemonic::DelByIdLong => Some(72),
        Mnemonic::GetByVal => Some(73),
        Mnemonic::PutByVal => Some(74),
        Mnemonic::DelByVal => Some(75),
        Mnemonic::PutOwnGetterSetterByVal => Some(76),
        Mnemonic::GetPNameList => Some(77),
        Mnemonic::GetNextPName => Some(78),
        Mnemonic::Call => Some(79),
        Mnemonic::Construct => Some(80),
        Mnemonic::Call1 => Some(81),
        Mnemonic::CallDirect => Some(82),
        Mnemonic::Call2 => Some(83),
        Mnemonic::Call3 => Some(84),
        Mnemonic::Call4 => Some(85),
        Mnemonic::CallLong => Some(86),
        Mnemonic::ConstructLong => Some(87),
        Mnemonic::CallDirectLongIndex => Some(88),
        Mnemonic::CallBuiltin => Some(89),
        Mnemonic::CallBuiltinLong => Some(90),
        Mnemonic::GetBuiltinClosure => Some(91),
        Mnemonic::Ret => Some(92),
        Mnemonic::Catch => Some(93),
        Mnemonic::DirectEval => Some(94),
        Mnemonic::Throw => Some(95),
        Mnemonic::ThrowIfEmpty => Some(96),
        Mnemonic::Debugger => Some(97),
        Mnemonic::AsyncBreakCheck => Some(98),
        Mnemonic::ProfilePoint => Some(99),
        Mnemonic::CreateClosure => Some(100),
        Mnemonic::CreateClosureLongIndex => Some(101),
        Mnemonic::CreateGeneratorClosure => Some(102),
        Mnemonic::CreateGeneratorClosureLongIndex => Some(103),
        Mnemonic::CreateAsyncClosure => Some(104),
        Mnemonic::CreateAsyncClosureLongIndex => Some(105),
        Mnemonic::CreateThis => Some(106),
        Mnemonic::SelectObject => Some(107),
        Mnemonic::LoadParam => Some(108),
        Mnemonic::LoadParamLong => Some(109),
        Mnemonic::LoadConstUInt8 => Some(110),
        Mnemonic::LoadConstInt => Some(111),
        Mnemonic::LoadConstDouble => Some(112),
        Mnemonic::LoadConstBigInt => Some(113),
        Mnemonic::LoadConstBigIntLongIndex => Some(114),
        Mnemonic::LoadConstString => Some(115),
        Mnemonic::LoadConstStringLongIndex => Some(116),
        Mnemonic::LoadConstEmpty => Some(117),
        Mnemonic::LoadConstUndefined => Some(118),
        Mnemonic::LoadConstNull => Some(119),
        Mnemonic::LoadConstTrue => Some(120),
        Mnemonic::LoadConstFalse => Some(121),
        Mnemonic::LoadConstZero => Some(122),
        Mnemonic::CoerceThisNS => Some(123),
        Mnemonic::LoadThisNS => Some(124),
        Mnemonic::ToNumber => Some(125),
        Mnemonic::ToNumeric => Some(126),
        Mnemonic::ToInt32 => Some(127),
        Mnemonic::AddEmptyString => Some(128),
        Mnemonic::GetArgumentsPropByVal => Some(129),
        Mnemonic::GetArgumentsLength => Some(130),
        Mnemonic::ReifyArguments => Some(131),
        Mnemonic::CreateRegExp => Some(132),
        Mnemonic::SwitchImm => Some(133),
        Mnemonic::StartGenerator => Some(134),
        Mnemonic::ResumeGenerator => Some(135),
        Mnemonic::CompleteGenerator => Some(136),
        Mnemonic::CreateGenerator => Some(137),
        Mnemonic::CreateGeneratorLongIndex => Some(138),
        Mnemonic::IteratorBegin => Some(139),
        Mnemonic::IteratorNext => Some(140),
        Mnemonic::IteratorClose => Some(141),
        Mnemonic::Jmp => Some(142),
        Mnemonic::JmpLong => Some(143),
        Mnemonic::JmpTrue => Some(144),
        Mnemonic::JmpTrueLong => Some(145),
        Mnemonic::JmpFalse => Some(146),
        Mnemonic::JmpFalseLong => Some(147),
        Mnemonic::JmpUndefined => Some(148),
        Mnemonic::JmpUndefinedLong => Some(149),
        Mnemonic::SaveGenerator => Some(150),
        Mnemonic::SaveGeneratorLong => Some(151),
        Mnemonic::JLess => Some(152),
        Mnemonic::JLessLong => Some(153),
        Mnemonic::JNotLess => Some(154),
        Mnemonic::JNotLessLong => Some(155),
        Mnemonic::JLessN => Some(156),
        Mnemonic::JLessNLong => Some(157),
        Mnemonic::JNotLessN => Some(158),
        Mnemonic::JNotLessNLong => Some(159),
        Mnemonic::JLessEqual => Some(160),
        Mnemonic::JLessEqualLong => Some(161),
        Mnemonic::JNotLessEqual => Some(162),
        Mnemonic::JNotLessEqualLong => Some(163),
        Mnemonic::JLessEqualN => Some(164),
        Mnemonic::JLessEqualNLong => Some(165),
        Mnemonic::JNotLessEqualN => Some(166),
        Mnemonic::JNotLessEqualNLong => Some(167),
        Mnemonic::JGreater => Some(168),
        Mnemonic::JGreaterLong => Some(169),
        Mnemonic::JNotGreater => Some(170),
        Mnemonic::JNotGreaterLong => Some(171),
        Mnemonic::JGreaterN => Some(172),
        Mnemonic::JGreaterNLong => Some(173),
        Mnemonic::JNotGreaterN => Some(174),
        Mnemonic::JNotGreaterNLong => Some(175),
        Mnemonic::JGreaterEqual => Some(176),
        Mnemonic::JGreaterEqualLong => Some(177),
        Mnemonic::JNotGreaterEqual => Some(178),
        Mnemonic::JNotGreaterEqualLong => Some(179),
        Mnemonic::JGreaterEqualN => Some(180),
        Mnemonic::JGreaterEqualNLong => Some(181),
        Mnemonic::JNotGreaterEqualN => Some(182),
        Mnemonic::JNotGreaterEqualNLong => Some(183),
        Mnemonic::JEqual => Some(184),
        Mnemonic::JEqualLong => Some(185),
        Mnemonic::JNotEqual => Some(186),
        Mnemonic::JNotEqualLong => Some(187),
        Mnemonic::JStrictEqual => Some(188),
        Mnemonic::JStrictEqualLong => Some(189),
        Mnemonic::JStrictNotEqual => Some(190),
        Mnemonic::JStrictNotEqualLong => Some(191),
        Mnemonic::Add32 => Some(192),
        Mnemonic::Sub32 => Some(193),
        Mnemonic::Mul32 => Some(194),
        Mnemonic::Divi32 => Some(195),
        Mnemonic::Divu32 => Some(196),
        Mnemonic::Loadi8 => Some(197),
        Mnemonic::Loadu8 => Some(198),
        Mnemonic::Loadi16 => Some(199),
        Mnemonic::Loadu16 => Some(200),
        Mnemonic::Loadi32 => Some(201),
        Mnemonic::Loadu32 => Some(202),
        Mnemonic::Store8 => Some(203),
        Mnemonic::Store16 => Some(204),
        Mnemonic::Store32 => Some(205),
    }
}

/// The byte that stands for `m`, if this version has the instruction.
pub fn mnemonic_to_op(m: Mnemonic) -> (op: Option<u8>)
    ensures
        op == spec_opcode(m),
{
    match m {
        Mnemonic::Unreachable => Some(0),
        Mnemonic::NewObjectWithBuffer => Some(1),
        Mnemonic::NewObjectWithBufferLong => Some(2),
        Mnemonic::NewObject => Some(3),
        Mnemonic::NewObjectWithParent => Some(4),
        Mnemonic::NewArrayWithBuffer => Some(5),
        Mnemonic::NewArrayWithBufferLong => Some(6),
        Mnemonic::NewArray => Some(7),
        Mnemonic::Mov => Some(8),
        Mnemonic::MovLong => Some(9),
        Mnemonic::Negate => Some(10),
        Mnemonic::Not => Some(11),
        Mnemonic::BitNot => Some(12),
        Mnemonic::TypeOf => Some(13),
        Mnemonic::Eq => Some(14),
        Mnemonic::StrictEq => Some(15),
        Mnemonic::Neq => Some(16),
        Mnemonic::StrictNeq => Some(17),
        Mnemonic::Less => Some(18),
        Mnemonic::LessEq => Some(19),
        Mnemonic::Greater => Some(20),
        Mnemonic::GreaterEq => Some(21),
        Mnemonic::Add => Some(22),
        Mnemonic::AddN => Some(23),
        Mnemonic::Mul => Some(24),
        Mnemonic::MulN => Some(25),
        Mnemonic::Div => Some(26),
        Mnemonic::DivN => Some(27),
        Mnemonic::Mod => Some(28),
        Mnemonic::Sub => Some(29),
        Mnemonic::SubN => Some(30),
        Mnemonic::LShift => Some(31),
        Mnemonic::RShift => Some(32),
        Mnemonic::URshift => Some(33),
        Mnemonic::BitAnd => Some(34),
        Mnemonic::BitXor => Some(35),
        Mnemonic::BitOr => Some(36),
        Mnemonic::Inc => Some(37),
        Mnemonic::Dec => Some(38),
        Mnemonic::InstanceOf => Some(39),
        Mnemonic::IsIn => Some(40),
        Mnemonic::GetEnvironment => Some(41),
        Mnemonic::StoreToEnvironment => Some(42),
        Mnemonic::StoreToEnvironmentL => Some(43),
        Mnemonic::StoreNPToEnvironment => Some(44),
        Mnemonic::StoreNPToEnvironmentL => Some(45),
        Mnemonic::LoadFromEnvironment => Some(46),
        Mnemonic::LoadFromEnvironmentL => Some(47),
        Mnemonic::GetGlobalObject => Some(48),
        Mnemonic::GetNewTarget => Some(49),
        Mnemonic::CreateEnvironment => Some(50),
        Mnemonic::CreateInnerEnvironment => Some(51),
        Mnemonic::DeclareGlobalVar => Some(52),
        Mnemonic::ThrowIfHasRestrictedGlobalProperty => Some(53),
        Mnemonic::GetByIdShort => Some(54),
        Mnemonic::GetById => Some(55),
        Mnemonic::GetByIdLong => Some(56),
        Mnemonic::TryGetById => Some(57),
        Mnemonic::TryGetByIdLong => Some(58),
        Mnemonic::PutById => Some(59),
        Mnemonic::PutByIdLong => Some(60),
        Mnemonic::TryPutById => Some(61),
        Mnemonic::TryPutByIdLong => Some(62),
        Mnemonic::PutNewOwnByIdShort => Some(63),
        Mnemonic::PutNewOwnById => Some(64),
        Mnemonic::PutNewOwnByIdLong => Some(65),
        Mnemonic::PutNewOwnNEById => Some(66),
        Mnemonic::PutNewOwnNEByIdLong => Some(67),
        Mnemonic::PutOwnByIndex => Some(68),
        Mnemonic::PutOwnByIndexL => Some(69),
        Mnemonic::PutOwnByVal => Some(70),
        Mnemonic::DelById => Some(71),
        Mnemonic::DelByIdLong => Some(72),
        Mnemonic::GetByVal => Some(73),
        Mnemonic::PutByVal => Some(74),
        Mnemonic::DelByVal => Some(75),
        Mnemonic::PutOwnGetterSetterByVal => Some(76),
        Mnemonic::GetPNameList => Some(77),
        Mnemonic::GetNextPName => Some(78),
        Mnemonic::Call => Some(79),
        Mnemonic::Construct => Some(80),
        Mnemonic::Call1 => Some(81),
        Mnemonic::CallDirect => Some(82),
        Mnemonic::Call2 => Some(83),
        Mnemonic::Call3 => Some(84),
        Mnemonic::Call4 => Some(85),
        Mnemonic::CallLong => Some(86),
        Mnemonic::ConstructLong => Some(87),
        Mnemonic::CallDirectLongIndex => Some(88),
        Mnemonic::CallBuiltin => Some(89),
        Mnemonic::CallBuiltinLong => Some(90),
        Mnemonic::GetBuiltinClosure => Some(91),
        Mnemonic::Ret => Some(92),
        Mnemonic::Catch => Some(93),
        Mnemonic::DirectEval => Some(94),
        Mnemonic::Throw => Some(95),
        Mnemonic::ThrowIfEmpty => Some(96),
        Mnemonic::Debugger => Some(97),
        Mnemonic::AsyncBreakCheck => Some(98),
        Mnemonic::ProfilePoint => Some(99),
        Mnemonic::CreateClosure => Some(100),
        Mnemonic::CreateClosureLongIndex => Some(101),
        Mnemonic::CreateGeneratorClosure => Some(102),
        Mnemonic::CreateGeneratorClosureLongIndex => Some(103),
        Mnemonic::CreateAsyncClosure => Some(104),
        Mnemonic::CreateAsyncClosureLongIndex => Some(105),
        Mnemonic::CreateThis => Some(106),
        Mnemonic::SelectObject => Some(107),
        Mnemonic::LoadParam => Some(108),
        Mnemonic::LoadParamLong => Some(109),
        Mnemonic::LoadConstUInt8 => Some(110),
        Mnemonic::LoadConstInt => Some(111),
        Mnemonic::LoadConstDouble => Some(112),
        Mnemonic::LoadConstBigInt => Some(113),
        Mnemonic::LoadConstBigIntLongIndex => Some(114),
        Mnemonic::LoadConstString => Some(115),
        Mnemonic::LoadConstStringLongIndex => Some(116),
        Mnemonic::LoadConstEmpty => Some(117),
        Mnemonic::LoadConstUndefined => Some(118),
        Mnemonic::LoadConstNull => Some(119),
        Mnemonic::LoadConstTrue => Some(120),
        Mnemonic::LoadConstFalse => Some(121),
        Mnemonic::LoadConstZero => Some(122),
        Mnemonic::CoerceThisNS => Some(123),
        Mnemonic::LoadThisNS => Some(124),
        Mnemonic::ToNumber => Some(125),
        Mnemonic::ToNumeric => Some(126),
        Mnemonic::ToInt32 => Some(127),
        Mnemonic::AddEmptyString => Some(128),
        Mnemonic::GetArgumentsPropByVal => Some(129),
        Mnemonic::GetArgumentsLength => Some(130),
        Mnemonic::ReifyArguments => Some(131),
        Mnemonic::CreateRegExp => Some(132),
        Mnemonic::SwitchImm => Some(133),
        Mnemonic::StartGenerator => Some(134),
        Mnemonic::ResumeGenerator => Some(135),
        Mnemonic::CompleteGenerator => Some(136),
        Mnemonic::CreateGenerator => Some(137),
        Mnemonic::CreateGeneratorLongIndex => Some(138),
        Mnemonic::IteratorBegin => Some(139),
        Mnemonic::IteratorNext => Some(140),
        Mnemonic::IteratorClose => Some(141),
        Mnemonic::Jmp => Some(142),
        Mnemonic::JmpLong => Some(143),
        Mnemonic::JmpTrue => Some(144),
        Mnemonic::JmpTrueLong => Some(145),
        Mnemonic::JmpFalse => Some(146),
        Mnemonic::JmpFalseLong => Some(147),
        Mnemonic::JmpUndefined => Some(148),
        Mnemonic::JmpUndefinedLong => Some(149),
        Mnemonic::SaveGenerator => Some(150),
        Mnemonic::SaveGeneratorLong => Some(151),
        Mnemonic::JLess => Some(152),
        Mnemonic::JLessLong => Some(153),
        Mnemonic::JNotLess => Some(154),
        Mnemonic::JNotLessLong => Some(155),
        Mnemonic::JLessN => Some(156),
        Mnemonic::JLessNLong => Some(157),
        Mnemonic::JNotLessN => Some(158),
        Mnemonic::JNotLessNLong => Some(159),
        Mnemonic::JLessEqual => Some(160),
        Mnemonic::JLessEqualLong => Some(161),
        Mnemonic::JNotLessEqual => Some(162),
        Mnemonic::JNotLessEqualLong => Some(163),
        Mnemonic::JLessEqualN => Some(164),
        Mnemonic::JLessEqualNLong => Some(165),
        Mnemonic::JNotLessEqualN => Some(166),
        Mnemonic::JNotLessEqualNLong => Some(167),
        Mnemonic::JGreater => Some(168),
        Mnemonic::JGreaterLong => Some(169),
        Mnemonic::JNotGreater => Some(170),
        Mnemonic::JNotGreaterLong => Some(171),
        Mnemonic::JGreaterN => Some(172),
        Mnemonic::JGreaterNLong => Some(173),
        Mnemonic::JNotGreaterN => Some(174),
        Mnemonic::JNotGreaterNLong => Some(175),
        Mnemonic::JGreaterEqual => Some(176),
        Mnemonic::JGreaterEqualLong => Some(177),
        Mnemonic::JNotGreaterEqual => Some(178),
        Mnemonic::JNotGreaterEqualLong => Some(179),
        Mnemonic::JGreaterEqualN => Some(180),
        Mnemonic::JGreaterEqualNLong => Some(181),
        Mnemonic::JNotGreaterEqualN => Some(182),
        Mnemonic::JNotGreaterEqualNLong => Some(183),
        Mnemonic::JEqual => Some(184),
        Mnemonic::JEqualLong => Some(185),
        Mnemonic::JNotEqual => Some(186),
        Mnemonic::JNotEqualLong => Some(187),
        Mnemonic::JStrictEqual => Some(188),
        Mnemonic::JStrictEqualLong => Some(189),
        Mnemonic::JStrictNotEqual => Some(190),
        Mnemonic::JStrictNotEqualLong => Some(191),
        Mnemonic::Add32 => Some(192),
        Mnemonic::Sub32 => Some(193),
        Mnemonic::Mul32 => Some(194),
        Mnemonic::Divi32 => Some(195),
        Mnemonic::Divu32 => Some(196),
        Mnemonic::Loadi8 => Some(197),
        Mnemonic::Loadu8 => Some(198),
        Mnemonic::Loadi16 => Some(199),
        Mnemonic::Loadu16 => Some(200),
        Mnemonic::Loadi32 => Some(201),
        Mnemonic::Loadu32 => Some(202),
        Mnemonic::Store8 => Some(203),
        Mnemonic::Store16 => Some(204),
        Mnemonic::Store32 => Some(205),
    }
}

/// The kinds of the operands that follow the instruction's byte, in order.
/// An instruction that this version lacks has none.
pub open spec fn spec_operands(m: Mnemonic) -> Seq<OperandKind> {
    match m {
        Mnemonic::NewObjectWithBuffer => seq![OperandKind::Reg8, OperandKind::UInt16, OperandKind::UInt16, OperandKind::UInt16, OperandKind::UInt16],
        Mnemonic::NewObjectWithBufferLong => seq![OperandKind::Reg8, OperandKind::UInt16, OperandKind::UInt16, OperandKind::UInt32, OperandKind::UInt32],
        Mnemonic::NewObject | Mnemonic::GetGlobalObject | Mnemonic::GetNewTarget |
        Mnemonic::CreateEnvironment | Mnemonic::Ret | Mnemonic::Catch | Mnemonic::Throw |
        Mnemonic::LoadConstEmpty | Mnemonic::LoadConstUndefined | Mnemonic::LoadConstNull |
        Mnemonic::LoadConstTrue | Mnemonic::LoadConstFalse | Mnemonic::LoadConstZero |
        Mnemonic::LoadThisNS | Mnemonic::ReifyArguments => seq![OperandKind::Reg8],
        Mnemonic::NewObjectWithParent | Mnemonic::Mov | Mnemonic::Negate | Mnemonic::Not |
        Mnemonic::BitNot | Mnemonic::TypeOf | Mnemonic::Inc | Mnemonic::Dec |
        Mnemonic::ThrowIfEmpty | Mnemonic::CoerceThisNS | Mnemonic::ToNumber |
        Mnemonic::ToNumeric | Mnemonic::ToInt32 | Mnemonic::AddEmptyString |
        Mnemonic::GetArgumentsLength | Mnemonic::ResumeGenerator | Mnemonic::IteratorBegin => seq![OperandKind::Reg8, OperandKind::Reg8],
        Mnemonic::NewArrayWithBuffer => seq![OperandKind::Reg8, OperandKind::UInt16, OperandKind::UInt16, OperandKind::UInt16],
        Mnemonic::NewArrayWithBufferLong => seq![OperandKind::Reg8, OperandKind::UInt16, OperandKind::UInt16, OperandKind::UInt32],
        Mnemonic::NewArray => seq![OperandKind::Reg8, OperandKind::UInt16],
        Mnemonic::MovLong => seq![OperandKind::Reg32, OperandKind::Reg32],
        Mnemonic::Eq | Mnemonic::StrictEq | Mnemonic::Neq | Mnemonic::StrictNeq |
        Mnemonic::Less | Mnemonic::LessEq | Mnemonic::Greater | Mnemonic::GreaterEq |
        Mnemonic::Add | Mnemonic::AddN | Mnemonic::Mul | Mnemonic::MulN | Mnemonic::Div |
        Mnemonic::DivN | Mnemonic::Mod | Mnemonic::Sub | Mnemonic::SubN | Mnemonic::LShift |
        Mnemonic::RShift | Mnemonic::URshift | Mnemonic::BitAnd | Mnemonic::BitXor |
        Mnemonic::BitOr | Mnemonic::InstanceOf | Mnemonic::IsIn | Mnemonic::GetByVal |
        Mnemonic::PutByVal | Mnemonic::DelByVal | Mnemonic::Call1 | Mnemonic::CreateThis |
        Mnemonic::SelectObject | Mnemonic::GetArgumentsPropByVal | Mnemonic::IteratorNext |
        Mnemonic::Add32 | Mnemonic::Sub32 | Mnemonic::Mul32 | Mnemonic::Divi32 |
        Mnemonic::Divu32 | Mnemonic::Loadi8 | Mnemonic::Loadu8 | Mnemonic::Loadi16 |
        Mnemonic::Loadu16 | Mnemonic::Loadi32 | Mnemonic::Loadu32 | Mnemonic::Store8 |
        Mnemonic::Store16 | Mnemonic::Store32 => seq![OperandKind::Reg8, OperandKind::Reg8, OperandKind::Reg8],
        Mnemonic::GetEnvironment | Mnemonic::GetBuiltinClosure | Mnemonic::LoadParam |
        Mnemonic::LoadConstUInt8 | Mnemonic::IteratorClose => seq![OperandKind::Reg8, OperandKind::UInt8],
        Mnemonic::StoreToEnvironment | Mnemonic::StoreNPToEnvironment => seq![OperandKind::Reg8, OperandKind::UInt8, OperandKind::Reg8],
        Mnemonic::StoreToEnvironmentL | Mnemonic::StoreNPToEnvironmentL => seq![OperandKind::Reg8, OperandKind::UInt16, OperandKind::Reg8],
        Mnemonic::LoadFromEnvironment | Mnemonic::PutOwnByIndex | Mnemonic::Call |
        Mnemonic::Construct | Mnemonic::DirectEval => seq![OperandKind::Reg8, OperandKind::Reg8, OperandKind::UInt8],
        Mnemonic::LoadFromEnvironmentL => seq![OperandKind::Reg8, OperandKind::Reg8, OperandKind::UInt16],
        Mnemonic::CreateInnerEnvironment | Mnemonic::PutOwnByIndexL | Mnemonic::CallLong |
        Mnemonic::ConstructLong => seq![OperandKind::Reg8, OperandKind::Reg8, OperandKind::UInt32],
        Mnemonic::DeclareGlobalVar | Mnemonic::ThrowIfHasRestrictedGlobalProperty => seq![OperandKind::StringIDUInt32],
        Mnemonic::GetByIdShort => seq![OperandKind::Reg8, OperandKind::Reg8, OperandKind::UInt8, OperandKind::StringIDUInt8],
        Mnemonic::GetById | Mnemonic::TryGetById | Mnemonic::PutById | Mnemonic::TryPutById => seq![OperandKind::Reg8, OperandKind::Reg8, OperandKind::UInt8, OperandKind::StringIDUInt16],
        Mnemonic::GetByIdLong | Mnemonic::TryGetByIdLong | Mnemonic::PutByIdLong |
        Mnemonic::TryPutByIdLong => seq![OperandKind::Reg8, OperandKind::Reg8, OperandKind::UInt8, OperandKind::StringIDUInt32],
        Mnemonic::PutNewOwnByIdShort => seq![OperandKind::Reg8, OperandKind::Reg8, OperandKind::StringIDUInt8],
        Mnemonic::PutNewOwnById | Mnemonic::PutNewOwnNEById | Mnemonic::DelById => seq![OperandKind::Reg8, OperandKind::Reg8, OperandKind::StringIDUInt16],
        Mnemonic::PutNewOwnByIdLong | Mnemonic::PutNewOwnNEByIdLong | Mnemonic::DelByIdLong => seq![OperandKind::Reg8, OperandKind::Reg8, OperandKind::StringIDUInt32],
        Mnemonic::PutOwnByVal => seq![OperandKind::Reg8, OperandKind::Reg8, OperandKind::Reg8, OperandKind::UInt8],
        Mnemonic::PutOwnGetterSetterByVal => seq![OperandKind::Reg8, OperandKind::Reg8, OperandKind::Reg8, OperandKind::Reg8, OperandKind::UInt8],
        Mnemonic::GetPNameList | Mnemonic::Call2 => seq![OperandKind::Reg8, OperandKind::Reg8, OperandKind::Reg8, OperandKind::Reg8],
        Mnemonic::GetNextPName | Mnemonic::Call3 => seq![OperandKind::Reg8, OperandKind::Reg8, OperandKind::Reg8, OperandKind::Reg8, OperandKind::Reg8],
        Mnemonic::CallDirect => seq![OperandKind::Reg8, OperandKind::UInt8, OperandKind::FunctionIDUInt16],
        Mnemonic::Call4 => seq![OperandKind::Reg8, OperandKind::Reg8, OperandKind::Reg8, OperandKind::Reg8, OperandKind::Reg8, OperandKind::Reg8],
        Mnemonic::CallDirectLongIndex | Mnemonic::CallBuiltinLong => seq![OperandKind::Reg8, OperandKind::UInt8, OperandKind::UInt32],
        Mnemonic::CallBuiltin => seq![OperandKind::Reg8, OperandKind::UInt8, OperandKind::UInt8],
        Mnemonic::ProfilePoint => seq![OperandKind::UInt16],
        Mnemonic::CreateClosure | Mnemonic::CreateGeneratorClosure |
        Mnemonic::CreateAsyncClosure | Mnemonic::CreateGenerator => seq![OperandKind::Reg8, OperandKind::Reg8, OperandKind::FunctionIDUInt16],
        Mnemonic::CreateClosureLongIndex | Mnemonic::CreateGeneratorClosureLongIndex |
        Mnemonic::CreateAsyncClosureLongIndex | Mnemonic::CreateGeneratorLongIndex => seq![OperandKind::Reg8, OperandKind::Reg8, OperandKind::FunctionIDUInt32],
        Mnemonic::LoadParamLong => seq![OperandKind::Reg8, OperandKind::UInt32],
        Mnemonic::LoadConstInt => seq![OperandKind::Reg8, OperandKind::Imm32],
        Mnemonic::LoadConstDouble => seq![OperandKind::Reg8, OperandKind::Double],
        Mnemonic::LoadConstBigInt => seq![OperandKind::Reg8, OperandKind::BigIntIDUInt16],
        Mnemonic::LoadConstBigIntLongIndex => seq![OperandKind::Reg8, OperandKind::BigIntIDUInt32],
        Mnemonic::LoadConstString => seq![OperandKind::Reg8, OperandKind::StringIDUInt16],
        Mnemonic::LoadConstStringLongIndex => seq![OperandKind::Reg8, OperandKind::StringIDUInt32],
        Mnemonic::CreateRegExp => seq![OperandKind::Reg8, OperandKind::StringIDUInt32, OperandKind::StringIDUInt32, OperandKind::UInt32],
        Mnemonic::SwitchImm => seq![OperandKind::Reg8, OperandKind::UInt32, OperandKind::Addr32, OperandKind::UInt32, OperandKind::UInt32],
        Mnemonic::Jmp | Mnemonic::SaveGenerator => seq![OperandKind::Addr8],
        Mnemonic::JmpLong | Mnemonic::SaveGeneratorLong => seq![OperandKind::Addr32],
        Mnemonic::JmpTrue | Mnemonic::JmpFalse | Mnemonic::JmpUndefined => seq![OperandKind::Addr8, OperandKind::Reg8],
        Mnemonic::JmpTrueLong | Mnemonic::JmpFalseLong | Mnemonic::JmpUndefinedLong => seq![OperandKind::Addr32, OperandKind::Reg8],
        Mnemonic::JLess | Mnemonic::JNotLess | Mnemonic::JLessN | Mnemonic::JNotLessN |
        Mnemonic::JLessEqual | Mnemonic::JNotLessEqual | Mnemonic::JLessEqualN |
        Mnemonic::JNotLessEqualN | Mnemonic::JGreater | Mnemonic::JNotGreater |
        Mnemonic::JGreaterN | Mnemonic::JNotGreaterN | Mnemonic::JGreaterEqual |
        Mnemonic::JNotGreaterEqual | Mnemonic::JGreaterEqualN | Mnemonic::JNotGreaterEqualN |
        Mnemonic::JEqual | Mnemonic::JNotEqual | Mnemonic::JStrictEqual |
        Mnemonic::JStrictNotEqual => seq![OperandKind::Addr8, OperandKind::Reg8, OperandKind::Reg8],
        Mnemonic::JLessLong | Mnemonic::JNotLessLong | Mnemonic::JLessNLong |
        Mnemonic::JNotLessNLong | Mnemonic::JLessEqualLong | Mnemonic::JNotLessEqualLong |
        Mnemonic::JLessEqualNLong | Mnemonic::JNotLessEqualNLong | Mnemonic::JGreaterLong |
        Mnemonic::JNotGreaterLong | Mnemonic::JGreaterNLong | Mnemonic::JNotGreaterNLong |
        Mnemonic::JGreaterEqualLong | Mnemonic::JNotGreaterEqualLong |
        Mnemonic::JGreaterEqualNLong | Mnemonic::JNotGreaterEqualNLong | Mnemonic::JEqualLong |
        Mnemonic::JNotEqualLong | Mnemonic::JStrictEqualLong | Mnemonic::JStrictNotEqualLong => seq![OperandKind::Addr32, OperandKind::Reg8, OperandKind::Reg8],
        _ => seq![],
    }
}

/// The kinds of the operands that follow the instruction's byte, in order.
pub fn operands(m: Mnemonic) -> (kinds: Vec<OperandKind>)
    ensures
        kinds@ == spec_operands(m),
{
    match m {
        Mnemonic::NewObjectWithBuffer => vec![OperandKind::Reg8, OperandKind::UInt16, OperandKind::UInt16, OperandKind::UInt16, OperandKind::UInt16],
        Mnemonic::NewObjectWithBufferLong => vec![OperandKind::Reg8, OperandKind::UInt16, OperandKind::UInt16, OperandKind::UInt32, OperandKind::UInt32],
        Mnemonic::NewObject | Mnemonic::GetGlobalObject | Mnemonic::GetNewTarget |
        Mnemonic::CreateEnvironment | Mnemonic::Ret | Mnemonic::Catch | Mnemonic::Throw |
        Mnemonic::LoadConstEmpty | Mnemonic::LoadConstUndefined | Mnemonic::LoadConstNull |
        Mnemonic::LoadConstTrue | Mnemonic::LoadConstFalse | Mnemonic::LoadConstZero |
        Mnemonic::LoadThisNS | Mnemonic::ReifyArguments => vec![OperandKind::Reg8],
        Mnemonic::NewObjectWithParent | Mnemonic::Mov | Mnemonic::Negate | Mnemonic::Not |
        Mnemonic::BitNot | Mnemonic::TypeOf | Mnemonic::Inc | Mnemonic::Dec |
        Mnemonic::ThrowIfEmpty | Mnemonic::CoerceThisNS | Mnemonic::ToNumber |
        Mnemonic::ToNumeric | Mnemonic::ToInt32 | Mnemonic::AddEmptyString |
        Mnemonic::GetArgumentsLength | Mnemonic::ResumeGenerator | Mnemonic::IteratorBegin => vec![OperandKind::Reg8, OperandKind::Reg8],
        Mnemonic::NewArrayWithBuffer => vec![OperandKind::Reg8, OperandKind::UInt16, OperandKind::UInt16, OperandKind::UInt16],
        Mnemonic::NewArrayWithBufferLong => vec![OperandKind::Reg8, OperandKind::UInt16, OperandKind::UInt16, OperandKind::UInt32],
        Mnemonic::NewArray => vec![OperandKind::Reg8, OperandKind::UInt16],
        Mnemonic::MovLong => vec![OperandKind::Reg32, OperandKind::Reg32],
        Mnemonic::Eq | Mnemonic::StrictEq | Mnemonic::Neq | Mnemonic::StrictNeq |
        Mnemonic::Less | Mnemonic::LessEq | Mnemonic::Greater | Mnemonic::GreaterEq |
        Mnemonic::Add | Mnemonic::AddN | Mnemonic::Mul | Mnemonic::MulN | Mnemonic::Div |
        Mnemonic::DivN | Mnemonic::Mod | Mnemonic::Sub | Mnemonic::SubN | Mnemonic::LShift |
        Mnemonic::RShift | Mnemonic::URshift | Mnemonic::BitAnd | Mnemonic::BitXor |
        Mnemonic::BitOr | Mnemonic::InstanceOf | Mnemonic::IsIn | Mnemonic::GetByVal |
        Mnemonic::PutByVal | Mnemonic::DelByVal | Mnemonic::Call1 | Mnemonic::CreateThis |
        Mnemonic::SelectObject | Mnemonic::GetArgumentsPropByVal | Mnemonic::IteratorNext |
        Mnemonic::Add32 | Mnemonic::Sub32 | Mnemonic::Mul32 | Mnemonic::Divi32 |
        Mnemonic::Divu32 | Mnemonic::Loadi8 | Mnemonic::Loadu8 | Mnemonic::Loadi16 |
        Mnemonic::Loadu16 | Mnemonic::Loadi32 | Mnemonic::Loadu32 | Mnemonic::Store8 |
        Mnemonic::Store16 | Mnemonic::Store32 => vec![OperandKind::Reg8, OperandKind::Reg8, OperandKind::Reg8],
        Mnemonic::GetEnvironment | Mnemonic::GetBuiltinClosure | Mnemonic::LoadParam |
        Mnemonic::LoadConstUInt8 | Mnemonic::IteratorClose => vec![OperandKind::Reg8, OperandKind::UInt8],
        Mnemonic::StoreToEnvironment | Mnemonic::StoreNPToEnvironment => vec![OperandKind::Reg8, OperandKind::UInt8, OperandKind::Reg8],
        Mnemonic::StoreToEnvironmentL | Mnemonic::StoreNPToEnvironmentL => vec![OperandKind::Reg8, OperandKind::UInt16, OperandKind::Reg8],
        Mnemonic::LoadFromEnvironment | Mnemonic::PutOwnByIndex | Mnemonic::Call |
        Mnemonic::Construct | Mnemonic::DirectEval => vec![OperandKind::Reg8, OperandKind::Reg8, OperandKind::UInt8],
        Mnemonic::LoadFromEnvironmentL => vec![OperandKind::Reg8, OperandKind::Reg8, OperandKind::UInt16],
        Mnemonic::CreateInnerEnvironment | Mnemonic::PutOwnByIndexL | Mnemonic::CallLong |
        Mnemonic::ConstructLong => vec![OperandKind::Reg8, OperandKind::Reg8, OperandKind::UInt32],
        Mnemonic::DeclareGlobalVar | Mnemonic::ThrowIfHasRestrictedGlobalProperty => vec![OperandKind::StringIDUInt32],
        Mnemonic::GetByIdShort => vec![OperandKind::Reg8, OperandKind::Reg8, OperandKind::UInt8, OperandKind::StringIDUInt8],
        Mnemonic::GetById | Mnemonic::TryGetById | Mnemonic::PutById | Mnemonic::TryPutById => vec![OperandKind::Reg8, OperandKind::Reg8, OperandKind::UInt8, OperandKind::StringIDUInt16],
        Mnemonic::GetByIdLong | Mnemonic::TryGetByIdLong | Mnemonic::PutByIdLong |
        Mnemonic::TryPutByIdLong => vec![OperandKind::Reg8, OperandKind::Reg8, OperandKind::UInt8, OperandKind::StringIDUInt32],
        Mnemonic::PutNewOwnByIdShort => vec![OperandKind::Reg8, OperandKind::Reg8, OperandKind::StringIDUInt8],
        Mnemonic::PutNewOwnById | Mnemonic::PutNewOwnNEById | Mnemonic::DelById => vec![OperandKind::Reg8, OperandKind::Reg8, OperandKind::StringIDUInt16],
        Mnemonic::PutNewOwnByIdLong | Mnemonic::PutNewOwnNEByIdLong | Mnemonic::DelByIdLong => vec![OperandKind::Reg8, OperandKind::Reg8, OperandKind::StringIDUInt32],
        Mnemonic::PutOwnByVal => vec![OperandKind::Reg8, OperandKind::Reg8, OperandKind::Reg8, OperandKind::UInt8],
        Mnemonic::PutOwnGetterSetterByVal => vec![OperandKind::Reg8, OperandKind::Reg8, OperandKind::Reg8, OperandKind::Reg8, OperandKind::UInt8],
        Mnemonic::GetPNameList | Mnemonic::Call2 => vec![OperandKind::Reg8, OperandKind::Reg8, OperandKind::Reg8, OperandKind::Reg8],
        Mnemonic::GetNextPName | Mnemonic::Call3 => vec![OperandKind::Reg8, OperandKind::Reg8, OperandKind::Reg8, OperandKind::Reg8, OperandKind::Reg8],
        Mnemonic::CallDirect => vec![OperandKind::Reg8, OperandKind::UInt8, OperandKind::FunctionIDUInt16],
        Mnemonic::Call4 => vec![OperandKind::Reg8, OperandKind::Reg8, OperandKind::Reg8, OperandKind::Reg8, OperandKind::Reg8, OperandKind::Reg8],
        Mnemonic::CallDirectLongIndex | Mnemonic::CallBuiltinLong => vec![OperandKind::Reg8, OperandKind::UInt8, OperandKind::UInt32],
        Mnemonic::CallBuiltin => vec![OperandKind::Reg8, OperandKind::UInt8, OperandKind::UInt8],
        Mnemonic::ProfilePoint => vec![OperandKind::UInt16],
        Mnemonic::CreateClosure | Mnemonic::CreateGeneratorClosure |
        Mnemonic::CreateAsyncClosure | Mnemonic::CreateGenerator => vec![OperandKind::Reg8, OperandKind::Reg8, OperandKind::FunctionIDUInt16],
        Mnemonic::CreateClosureLongIndex | Mnemonic::CreateGeneratorClosureLongIndex |
        Mnemonic::CreateAsyncClosureLongIndex | Mnemonic::CreateGeneratorLongIndex => vec![OperandKind::Reg8, OperandKind::Reg8, OperandKind::FunctionIDUInt32],
        Mnemonic::LoadParamLong => vec![OperandKind::Reg8, OperandKind::UInt32],
        Mnemonic::LoadConstInt => vec![OperandKind::Reg8, OperandKind::Imm32],
        Mnemonic::LoadConstDouble => vec![OperandKind::Reg8, OperandKind::Double],
        Mnemonic::LoadConstBigInt => vec![OperandKind::Reg8, OperandKind::BigIntIDUInt16],
        Mnemonic::LoadConstBigIntLongIndex => vec![OperandKind::Reg8, OperandKind::BigIntIDUInt32],
        Mnemonic::LoadConstString => vec![OperandKind::Reg8, OperandKind::StringIDUInt16],
        Mnemonic::LoadConstStringLongIndex => vec![OperandKind::Reg8, OperandKind::StringIDUInt32],
        Mnemonic::CreateRegExp => vec![OperandKind::Reg8, OperandKind::StringIDUInt32, OperandKind::StringIDUInt32, OperandKind::UInt32],
        Mnemonic::SwitchImm => vec![OperandKind::Reg8, OperandKind::UInt32, OperandKind::Addr32, OperandKind::UInt32, OperandKind::UInt32],
        Mnemonic::Jmp | Mnemonic::SaveGenerator => vec![OperandKind::Addr8],
        Mnemonic::JmpLong | Mnemonic::SaveGeneratorLong => vec![OperandKind::Addr32],
        Mnemonic::JmpTrue | Mnemonic::JmpFalse | Mnemonic::JmpUndefined => vec![OperandKind::Addr8, OperandKind::Reg8],
        Mnemonic::JmpTrueLong | Mnemonic::JmpFalseLong | Mnemonic::JmpUndefinedLong => vec![OperandKind::Addr32, OperandKind::Reg8],
        Mnemonic::JLess | Mnemonic::JNotLess | Mnemonic::JLessN | Mnemonic::JNotLessN |
        Mnemonic::JLessEqual | Mnemonic::JNotLessEqual | Mnemonic::JLessEqualN |
        Mnemonic::JNotLessEqualN | Mnemonic::JGreater | Mnemonic::JNotGreater |
        Mnemonic::JGreaterN | Mnemonic::JNotGreaterN | Mnemonic::JGreaterEqual |
        Mnemonic::JNotGreaterEqual | Mnemonic::JGreaterEqualN | Mnemonic::JNotGreaterEqualN |
        Mnemonic::JEqual | Mnemonic::JNotEqual | Mnemonic::JStrictEqual |
        Mnemonic::JStrictNotEqual => vec![OperandKind::Addr8, OperandKind::Reg8, OperandKind::Reg8],
        Mnemonic::JLessLong | Mnemonic::JNotLessLong | Mnemonic::JLessNLong |
        Mnemonic::JNotLessNLong | Mnemonic::JLessEqualLong | Mnemonic::JNotLessEqualLong |
        Mnemonic::JLessEqualNLong | Mnemonic::JNotLessEqualNLong | Mnemonic::JGreaterLong |
        Mnemonic::JNotGreaterLong | Mnemonic::JGreaterNLong | Mnemonic::JNotGreaterNLong |
        Mnemonic::JGreaterEqualLong | Mnemonic::JNotGreaterEqualLong |
        Mnemonic::JGreaterEqualNLong | Mnemonic::JNotGreaterEqualNLong | Mnemonic::JEqualLong |
        Mnemonic::JNotEqualLong | Mnemonic::JStrictEqualLong | Mnemonic::JStrictNotEqualLong => vec![OperandKind::Addr32, OperandKind::Reg8, OperandKind::Reg8],
        _ => vec![],
    }
}

/// No instruction takes more than six operands.
pub proof fn lemma_operands_bound(m: Mnemonic)
    ensures
        spec_operands(m).len() <= 6,
{
}

/// Every byte of the table is the byte of the instruction it stands for.
pub proof fn lemma_opcode_of_mnemonic(op: u8)
    requires
        op <= MAX_OPCODE,
    ensures
        spec_opcode(spec_mnemonic(op)) == Some(op),
{
}

/// An instruction's byte lies in the table and stands for that instruction:
/// the table is one-to-one between its bytes and its instructions.
pub proof fn lemma_mnemonic_of_opcode(m: Mnemonic)
    ensures
        match spec_opcode(m) {
            Some(op) => op <= MAX_OPCODE && spec_mnemonic(op) == m,
            None => forall|op: u8| op <= MAX_OPCODE ==> spec_mnemonic(op) != m,
        },
{
}

/// This version has every instruction that has a name.
pub proof fn lemma_every_mnemonic_has_opcode(m: Mnemonic)
    ensures
        spec_opcode(m) is Some,
{
}

} // verus!
