//! The opcode table of bytecode version 84: which byte stands for which
//! instruction, and which operands follow it.

use vstd::prelude::*;
use crate::instruction::{HermesInstruction, IntoParentInstruction};
use crate::opcode::{Mnemonic, OperandKind};

verus! {

/// The bytecode version that this table belongs to.
pub const VERSION: u32 = 84;

/// An instruction of this version.
#[derive(Debug, Clone, PartialEq, Eq)]
pub struct Instruction(pub crate::instruction::Instruction);

impl IntoParentInstruction for Instruction {
    open spec fn parent_version(&self) -> u32 {
        VERSION
    }

    open spec fn parent_instruction(&self) -> crate::instruction::Instruction {
        self.0
    }

    fn into_parent(self) -> (h: HermesInstruction) {
        HermesInstruction::V84(self.0)
    }
}

/// The highest byte that the table defines.
pub const MAX_OPCODE: u8 = 198;

/// The instruction that `op` stands for; a byte above the table's last
/// entry stands for `Unreachable`.
pub open spec fn spec_mnemonic(op: u8) -> Mnemonic {
    match op {
        0 => Mnemonic::Unreachable,
        1 => Mnemonic::NewObjectWithBuffer,
        2 => Mnemonic::NewObjectWithBufferLong,
        3 => Mnemonic::NewObject,
        4 => Mnemonic::NewObjectWithParent,
        5 => Mnemonic::NewArrayWithBuffer,
        6 => Mnemonic::NewArrayWithBufferLong,
        7 => Mnemonic::NewArray,
        8 => Mnemonic::Mov,
        9 => Mnemonic::MovLong,
        10 => Mnemonic::Negate,
        11 => Mnemonic::Not,
        12 => Mnemonic::BitNot,
        13 => Mnemonic::TypeOf,
        14 => Mnemonic::Eq,
        15 => Mnemonic::StrictEq,
        16 => Mnemonic::Neq,
        17 => Mnemonic::StrictNeq,
        18 => Mnemonic::Less,
        19 => Mnemonic::LessEq,
        20 => Mnemonic::Greater,
        21 => Mnemonic::GreaterEq,
        22 => Mnemonic::Add,
        23 => Mnemonic::AddN,
        24 => Mnemonic::Mul,
        25 => Mnemonic::MulN,
        26 => Mnemonic::Div,
        27 => Mnemonic::DivN,
        28 => Mnemonic::Mod,
        29 => Mnemonic::Sub,
        30 => Mnemonic::SubN,
        31 => Mnemonic::LShift,
        32 => Mnemonic::RShift,
        33 => Mnemonic::URshift,
        34 => Mnemonic::BitAnd,
        35 => Mnemonic::BitXor,
        36 => Mnemonic::BitOr,
        37 => Mnemonic::InstanceOf,
        38 => Mnemonic::IsIn,
        39 => Mnemonic::GetEnvironment,
        40 => Mnemonic::StoreToEnvironment,
        41 => Mnemonic::StoreToEnvironmentL,
        42 => Mnemonic::StoreNPToEnvironment,
        43 => Mnemonic::StoreNPToEnvironmentL,
        44 => Mnemonic::LoadFromEnvironment,
        45 => Mnemonic::LoadFromEnvironmentL,
        46 => Mnemonic::GetGlobalObject,
        47 => Mnemonic::GetNewTarget,
        48 => Mnemonic::CreateEnvironment,
        49 => Mnemonic::DeclareGlobalVar,
        50 => Mnemonic::GetByIdShort,
        51 => Mnemonic::GetById,
        52 => Mnemonic::GetByIdLong,
        53 => Mnemonic::TryGetById,
        54 => Mnemonic::TryGetByIdLong,
        55 => Mnemonic::PutById,
        56 => Mnemonic::PutByIdLong,
        57 => Mnemonic::TryPutById,
        58 => Mnemonic::TryPutByIdLong,
        59 => Mnemonic::PutNewOwnByIdShort,
        60 => Mnemonic::PutNewOwnById,
        61 => Mnemonic::PutNewOwnByIdLong,
        62 => Mnemonic::PutNewOwnNEById,
        63 => Mnemonic::PutNewOwnNEByIdLong,
        64 => Mnemonic::PutOwnByIndex,
        65 => Mnemonic::PutOwnByIndexL,
        66 => Mnemonic::PutOwnByVal,
        67 => Mnemonic::DelById,
        68 => Mnemonic::DelByIdLong,
        69 => Mnemonic::GetByVal,
        70 => Mnemonic::PutByVal,
        71 => Mnemonic::DelByVal,
        72 => Mnemonic::PutOwnGetterSetterByVal,
        73 => Mnemonic::GetPNameList,
        74 => Mnemonic::GetNextPName,
        75 => Mnemonic::Call,
        76 => Mnemonic::Construct,
        77 => Mnemonic::Call1,
        78 => Mnemonic::CallDirect,
        79 => Mnemonic::Call2,
        80 => Mnemonic::Call3,
        81 => Mnemonic::Call4,
        82 => Mnemonic::CallLong,
        83 => Mnemonic::ConstructLong,
        84 => Mnemonic::CallDirectLongIndex,
        85 => Mnemonic::CallBuiltin,
        86 => Mnemonic::CallBuiltinLong,
        87 => Mnemonic::GetBuiltinClosure,
        88 => Mnemonic::Ret,
        89 => Mnemonic::Catch,
        90 => Mnemonic::DirectEval,
        91 => Mnemonic::Throw,
        92 => Mnemonic::ThrowIfEmpty,
        93 => Mnemonic::Debugger,
        94 => Mnemonic::AsyncBreakCheck,
        95 => Mnemonic::ProfilePoint,
        96 => Mnemonic::CreateClosure,
        97 => Mnemonic::CreateClosureLongIndex,
        98 => Mnemonic::CreateGeneratorClosure,
        99 => Mnemonic::CreateGeneratorClosureLongIndex,
        100 => Mnemonic::CreateAsyncClosure,
        101 => Mnemonic::CreateAsyncClosureLongIndex,
        102 => Mnemonic::CreateThis,
        103 => Mnemonic::SelectObject,
        104 => Mnemonic::LoadParam,
        105 => Mnemonic::LoadParamLong,
        106 => Mnemonic::LoadConstUInt8,
        107 => Mnemonic::LoadConstInt,
        108 => Mnemonic::LoadConstDouble,
        109 => Mnemonic::LoadConstString,
        110 => Mnemonic::LoadConstStringLongIndex,
        111 => Mnemonic::LoadConstEmpty,
        112 => Mnemonic::LoadConstUndefined,
        113 => Mnemonic::LoadConstNull,
        114 => Mnemonic::LoadConstTrue,
        115 => Mnemonic::LoadConstFalse,
        116 => Mnemonic::LoadConstZero,
        117 => Mnemonic::CoerceThisNS,
        118 => Mnemonic::LoadThisNS,
        119 => Mnemonic::ToNumber,
        120 => Mnemonic::ToInt32,
        121 => Mnemonic::AddEmptyString,
        122 => Mnemonic::GetArgumentsPropByVal,
        123 => Mnemonic::GetArgumentsLength,
        124 => Mnemonic::ReifyArguments,
        125 => Mnemonic::CreateRegExp,
        126 => Mnemonic::SwitchImm,
        127 => Mnemonic::StartGenerator,
        128 => Mnemonic::ResumeGenerator,
        129 => Mnemonic::CompleteGenerator,
        130 => Mnemonic::CreateGenerator,
        131 => Mnemonic::CreateGeneratorLongIndex,
        132 => Mnemonic::IteratorBegin,
        133 => Mnemonic::IteratorNext,
        134 => Mnemonic::IteratorClose,
        135 => Mnemonic::Jmp,
        136 => Mnemonic::JmpLong,
        137 => Mnemonic::JmpTrue,
        138 => Mnemonic::JmpTrueLong,
        139 => Mnemonic::JmpFalse,
        140 => Mnemonic::JmpFalseLong,
        141 => Mnemonic::JmpUndefined,
        142 => Mnemonic::JmpUndefinedLong,
        143 => Mnemonic::SaveGenerator,
        144 => Mnemonic::SaveGeneratorLong,
        145 => Mnemonic::JLess,
        146 => Mnemonic::JLessLong,
        147 => Mnemonic::JNotLess,
        148 => Mnemonic::JNotLessLong,
        149 => Mnemonic::JLessN,
        150 => Mnemonic::JLessNLong,
        151 => Mnemonic::JNotLessN,
        152 => Mnemonic::JNotLessNLong,
        153 => Mnemonic::JLessEqual,
        154 => Mnemonic::JLessEqualLong,
        155 => Mnemonic::JNotLessEqual,
        156 => Mnemonic::JNotLessEqualLong,
        157 => Mnemonic::JLessEqualN,
        158 => Mnemonic::JLessEqualNLong,
        159 => Mnemonic::JNotLessEqualN,
        160 => Mnemonic::JNotLessEqualNLong,
        161 => Mnemonic::JGreater,
        162 => Mnemonic::JGreaterLong,
        163 => Mnemonic::JNotGreater,
        164 => Mnemonic::JNotGreaterLong,
        165 => Mnemonic::JGreaterN,
        166 => Mnemonic::JGreaterNLong,
        167 => Mnemonic::JNotGreaterN,
        168 => Mnemonic::JNotGreaterNLong,
        169 => Mnemonic::JGreaterEqual,
        170 => Mnemonic::JGreaterEqualLong,
        171 => Mnemonic::JNotGreaterEqual,
        172 => Mnemonic::JNotGreaterEqualLong,
        173 => Mnemonic::JGreaterEqualN,
        174 => Mnemonic::JGreaterEqualNLong,
        175 => Mnemonic::JNotGreaterEqualN,
        176 => Mnemonic::JNotGreaterEqualNLong,
        177 => Mnemonic::JEqual,
        178 => Mnemonic::JEqualLong,
        179 => Mnemonic::JNotEqual,
        180 => Mnemonic::JNotEqualLong,
        181 => Mnemonic::JStrictEqual,
        182 => Mnemonic::JStrictEqualLong,
        183 => Mnemonic::JStrictNotEqual,
        184 => Mnemonic::JStrictNotEqualLong,
        185 => Mnemonic::Add32,
        186 => Mnemonic::Sub32,
        187 => Mnemonic::Mul32,
        188 => Mnemonic::Divi32,
        189 => Mnemonic::Divu32,
        190 => Mnemonic::Loadi8,
        191 => Mnemonic::Loadu8,
        192 => Mnemonic::Loadi16,
        193 => Mnemonic::Loadu16,
        194 => Mnemonic::Loadi32,
        195 => Mnemonic::Loadu32,
        196 => Mnemonic::Store8,
        197 => Mnemonic::Store16,
        198 => Mnemonic::Store32,
        _ => Mnemonic::Unreachable,
    }
}

/// The instruction that `op` stands for.
pub fn op_to_mnemonic(op: u8) -> (m: Mnemonic)
    ensures
        m == spec_mnemonic(op),
{
    match op {
        0 => Mnemonic::Unreachable,
        1 => Mnemonic::NewObjectWithBuffer,
        2 => Mnemonic::NewObjectWithBufferLong,
        3 => Mnemonic::NewObject,
        4 => Mnemonic::NewObjectWithParent,
        5 => Mnemonic::NewArrayWithBuffer,
        6 => Mnemonic::NewArrayWithBufferLong,
        7 => Mnemonic::NewArray,
        8 => Mnemonic::Mov,
        9 => Mnemonic::MovLong,
        10 => Mnemonic::Negate,
        11 => Mnemonic::Not,
        12 => Mnemonic::BitNot,
        13 => Mnemonic::TypeOf,
        14 => Mnemonic::Eq,
        15 => Mnemonic::StrictEq,
        16 => Mnemonic::Neq,
        17 => Mnemonic::StrictNeq,
        18 => Mnemonic::Less,
        19 => Mnemonic::LessEq,
        20 => Mnemonic::Greater,
        21 => Mnemonic::GreaterEq,
        22 => Mnemonic::Add,
        23 => Mnemonic::AddN,
        24 => Mnemonic::Mul,
        25 => Mnemonic::MulN,
        26 => Mnemonic::Div,
        27 => Mnemonic::DivN,
        28 => Mnemonic::Mod,
        29 => Mnemonic::Sub,
        30 => Mnemonic::SubN,
        31 => Mnemonic::LShift,
        32 => Mnemonic::RShift,
        33 => Mnemonic::URshift,
        34 => Mnemonic::BitAnd,
        35 => Mnemonic::BitXor,
        36 => Mnemonic::BitOr,
        37 => Mnemonic::InstanceOf,
        38 => Mnemonic::IsIn,
        39 => Mnemonic::GetEnvironment,
        40 => Mnemonic::StoreToEnvironment,
        41 => Mnemonic::StoreToEnvironmentL,
        42 => Mnemonic::StoreNPToEnvironment,
        43 => Mnemonic::StoreNPToEnvironmentL,
        44 => Mnemonic::LoadFromEnvironment,
        45 => Mnemonic::LoadFromEnvironmentL,
        46 => Mnemonic::GetGlobalObject,
        47 => Mnemonic::GetNewTarget,
        48 => Mnemonic::CreateEnvironment,
        49 => Mnemonic::DeclareGlobalVar,
        50 => Mnemonic::GetByIdShort,
        51 => Mnemonic::GetById,
        52 => Mnemonic::GetByIdLong,
        53 => Mnemonic::TryGetById,
        54 => Mnemonic::TryGetByIdLong,
        55 => Mnemonic::PutById,
        56 => Mnemonic::PutByIdLong,
        57 => Mnemonic::TryPutById,
        58 => Mnemonic::TryPutByIdLong,
        59 => Mnemonic::PutNewOwnByIdShort,
        60 => Mnemonic::PutNewOwnById,
        61 => Mnemonic::PutNewOwnByIdLong,
        62 => Mnemonic::PutNewOwnNEById,
        63 => Mnemonic::PutNewOwnNEByIdLong,
        64 => Mnemonic::PutOwnByIndex,
        65 => Mnemonic::PutOwnByIndexL,
        66 => Mnemonic::PutOwnByVal,
        67 => Mnemonic::DelById,
        68 => Mnemonic::DelByIdLong,
        69 => Mnemonic::GetByVal,
        70 => Mnemonic::PutByVal,
        71 => Mnemonic::DelByVal,
        72 => Mnemonic::PutOwnGetterSetterByVal,
        73 => Mnemonic::GetPNameList,
        74 => Mnemonic::GetNextPName,
        75 => Mnemonic::Call,
        76 => Mnemonic::Construct,
        77 => Mnemonic::Call1,
        78 => Mnemonic::CallDirect,
        79 => Mnemonic::Call2,
        80 => Mnemonic::Call3,
        81 => Mnemonic::Call4,
        82 => Mnemonic::CallLong,
        83 => Mnemonic::ConstructLong,
        84 => Mnemonic::CallDirectLongIndex,
        85 => Mnemonic::CallBuiltin,
        86 => Mnemonic::CallBuiltinLong,
        87 => Mnemonic::GetBuiltinClosure,
        88 => Mnemonic::Ret,
        89 => Mnemonic::Catch,
        90 => Mnemonic::DirectEval,
        91 => Mnemonic::Throw,
        92 => Mnemonic::ThrowIfEmpty,
        93 => Mnemonic::Debugger,
        94 => Mnemonic::AsyncBreakCheck,
        95 => Mnemonic::ProfilePoint,
        96 => Mnemonic::CreateClosure,
        97 => Mnemonic::CreateClosureLongIndex,
        98 => Mnemonic::CreateGeneratorClosure,
        99 => Mnemonic::CreateGeneratorClosureLongIndex,
        100 => Mnemonic::CreateAsyncClosure,
        101 => Mnemonic::CreateAsyncClosureLongIndex,
        102 => Mnemonic::CreateThis,
        103 => Mnemonic::SelectObject,
        104 => Mnemonic::LoadParam,
        105 => Mnemonic::LoadParamLong,
        106 => Mnemonic::LoadConstUInt8,
        107 => Mnemonic::LoadConstInt,
        108 => Mnemonic::LoadConstDouble,
        109 => Mnemonic::LoadConstString,
        110 => Mnemonic::LoadConstStringLongIndex,
        111 => Mnemonic::LoadConstEmpty,
        112 => Mnemonic::LoadConstUndefined,
        113 => Mnemonic::LoadConstNull,
        114 => Mnemonic::LoadConstTrue,
        115 => Mnemonic::LoadConstFalse,
        116 => Mnemonic::LoadConstZero,
        117 => Mnemonic::CoerceThisNS,
        118 => Mnemonic::LoadThisNS,
        119 => Mnemonic::ToNumber,
        120 => Mnemonic::ToInt32,
        121 => Mnemonic::AddEmptyString,
        122 => Mnemonic::GetArgumentsPropByVal,
        123 => Mnemonic::GetArgumentsLength,
        124 => Mnemonic::ReifyArguments,
        125 => Mnemonic::CreateRegExp,
        126 => Mnemonic::SwitchImm,
        127 => Mnemonic::StartGenerator,
        128 => Mnemonic::ResumeGenerator,
        129 => Mnemonic::CompleteGenerator,
        130 => Mnemonic::CreateGenerator,
        131 => Mnemonic::CreateGeneratorLongIndex,
        132 => Mnemonic::IteratorBegin,
        133 => Mnemonic::IteratorNext,
        134 => Mnemonic::IteratorClose,
        135 => Mnemonic::Jmp,
        136 => Mnemonic::JmpLong,
        137 => Mnemonic::JmpTrue,
        138 => Mnemonic::JmpTrueLong,
        139 => Mnemonic::JmpFalse,
        140 => Mnemonic::JmpFalseLong,
        141 => Mnemonic::JmpUndefined,
        142 => Mnemonic::JmpUndefinedLong,
        143 => Mnemonic::SaveGenerator,
        144 => Mnemonic::SaveGeneratorLong,
        145 => Mnemonic::JLess,
        146 => Mnemonic::JLessLong,
        147 => Mnemonic::JNotLess,
        148 => Mnemonic::JNotLessLong,
        149 => Mnemonic::JLessN,
        150 => Mnemonic::JLessNLong,
        151 => Mnemonic::JNotLessN,
        152 => Mnemonic::JNotLessNLong,
        153 => Mnemonic::JLessEqual,
        154 => Mnemonic::JLessEqualLong,
        155 => Mnemonic::JNotLessEqual,
        156 => Mnemonic::JNotLessEqualLong,
        157 => Mnemonic::JLessEqualN,
        158 => Mnemonic::JLessEqualNLong,
        159 => Mnemonic::JNotLessEqualN,
        160 => Mnemonic::JNotLessEqualNLong,
        161 => Mnemonic::JGreater,
        162 => Mnemonic::JGreaterLong,
        163 => Mnemonic::JNotGreater,
        164 => Mnemonic::JNotGreaterLong,
        165 => Mnemonic::JGreaterN,
        166 => Mnemonic::JGreaterNLong,
        167 => Mnemonic::JNotGreaterN,
        168 => Mnemonic::JNotGreaterNLong,
        169 => Mnemonic::JGreaterEqual,
        170 => Mnemonic::JGreaterEqualLong,
        171 => Mnemonic::JNotGreaterEqual,
        172 => Mnemonic::JNotGreaterEqualLong,
        173 => Mnemonic::JGreaterEqualN,
        174 => Mnemonic::JGreaterEqualNLong,
        175 => Mnemonic::JNotGreaterEqualN,
        176 => Mnemonic::JNotGreaterEqualNLong,
        177 => Mnemonic::JEqual,
        178 => Mnemonic::JEqualLong,
        179 => Mnemonic::JNotEqual,
        180 => Mnemonic::JNotEqualLong,
        181 => Mnemonic::JStrictEqual,
        182 => Mnemonic::JStrictEqualLong,
        183 => Mnemonic::JStrictNotEqual,
        184 => Mnemonic::JStrictNotEqualLong,
        185 => Mnemonic::Add32,
        186 => Mnemonic::Sub32,
        187 => Mnemonic::Mul32,
        188 => Mnemonic::Divi32,
        189 => Mnemonic::Divu32,
        190 => Mnemonic::Loadi8,
        191 => Mnemonic::Loadu8,
        192 => Mnemonic::Loadi16,
        193 => Mnemonic::Loadu16,
        194 => Mnemonic::Loadi32,
        195 => Mnemonic::Loadu32,
        196 => Mnemonic::Store8,
        197 => Mnemonic::Store16,
        198 => Mnemonic::Store32,
        _ => Mnemonic::Unreachable,
    }
}

/// The byte that stands for `m`, if this version has the instruction.
pub open spec fn spec_opcode(m: Mnemonic) -> Option<u8> {
    match m {
        Mnemonic::Unreachable => Some(0),
        Mnemonic::NewObjectWithBuffer => Some(1),
        Mnemonic::NewObjectWithBufferLong => Some(2),
        Mnemonic::NewObject => Some(3),
        Mnemonic::NewObjectWithParent => Some(4),
        Mnemonic::NewArrayWithBuffer => Some(5),
        Mnemonic::NewArrayWithBufferLong => Some(6),
        Mnemonic::NewArray => Some(7),
        Mnemonic::Mov => Some(8),
        Mnemonic::MovLong => Some(9),
        Mnemonic::Negate => Some(10),
        Mnemonic::Not => Some(11),
        Mnemonic::BitNot => Some(12),
        Mnemonic::TypeOf => Some(13),
        Mnemonic::Eq => Some(14),
        Mnemonic::StrictEq => Some(15),
        Mnemonic::Neq => Some(16),
        Mnemonic::StrictNeq => Some(17),
        Mnemonic::Less => Some(18),
        Mnemonic::LessEq => Some(19),
        Mnemonic::Greater => Some(20),
        Mnemonic::GreaterEq => Some(21),
        Mnemonic::Add => Some(22),
        Mnemonic::AddN => Some(23),
        Mnemonic::Mul => Some(24),
        Mnemonic::MulN => Some(25),
        Mnemonic::Div => Some(26),
        Mnemonic::DivN => Some(27),
        Mnemonic::Mod => Some(28),
        Mnemonic::Sub => Some(29),
        Mnemonic::SubN => Some(30),
        Mnemonic::LShift => Some(31),
        Mnemonic::RShift => Some(32),
        Mnemonic::URshift => Some(33),
        Mnemonic::BitAnd => Some(34),
        Mnemonic::BitXor => Some(35),
        Mnemonic::BitOr => Some(36),
        Mnemonic::InstanceOf => Some(37),
        Mnemonic::IsIn => Some(38),
        Mnemonic::GetEnvironment => Some(39),
        Mnemonic::StoreToEnvironment => Some(40),
        Mnemonic::StoreToEnvironmentL => Some(41),
        Mnemonic::StoreNPToEnvironment => Some(42),
        Mnemonic::StoreNPToEnvironmentL => Some(43),
        Mnemonic::LoadFromEnvironment => Some(44),
        Mnemonic::LoadFromEnvironmentL => Some(45),
        Mnemonic::GetGlobalObject => Some(46),
        Mnemonic::GetNewTarget => Some(47),
        Mnemonic::CreateEnvironment => Some(48),
        Mnemonic::DeclareGlobalVar => Some(49),
        Mnemonic::GetByIdShort => Some(50),
        Mnemonic::GetById => Some(51),
        Mnemonic::GetByIdLong => Some(52),
        Mnemonic::TryGetById => Some(53),
        Mnemonic::TryGetByIdLong => Some(54),
        Mnemonic::PutById => Some(55),
        Mnemonic::PutByIdLong => Some(56),
        Mnemonic::TryPutById => Some(57),
        Mnemonic::TryPutByIdLong => Some(58),
        Mnemonic::PutNewOwnByIdShort => Some(59),
        Mnemonic::PutNewOwnById => Some(60),
        Mnemonic::PutNewOwnByIdLong => Some(61),
        Mnemonic::PutNewOwnNEById => Some(62),
        Mnemonic::PutNewOwnNEByIdLong => Some(63),
        Mnemonic::PutOwnByIndex => Some(64),
        Mnemonic::PutOwnByIndexL => Some(65),
        Mnemonic::PutOwnByVal => Some(66),
        Mnemonic::DelById => Some(67),
        Mnemonic::DelByIdLong => Some(68),
        Mnemonic::GetByVal => Some(69),
        Mnemonic::PutByVal => Some(70),
        Mnemonic::DelByVal => Some(71),
        Mnemonic::PutOwnGetterSetterByVal => Some(72),
        Mnemonic::GetPNameList => Some(73),
        Mnemonic::GetNextPName => Some(74),
        Mnemonic::Call => Some(75),
        Mnemonic::Construct => Some(76),
        Mnemonic::Call1 => Some(77),
        Mnemonic::CallDirect => Some(78),
        Mnemonic::Call2 => Some(79),
        Mnemonic::Call3 => Some(80),
        Mnemonic::Call4 => Some(81),
        Mnemonic::CallLong => Some(82),
        Mnemonic::ConstructLong => Some(83),
        Mnemonic::CallDirectLongIndex => Some(84),
        Mnemonic::CallBuiltin => Some(85),
        Mnemonic::CallBuiltinLong => Some(86),
        Mnemonic::GetBuiltinClosure => Some(87),
        Mnemonic::Ret => Some(88),
        Mnemonic::Catch => Some(89),
        Mnemonic::DirectEval => Some(90),
        Mnemonic::Throw => Some(91),
        Mnemonic::ThrowIfEmpty => Some(92),
        Mnemonic::Debugger => Some(93),
        Mnemonic::AsyncBreakCheck => Some(94),
        Mnemonic::ProfilePoint => Some(95),
        Mnemonic::CreateClosure => Some(96),
        Mnemonic::CreateClosureLongIndex => Some(97),
        Mnemonic::CreateGeneratorClosure => Some(98),
        Mnemonic::CreateGeneratorClosureLongIndex => Some(99),
        Mnemonic::CreateAsyncClosure => Some(100),
        Mnemonic::CreateAsyncClosureLongIndex => Some(101),
        Mnemonic::CreateThis => Some(102),
        Mnemonic::SelectObject => Some(103),
        Mnemonic::LoadParam => Some(104),
        Mnemonic::LoadParamLong => Some(105),
        Mnemonic::LoadConstUInt8 => Some(106),
        Mnemonic::LoadConstInt => Some(107),
        Mnemonic::LoadConstDouble => Some(108),
        Mnemonic::LoadConstString => Some(109),
        Mnemonic::LoadConstStringLongIndex => Some(110),
        Mnemonic::LoadConstEmpty => Some(111),
        Mnemonic::LoadConstUndefined => Some(112),
        Mnemonic::LoadConstNull => Some(113),
        Mnemonic::LoadConstTrue => Some(114),
        Mnemonic::LoadConstFalse => Some(115),
        Mnemonic::LoadConstZero => Some(116),
        Mnemonic::CoerceThisNS => Some(117),
        Mnemonic::LoadThisNS => Some(118),
        Mnemonic::ToNumber => Some(119),
        Mnemonic::ToInt32 => Some(120),
        Mnemonic::AddEmptyString => Some(121),
        Mnemonic::GetArgumentsPropByVal => Some(122),
        Mnemonic::GetArgumentsLength => Some(123),
        Mnemonic::ReifyArguments => Some(124),
        Mnemonic::CreateRegExp => Some(125),
        Mnemonic::SwitchImm => Some(126),
        Mnemonic::StartGenerator => Some(127),
        Mnemonic::ResumeGenerator => Some(128),
        Mnemonic::CompleteGenerator => Some(129),
        Mnemonic::CreateGenerator => Some(130),
        Mnemonic::CreateGeneratorLongIndex => Some(131),
        Mnemonic::IteratorBegin => Some(132),
        Mnemonic::IteratorNext => Some(133),
        Mnemonic::IteratorClose => Some(134),
        Mnemonic::Jmp => Some(135),
        Mnemonic::JmpLong => Some(136),
        Mnemonic::JmpTrue => Some(137),
        Mnemonic::JmpTrueLong => Some(138),
        Mnemonic::JmpFalse => Some(139),
        Mnemonic::JmpFalseLong => Some(140),
        Mnemonic::JmpUndefined => Some(141),
        Mnemonic::JmpUndefinedLong => Some(142),
        Mnemonic::SaveGenerator => Some(143),
        Mnemonic::SaveGeneratorLong => Some(144),
        Mnemonic::JLess => Some(145),
        Mnemonic::JLessLong => Some(146),
        Mnemonic::JNotLess => Some(147),
        Mnemonic::JNotLessLong => Some(148),
        Mnemonic::JLessN => Some(149),
        Mnemonic::JLessNLong => Some(150),
        Mnemonic::JNotLessN => Some(151),
        Mnemonic::JNotLessNLong => Some(152),
        Mnemonic::JLessEqual => Some(153),
        Mnemonic::JLessEqualLong => Some(154),
        Mnemonic::JNotLessEqual => Some(155),
        Mnemonic::JNotLessEqualLong => Some(156),
        Mnemonic::JLessEqualN => Some(157),
        Mnemonic::JLessEqualNLong => Some(158),
        Mnemonic::JNotLessEqualN => Some(159),
        Mnemonic::JNotLessEqualNLong => Some(160),
        Mnemonic::JGreater => Some(161),
        Mnemonic::JGreaterLong => Some(162),
        Mnemonic::JNotGreater => Some(163),
        Mnemonic::JNotGreaterLong => Some(164),
        Mnemonic::JGreaterN => Some(165),
        Mnemonic::JGreaterNLong => Some(166),
        Mnemonic::JNotGreaterN => Some(167),
        Mnemonic::JNotGreaterNLong => Some(168),
        Mnemonic::JGreaterEqual => Some(169),
        Mnemonic::JGreaterEqualLong => Some(170),
        Mnemonic::JNotGreaterEqual => Some(171),
        Mnemonic::JNotGreaterEqualLong => Some(172),
        Mnemonic::JGreaterEqualN => Some(173),
        Mnemonic::JGreaterEqualNLong => Some(174),
        Mnemonic::JNotGreaterEqualN => Some(175),
        Mnemonic::JNotGreaterEqualNLong => Some(176),
        Mnemonic::JEqual => Some(177),
        Mnemonic::JEqualLong => Some(178),
        Mnemonic::JNotEqual => Some(179),
        Mnemonic::JNotEqualLong => Some(180),
        Mnemonic::JStrictEqual => Some(181),
        Mnemonic::JStrictEqualLong => Some(182),
        Mnemonic::JStrictNotEqual => Some(183),
        Mnemonic::JStrictNotEqualLong => Some(184),
        Mnemonic::Add32 => Some(185),
        Mnemonic::Sub32 => Some(186),
        Mnemonic::Mul32 => Some(187),
        Mnemonic::Divi32 => Some(188),
        Mnemonic::Divu32 => Some(189),
        Mnemonic::Loadi8 => Some(190),
        Mnemonic::Loadu8 => Some(191),
        Mnemonic::Loadi16 => Some(192),
        Mnemonic::Loadu16 => Some(193),
        Mnemonic::Loadi32 => Some(194),
        Mnemonic::Loadu32 => Some(195),
        Mnemonic::Store8 => Some(196),
        Mnemonic::Store16 => Some(197),
        Mnemonic::Store32 => Some(198),
        Mnemonic::Inc | Mnemonic::Dec | Mnemonic::CreateInnerEnvironment |
        Mnemonic::ThrowIfHasRestrictedGlobalProperty | Mnemonic::LoadConstBigInt |
        Mnemonic::LoadConstBigIntLongIndex | Mnemonic::ToNumeric => None,
    }
}

/// The byte that stands for `m`, if this version has the instruction.
pub fn mnemonic_to_op(m: Mnemonic) -> (op: Option<u8>)
    ensures
        op == spec_opcode(m),
{
    match m {
        Mnemonic::Unreachable => Some(0),
        Mnemonic::NewObjectWithBuffer => Some(1),
        Mnemonic::NewObjectWithBufferLong => Some(2),
        Mnemonic::NewObject => Some(3),
        Mnemonic::NewObjectWithParent => Some(4),
        Mnemonic::NewArrayWithBuffer => Some(5),
        Mnemonic::NewArrayWithBufferLong => Some(6),
        Mnemonic::NewArray => Some(7),
        Mnemonic::Mov => Some(8),
        Mnemonic::MovLong => Some(9),
        Mnemonic::Negate => Some(10),
        Mnemonic::Not => Some(11),
        Mnemonic::BitNot => Some(12),
        Mnemonic::TypeOf => Some(13),
        Mnemonic::Eq => Some(14),
        Mnemonic::StrictEq => Some(15),
        Mnemonic::Neq => Some(16),
        Mnemonic::StrictNeq => Some(17),
        Mnemonic::Less => Some(18),
        Mnemonic::LessEq => Some(19),
        Mnemonic::Greater => Some(20),
        Mnemonic::GreaterEq => Some(21),
        Mnemonic::Add => Some(22),
        Mnemonic::AddN => Some(23),
        Mnemonic::Mul => Some(24),
        Mnemonic::MulN => Some(25),
        Mnemonic::Div => Some(26),
        Mnemonic::DivN => Some(27),
        Mnemonic::Mod => Some(28),
        Mnemonic::Sub => Some(29),
        Mnemonic::SubN => Some(30),
        Mnemonic::LShift => Some(31),
        Mnemonic::RShift => Some(32),
        Mnemonic::URshift => Some(33),
        Mnemonic::BitAnd => Some(34),
        Mnemonic::BitXor => Some(35),
        Mnemonic::BitOr => Some(36),
        Mnemonic::InstanceOf => Some(37),
        Mnemonic::IsIn => Some(38),
        Mnemonic::GetEnvironment => Some(39),
        Mnemonic::StoreToEnvironment => Some(40),
        Mnemonic::StoreToEnvironmentL => Some(41),
        Mnemonic::StoreNPToEnvironment => Some(42),
        Mnemonic::StoreNPToEnvironmentL => Some(43),
        Mnemonic::LoadFromEnvironment => Some(44),
        Mnemonic::LoadFromEnvironmentL => Some(45),
        Mnemonic::GetGlobalObject => Some(46),
        Mnemonic::GetNewTarget => Some(47),
        Mnemonic::CreateEnvironment => Some(48),
        Mnemonic::DeclareGlobalVar => Some(49),
        Mnemonic::GetByIdShort => Some(50),
        Mnemonic::GetById => Some(51),
        Mnemonic::GetByIdLong => Some(52),
        Mnemonic::TryGetById => Some(53),
        Mnemonic::TryGetByIdLong => Some(54),
        Mnemonic::PutById => Some(55),
        Mnemonic::PutByIdLong => Some(56),
        Mnemonic::TryPutById => Some(57),
        Mnemonic::TryPutByIdLong => Some(58),
        Mnemonic::PutNewOwnByIdShort => Some(59),
        Mnemonic::PutNewOwnById => Some(60),
        Mnemonic::PutNewOwnByIdLong => Some(61),
        Mnemonic::PutNewOwnNEById => Some(62),
        Mnemonic::PutNewOwnNEByIdLong => Some(63),
        Mnemonic::PutOwnByIndex => Some(64),
        Mnemonic::PutOwnByIndexL => Some(65),
        Mnemonic::PutOwnByVal => Some(66),
        Mnemonic::DelById => Some(67),
        Mnemonic::DelByIdLong => Some(68),
        Mnemonic::GetByVal => Some(69),
        Mnemonic::PutByVal => Some(70),
        Mnemonic::DelByVal => Some(71),
        Mnemonic::PutOwnGetterSetterByVal => Some(72),
        Mnemonic::GetPNameList => Some(73),
        Mnemonic::GetNextPName => Some(74),
        Mnemonic::Call => Some(75),
        Mnemonic::Construct => Some(76),
        Mnemonic::Call1 => Some(77),
        Mnemonic::CallDirect => Some(78),
        Mnemonic::Call2 => Some(79),
        Mnemonic::Call3 => Some(80),
        Mnemonic::Call4 => Some(81),
        Mnemonic::CallLong => Some(82),
        Mnemonic::ConstructLong => Some(83),
        Mnemonic::CallDirectLongIndex => Some(84),
        Mnemonic::CallBuiltin => Some(85),
        Mnemonic::CallBuiltinLong => Some(86),
        Mnemonic::GetBuiltinClosure => Some(87),
        Mnemonic::Ret => Some(88),
        Mnemonic::Catch => Some(89),
        Mnemonic::DirectEval => Some(90),
        Mnemonic::Throw => Some(91),
        Mnemonic::ThrowIfEmpty => Some(92),
        Mnemonic::Debugger => Some(93),
        Mnemonic::AsyncBreakCheck => Some(94),
        Mnemonic::ProfilePoint => Some(95),
        Mnemonic::CreateClosure => Some(96),
        Mnemonic::CreateClosureLongIndex => Some(97),
        Mnemonic::CreateGeneratorClosure => Some(98),
        Mnemonic::CreateGeneratorClosureLongIndex => Some(99),
        Mnemonic::CreateAsyncClosure => Some(100),
        Mnemonic::CreateAsyncClosureLongIndex => Some(101),
        Mnemonic::CreateThis => Some(102),
        Mnemonic::SelectObject => Some(103),
        Mnemonic::LoadParam => Some(104),
        Mnemonic::LoadParamLong => Some(105),
        Mnemonic::LoadConstUInt8 => Some(106),
        Mnemonic::LoadConstInt => Some(107),
        Mnemonic::LoadConstDouble => Some(108),
        Mnemonic::LoadConstString => Some(109),
        Mnemonic::LoadConstStringLongIndex => Some(110),
        Mnemonic::LoadConstEmpty => Some(111),
        Mnemonic::LoadConstUndefined => Some(112),
        Mnemonic::LoadConstNull => Some(113),
        Mnemonic::LoadConstTrue => Some(114),
        Mnemonic::LoadConstFalse => Some(115),
        Mnemonic::LoadConstZero => Some(116),
        Mnemonic::CoerceThisNS => Some(117),
        Mnemonic::LoadThisNS => Some(118),
        Mnemonic::ToNumber => Some(119),
        Mnemonic::ToInt32 => Some(120),
        Mnemonic::AddEmptyString => Some(121),
        Mnemonic::GetArgumentsPropByVal => Some(122),
        Mnemonic::GetArgumentsLength => Some(123),
        Mnemonic::ReifyArguments => Some(124),
        Mnemonic::CreateRegExp => Some(125),
        Mnemonic::SwitchImm => Some(126),
        Mnemonic::StartGenerator => Some(127),
        Mnemonic::ResumeGenerator => Some(128),
        Mnemonic::CompleteGenerator => Some(129),
        Mnemonic::CreateGenerator => Some(130),
        Mnemonic::CreateGeneratorLongIndex => Some(131),
        Mnemonic::IteratorBegin => Some(132),
        Mnemonic::IteratorNext => Some(133),
        Mnemonic::IteratorClose => Some(134),
        Mnemonic::Jmp => Some(135),
        Mnemonic::JmpLong => Some(136),
        Mnemonic::JmpTrue => Some(137),
        Mnemonic::JmpTrueLong => Some(138),
        Mnemonic::JmpFalse => Some(139),
        Mnemonic::JmpFalseLong => Some(140),
        Mnemonic::JmpUndefined => Some(141),
        Mnemonic::JmpUndefinedLong => Some(142),
        Mnemonic::SaveGenerator => Some(143),
        Mnemonic::SaveGeneratorLong => Some(144),
        Mnemonic::JLess => Some(145),
        Mnemonic::JLessLong => Some(146),
        Mnemonic::JNotLess => Some(147),
        Mnemonic::JNotLessLong => Some(148),
        Mnemonic::JLessN => Some(149),
        Mnemonic::JLessNLong => Some(150),
        Mnemonic::JNotLessN => Some(151),
        Mnemonic::JNotLessNLong => Some(152),
        Mnemonic::JLessEqual => Some(153),
        Mnemonic::JLessEqualLong => Some(154),
        Mnemonic::JNotLessEqual => Some(155),
        Mnemonic::JNotLessEqualLong => Some(156),
        Mnemonic::JLessEqualN => Some(157),
        Mnemonic::JLessEqualNLong => Some(158),
        Mnemonic::JNotLessEqualN => Some(159),
        Mnemonic::JNotLessEqualNLong => Some(160),
        Mnemonic::JGreater => Some(161),
        Mnemonic::JGreaterLong => Some(162),
        Mnemonic::JNotGreater => Some(163),
        Mnemonic::JNotGreaterLong => Some(164),
        Mnemonic::JGreaterN => Some(165),
        Mnemonic::JGreaterNLong => Some(166),
        Mnemonic::JNotGreaterN => Some(167),
        Mnemonic::JNotGreaterNLong => Some(168),
        Mnemonic::JGreaterEqual => Some(169),
        Mnemonic::JGreaterEqualLong => Some(170),
        Mnemonic::JNotGreaterEqual => Some(171),
        Mnemonic::JNotGreaterEqualLong => Some(172),
        Mnemonic::JGreaterEqualN => Some(173),
        Mnemonic::JGreaterEqualNLong => Some(174),
        Mnemonic::JNotGreaterEqualN => Some(175),
        Mnemonic::JNotGreaterEqualNLong => Some(176),
        Mnemonic::JEqual => Some(177),
        Mnemonic::JEqualLong => Some(178),
        Mnemonic::JNotEqual => Some(179),
        Mnemonic::JNotEqualLong => Some(180),
        Mnemonic::JStrictEqual => Some(181),
        Mnemonic::JStrictEqualLong => Some(182),
        Mnemonic::JStrictNotEqual => Some(183),
        Mnemonic::JStrictNotEqualLong => Some(184),
        Mnemonic::Add32 => Some(185),
        Mnemonic::Sub32 => Some(186),
        Mnemonic::Mul32 => Some(187),
        Mnemonic::Divi32 => Some(188),
        Mnemonic::Divu32 => Some(189),
        Mnemonic::Loadi8 => Some(190),
        Mnemonic::Loadu8 => Some(191),
        Mnemonic::Loadi16 => Some(192),
        Mnemonic::Loadu16 => Some(193),
        Mnemonic::Loadi32 => Some(194),
        Mnemonic::Loadu32 => Some(195),
        Mnemonic::Store8 => Some(196),
        Mnemonic::Store16 => Some(197),
        Mnemonic::Store32 => Some(198),
        Mnemonic::Inc | Mnemonic::Dec | Mnemonic::CreateInnerEnvironment |
        Mnemonic::ThrowIfHasRestrictedGlobalProperty | Mnemonic::LoadConstBigInt |
        Mnemonic::LoadConstBigIntLongIndex | Mnemonic::ToNumeric => None,
    }
}

/// The kinds of the operands that follow the instruction's byte, in order.
/// An instruction that this version lacks has none.
pub open spec fn spec_operands(m: Mnemonic) -> Seq<OperandKind> {
    match m {
        Mnemonic::NewObjectWithBuffer => seq![OperandKind::Reg8, OperandKind::UInt16, OperandKind::UInt16, OperandKind::UInt16, OperandKind::UInt16],
        Mnemonic::NewObjectWithBufferLong => seq![OperandKind::Reg8, OperandKind::UInt16, OperandKind::UInt16, OperandKind::UInt32, OperandKind::UInt32],
        Mnemonic::NewObject | Mnemonic::GetGlobalObject | Mnemonic::GetNewTarget |
        Mnemonic::CreateEnvironment | Mnemonic::Ret | Mnemonic::Catch | Mnemonic::Throw |
        Mnemonic::LoadConstEmpty | Mnemonic::LoadConstUndefined | Mnemonic::LoadConstNull |
        Mnemonic::LoadConstTrue | Mnemonic::LoadConstFalse | Mnemonic::LoadConstZero |
        Mnemonic::LoadThisNS | Mnemonic::ReifyArguments => seq![OperandKind::Reg8],
        Mnemonic::NewObjectWithParent | Mnemonic::Mov | Mnemonic::Negate | Mnemonic::Not |
        Mnemonic::BitNot | Mnemonic::TypeOf | Mnemonic::DirectEval | Mnemonic::ThrowIfEmpty |
        Mnemonic::CoerceThisNS | Mnemonic::ToNumber | Mnemonic::ToInt32 |
        Mnemonic::AddEmptyString | Mnemonic::GetArgumentsLength | Mnemonic::ResumeGenerator |
        Mnemonic::IteratorBegin => seq![OperandKind::Reg8, OperandKind::Reg8],
        Mnemonic::NewArrayWithBuffer => seq![OperandKind::Reg8, OperandKind::UInt16, OperandKind::UInt16, OperandKind::UInt16],
        Mnemonic::NewArrayWithBufferLong => seq![OperandKind::Reg8, OperandKind::UInt16, OperandKind::UInt16, OperandKind::UInt32],
        Mnemonic::NewArray => seq![OperandKind::Reg8, OperandKind::UInt16],
        Mnemonic::MovLong => seq![OperandKind::Reg32, OperandKind::Reg32],
        Mnemonic::Eq | Mnemonic::StrictEq | Mnemonic::Neq | Mnemonic::StrictNeq |
        Mnemonic::Less | Mnemonic::LessEq | Mnemonic::Greater | Mnemonic::GreaterEq |
        Mnemonic::Add | Mnemonic::AddN | Mnemonic::Mul | Mnemonic::MulN | Mnemonic::Div |
        Mnemonic::DivN | Mnemonic::Mod | Mnemonic::Sub | Mnemonic::SubN | Mnemonic::LShift |
        Mnemonic::RShift | Mnemonic::URshift | Mnemonic::BitAnd | Mnemonic::BitXor |
        Mnemonic::BitOr | Mnemonic::InstanceOf | Mnemonic::IsIn | Mnemonic::GetByVal |
        Mnemonic::PutByVal | Mnemonic::DelByVal | Mnemonic::Call1 | Mnemonic::CreateThis |
        Mnemonic::SelectObject | Mnemonic::GetArgumentsPropByVal | Mnemonic::IteratorNext |
        Mnemonic::Add32 | Mnemonic::Sub32 | Mnemonic::Mul32 | Mnemonic::Divi32 |
        Mnemonic::Divu32 | Mnemonic::Loadi8 | Mnemonic::Loadu8 | Mnemonic::Loadi16 |
        Mnemonic::Loadu16 | Mnemonic::Loadi32 | Mnemonic::Loadu32 | Mnemonic::Store8 |
        Mnemonic::Store16 | Mnemonic::Store32 => seq![OperandKind::Reg8, OperandKind::Reg8, OperandKind::Reg8],
        Mnemonic::GetEnvironment | Mnemonic::GetBuiltinClosure | Mnemonic::LoadParam |
        Mnemonic::LoadConstUInt8 | Mnemonic::IteratorClose => seq![OperandKind::Reg8, OperandKind::UInt8],
        Mnemonic::StoreToEnvironment | Mnemonic::StoreNPToEnvironment => seq![OperandKind::Reg8, OperandKind::UInt8, OperandKind::Reg8],
        Mnemonic::StoreToEnvironmentL | Mnemonic::StoreNPToEnvironmentL => seq![OperandKind::Reg8, OperandKind::UInt16, OperandKind::Reg8],
        Mnemonic::LoadFromEnvironment | Mnemonic::PutOwnByIndex | Mnemonic::Call |
        Mnemonic::Construct => seq![OperandKind::Reg8, OperandKind::Reg8, OperandKind::UInt8],
        Mnemonic::LoadFromEnvironmentL | Mnemonic::CreateClosure |
        Mnemonic::CreateGeneratorClosure | Mnemonic::CreateAsyncClosure |
        Mnemonic::CreateGenerator => seq![OperandKind::Reg8, OperandKind::Reg8, OperandKind::UInt16],
        Mnemonic::DeclareGlobalVar => seq![OperandKind::StringIDUInt32],
        Mnemonic::GetByIdShort => seq![OperandKind::Reg8, OperandKind::Reg8, OperandKind::UInt8, OperandKind::StringIDUInt8],
        Mnemonic::GetById | Mnemonic::TryGetById | Mnemonic::PutById | Mnemonic::TryPutById => seq![OperandKind::Reg8, OperandKind::Reg8, OperandKind::UInt8, OperandKind::StringIDUInt16],
        Mnemonic::GetByIdLong | Mnemonic::TryGetByIdLong | Mnemonic::PutByIdLong |
        Mnemonic::TryPutByIdLong => seq![OperandKind::Reg8, OperandKind::Reg8, OperandKind::UInt8, OperandKind::StringIDUInt32],
        Mnemonic::PutNewOwnByIdShort => seq![OperandKind::Reg8, OperandKind::Reg8, OperandKind::StringIDUInt8],
        Mnemonic::PutNewOwnById | Mnemonic::PutNewOwnNEById | Mnemonic::DelById => seq![OperandKind::Reg8, OperandKind::Reg8, OperandKind::StringIDUInt16],
        Mnemonic::PutNewOwnByIdLong | Mnemonic::PutNewOwnNEByIdLong | Mnemonic::DelByIdLong => seq![OperandKind::Reg8, OperandKind::Reg8, OperandKind::StringIDUInt32],
        Mnemonic::PutOwnByIndexL | Mnemonic::CallLong | Mnemonic::ConstructLong |
        Mnemonic::CreateClosureLongIndex | Mnemonic::CreateGeneratorClosureLongIndex |
        Mnemonic::CreateAsyncClosureLongIndex | Mnemonic::CreateGeneratorLongIndex => seq![OperandKind::Reg8, OperandKind::Reg8, OperandKind::UInt32],
        Mnemonic::PutOwnByVal => seq![OperandKind::Reg8, OperandKind::Reg8, OperandKind::Reg8, OperandKind::UInt8],
        Mnemonic::PutOwnGetterSetterByVal => seq![OperandKind::Reg8, OperandKind::Reg8, OperandKind::Reg8, OperandKind::Reg8, OperandKind::UInt8],
        Mnemonic::GetPNameList | Mnemonic::Call2 => seq![OperandKind::Reg8, OperandKind::Reg8, OperandKind::Reg8, OperandKind::Reg8],
        Mnemonic::GetNextPName | Mnemonic::Call3 => seq![OperandKind::Reg8, OperandKind::Reg8, OperandKind::Reg8, OperandKind::Reg8, OperandKind::Reg8],
        Mnemonic::CallDirect => seq![OperandKind::Reg8, OperandKind::UInt8, OperandKind::UInt16],
        Mnemonic::Call4 => seq![OperandKind::Reg8, OperandKind::Reg8, OperandKind::Reg8, OperandKind::Reg8, OperandKind::Reg8, OperandKind::Reg8],
        Mnemonic::CallDirectLongIndex | Mnemonic::CallBuiltinLong => seq![OperandKind::Reg8, OperandKind::UInt8, OperandKind::UInt32],
        Mnemonic::CallBuiltin => seq![OperandKind::Reg8, OperandKind::UInt8, OperandKind::UInt8],
        Mnemonic::ProfilePoint => seq![OperandKind::UInt16],
        Mnemonic::LoadParamLong => seq![OperandKind::Reg8, OperandKind::UInt32],
        Mnemonic::LoadConstInt => seq![OperandKind::Reg8, OperandKind::Imm32],
        Mnemonic::LoadConstDouble => seq![OperandKind::Reg8, OperandKind::Double],
        Mnemonic::LoadConstString => seq![OperandKind::Reg8, OperandKind::StringIDUInt16],
        Mnemonic::LoadConstStringLongIndex => seq![OperandKind::Reg8, OperandKind::StringIDUInt32],
        Mnemonic::CreateRegExp => seq![OperandKind::Reg8, OperandKind::StringIDUInt32, OperandKind::StringIDUInt32, OperandKind::UInt32],
        Mnemonic::SwitchImm => seq![OperandKind::Reg8, OperandKind::UInt32, OperandKind::Addr32, OperandKind::UInt32, OperandKind::UInt32],
        Mnemonic::Jmp | Mnemonic::SaveGenerator => seq![OperandKind::Addr8],
        Mnemonic::JmpLong | Mnemonic::SaveGeneratorLong => seq![OperandKind::Addr32],
        Mnemonic::JmpTrue | Mnemonic::JmpFalse | Mnemonic::JmpUndefined => seq![OperandKind::Addr8, OperandKind::Reg8],
        Mnemonic::JmpTrueLong | Mnemonic::JmpFalseLong | Mnemonic::JmpUndefinedLong => seq![OperandKind::Addr32, OperandKind::Reg8],
        Mnemonic::JLess | Mnemonic::JNotLess | Mnemonic::JLessN | Mnemonic::JNotLessN |
        Mnemonic::JLessEqual | Mnemonic::JNotLessEqual | Mnemonic::JLessEqualN |
        Mnemonic::JNotLessEqualN | Mnemonic::JGreater | Mnemonic::JNotGreater |
        Mnemonic::JGreaterN | Mnemonic::JNotGreaterN | Mnemonic::JGreaterEqual |
        Mnemonic::JNotGreaterEqual | Mnemonic::JGreaterEqualN | Mnemonic::JNotGreaterEqualN |
        Mnemonic::JEqual | Mnemonic::JNotEqual | Mnemonic::JStrictEqual |
        Mnemonic::JStrictNotEqual => seq![OperandKind::Addr8, OperandKind::Reg8, OperandKind::Reg8],
        Mnemonic::JLessLong | Mnemonic::JNotLessLong | Mnemonic::JLessNLong |
        Mnemonic::JNotLessNLong | Mnemonic::JLessEqualLong | Mnemonic::JNotLessEqualLong |
        Mnemonic::JLessEqualNLong | Mnemonic::JNotLessEqualNLong | Mnemonic::JGreaterLong |
        Mnemonic::JNotGreaterLong | Mnemonic::JGreaterNLong | Mnemonic::JNotGreaterNLong |
        Mnemonic::JGreaterEqualLong | Mnemonic::JNotGreaterEqualLong |
        Mnemonic::JGreaterEqualNLong | Mnemonic::JNotGreaterEqualNLong | Mnemonic::JEqualLong |
        Mnemonic::JNotEqualLong | Mnemonic::JStrictEqualLong | Mnemonic::JStrictNotEqualLong => seq![OperandKind::Addr32, OperandKind::Reg8, OperandKind::Reg8],
        _ => seq![],
    }
}

/// The kinds of the operands that follow the instruction's byte, in order.
pub fn operands(m: Mnemonic) -> (kinds: Vec<OperandKind>)
    ensures
        kinds@ == spec_operands(m),
{
    match m {
        Mnemonic::NewObjectWithBuffer => vec![OperandKind::Reg8, OperandKind::UInt16, OperandKind::UInt16, OperandKind::UInt16, OperandKind::UInt16],
        Mnemonic::NewObjectWithBufferLong => vec![OperandKind::Reg8, OperandKind::UInt16, OperandKind::UInt16, OperandKind::UInt32, OperandKind::UInt32],
        Mnemonic::NewObject | Mnemonic::GetGlobalObject | Mnemonic::GetNewTarget |
        Mnemonic::CreateEnvironment | Mnemonic::Ret | Mnemonic::Catch | Mnemonic::Throw |
        Mnemonic::LoadConstEmpty | Mnemonic::LoadConstUndefined | Mnemonic::LoadConstNull |
        Mnemonic::LoadConstTrue | Mnemonic::LoadConstFalse | Mnemonic::LoadConstZero |
        Mnemonic::LoadThisNS | Mnemonic::ReifyArguments => vec![OperandKind::Reg8],
        Mnemonic::NewObjectWithParent | Mnemonic::Mov | Mnemonic::Negate | Mnemonic::Not |
        Mnemonic::BitNot | Mnemonic::TypeOf | Mnemonic::DirectEval | Mnemonic::ThrowIfEmpty |
        Mnemonic::CoerceThisNS | Mnemonic::ToNumber | Mnemonic::ToInt32 |
        Mnemonic::AddEmptyString | Mnemonic::GetArgumentsLength | Mnemonic::ResumeGenerator |
        Mnemonic::IteratorBegin => vec![OperandKind::Reg8, OperandKind::Reg8],
        Mnemonic::NewArrayWithBuffer => vec![OperandKind::Reg8, OperandKind::UInt16, OperandKind::UInt16, OperandKind::UInt16],
        Mnemonic::NewArrayWithBufferLong => vec![OperandKind::Reg8, OperandKind::UInt16, OperandKind::UInt16, OperandKind::UInt32],
        Mnemonic::NewArray => vec![OperandKind::Reg8, OperandKind::UInt16],
        Mnemonic::MovLong => vec![OperandKind::Reg32, OperandKind::Reg32],
        Mnemonic::Eq | Mnemonic::StrictEq | Mnemonic::Neq | Mnemonic::StrictNeq |
        Mnemonic::Less | Mnemonic::LessEq | Mnemonic::Greater | Mnemonic::GreaterEq |
        Mnemonic::Add | Mnemonic::AddN | Mnemonic::Mul | Mnemonic::MulN | Mnemonic::Div |
        Mnemonic::DivN | Mnemonic::Mod | Mnemonic::Sub | Mnemonic::SubN | Mnemonic::LShift |
        Mnemonic::RShift | Mnemonic::URshift | Mnemonic::BitAnd | Mnemonic::BitXor |
        Mnemonic::BitOr | Mnemonic::InstanceOf | Mnemonic::IsIn | Mnemonic::GetByVal |
        Mnemonic::PutByVal | Mnemonic::DelByVal | Mnemonic::Call1 | Mnemonic::CreateThis |
        Mnemonic::SelectObject | Mnemonic::GetArgumentsPropByVal | Mnemonic::IteratorNext |
        Mnemonic::Add32 | Mnemonic::Sub32 | Mnemonic::Mul32 | Mnemonic::Divi32 |
        Mnemonic::Divu32 | Mnemonic::Loadi8 | Mnemonic::Loadu8 | Mnemonic::Loadi16 |
        Mnemonic::Loadu16 | Mnemonic::Loadi32 | Mnemonic::Loadu32 | Mnemonic::Store8 |
        Mnemonic::Store16 | Mnemonic::Store32 => vec![OperandKind::Reg8, OperandKind::Reg8, OperandKind::Reg8],
        Mnemonic::GetEnvironment | Mnemonic::GetBuiltinClosure | Mnemonic::LoadParam |
        Mnemonic::LoadConstUInt8 | Mnemonic::IteratorClose => vec![OperandKind::Reg8, OperandKind::UInt8],
        Mnemonic::StoreToEnvironment | Mnemonic::StoreNPToEnvironment => vec![OperandKind::Reg8, OperandKind::UInt8, OperandKind::Reg8],
        Mnemonic::StoreToEnvironmentL | Mnemonic::StoreNPToEnvironmentL => vec![OperandKind::Reg8, OperandKind::UInt16, OperandKind::Reg8],
        Mnemonic::LoadFromEnvironment | Mnemonic::PutOwnByIndex | Mnemonic::Call |
        Mnemonic::Construct => vec![OperandKind::Reg8, OperandKind::Reg8, OperandKind::UInt8],
        Mnemonic::LoadFromEnvironmentL | Mnemonic::CreateClosure |
        Mnemonic::CreateGeneratorClosure | Mnemonic::CreateAsyncClosure |
        Mnemonic::CreateGenerator => vec![OperandKind::Reg8, OperandKind::Reg8, OperandKind::UInt16],
        Mnemonic::DeclareGlobalVar => vec![OperandKind::StringIDUInt32],
        Mnemonic::GetByIdShort => vec![OperandKind::Reg8, OperandKind::Reg8, OperandKind::UInt8, OperandKind::StringIDUInt8],
        Mnemonic::GetById | Mnemonic::TryGetById | Mnemonic::PutById | Mnemonic::TryPutById => vec![OperandKind::Reg8, OperandKind::Reg8, OperandKind::UInt8, OperandKind::StringIDUInt16],
        Mnemonic::GetByIdLong | Mnemonic::TryGetByIdLong | Mnemonic::PutByIdLong |
        Mnemonic::TryPutByIdLong => vec![OperandKind::Reg8, OperandKind::Reg8, OperandKind::UInt8, OperandKind::StringIDUInt32],
        Mnemonic::PutNewOwnByIdShort => vec![OperandKind::Reg8, OperandKind::Reg8, OperandKind::StringIDUInt8],
        Mnemonic::PutNewOwnById | Mnemonic::PutNewOwnNEById | Mnemonic::DelById => vec![OperandKind::Reg8, OperandKind::Reg8, OperandKind::StringIDUInt16],
        Mnemonic::PutNewOwnByIdLong | Mnemonic::PutNewOwnNEByIdLong | Mnemonic::DelByIdLong => vec![OperandKind::Reg8, OperandKind::Reg8, OperandKind::StringIDUInt32],
        Mnemonic::PutOwnByIndexL | Mnemonic::CallLong | Mnemonic::ConstructLong |
        Mnemonic::CreateClosureLongIndex | Mnemonic::CreateGeneratorClosureLongIndex |
        Mnemonic::CreateAsyncClosureLongIndex | Mnemonic::CreateGeneratorLongIndex => vec![OperandKind::Reg8, OperandKind::Reg8, OperandKind::UInt32],
        Mnemonic::PutOwnByVal => vec![OperandKind::Reg8, OperandKind::Reg8, OperandKind::Reg8, OperandKind::UInt8],
        Mnemonic::PutOwnGetterSetterByVal => vec![OperandKind::Reg8, OperandKind::Reg8, OperandKind::Reg8, OperandKind::Reg8, OperandKind::UInt8],
        Mnemonic::GetPNameList | Mnemonic::Call2 => vec![OperandKind::Reg8, OperandKind::Reg8, OperandKind::Reg8, OperandKind::Reg8],
        Mnemonic::GetNextPName | Mnemonic::Call3 => vec![OperandKind::Reg8, OperandKind::Reg8, OperandKind::Reg8, OperandKind::Reg8, OperandKind::Reg8],
        Mnemonic::CallDirect => vec![OperandKind::Reg8, OperandKind::UInt8, OperandKind::UInt16],
        Mnemonic::Call4 => vec![OperandKind::Reg8, OperandKind::Reg8, OperandKind::Reg8, OperandKind::Reg8, OperandKind::Reg8, OperandKind::Reg8],
        Mnemonic::CallDirectLongIndex | Mnemonic::CallBuiltinLong => vec![OperandKind::Reg8, OperandKind::UInt8, OperandKind::UInt32],
        Mnemonic::CallBuiltin => vec![OperandKind::Reg8, OperandKind::UInt8, OperandKind::UInt8],
        Mnemonic::ProfilePoint => vec![OperandKind::UInt16],
        Mnemonic::LoadParamLong => vec![OperandKind::Reg8, OperandKind::UInt32],
        Mnemonic::LoadConstInt => vec![OperandKind::Reg8, OperandKind::Imm32],
        Mnemonic::LoadConstDouble => vec![OperandKind::Reg8, OperandKind::Double],
        Mnemonic::LoadConstString => vec![OperandKind::Reg8, OperandKind::StringIDUInt16],
        Mnemonic::LoadConstStringLongIndex => vec![OperandKind::Reg8, OperandKind::StringIDUInt32],
        Mnemonic::CreateRegExp => vec![OperandKind::Reg8, OperandKind::StringIDUInt32, OperandKind::StringIDUInt32, OperandKind::UInt32],
        Mnemonic::SwitchImm => vec![OperandKind::Reg8, OperandKind::UInt32, OperandKind::Addr32, OperandKind::UInt32, OperandKind::UInt32],
        Mnemonic::Jmp | Mnemonic::SaveGenerator => vec![OperandKind::Addr8],
        Mnemonic::JmpLong | Mnemonic::SaveGeneratorLong => vec![OperandKind::Addr32],
        Mnemonic::JmpTrue | Mnemonic::JmpFalse | Mnemonic::JmpUndefined => vec![OperandKind::Addr8, OperandKind::Reg8],
        Mnemonic::JmpTrueLong | Mnemonic::JmpFalseLong | Mnemonic::JmpUndefinedLong => vec![OperandKind::Addr32, OperandKind::Reg8],
        Mnemonic::JLess | Mnemonic::JNotLess | Mnemonic::JLessN | Mnemonic::JNotLessN |
        Mnemonic::JLessEqual | Mnemonic::JNotLessEqual | Mnemonic::JLessEqualN |
        Mnemonic::JNotLessEqualN | Mnemonic::JGreater | Mnemonic::JNotGreater |
        Mnemonic::JGreaterN | Mnemonic::JNotGreaterN | Mnemonic::JGreaterEqual |
        Mnemonic::JNotGreaterEqual | Mnemonic::JGreaterEqualN | Mnemonic::JNotGreaterEqualN |
        Mnemonic::JEqual | Mnemonic::JNotEqual | Mnemonic::JStrictEqual |
        Mnemonic::JStrictNotEqual => vec![OperandKind::Addr8, OperandKind::Reg8, OperandKind::Reg8],
        Mnemonic::JLessLong | Mnemonic::JNotLessLong | Mnemonic::JLessNLong |
        Mnemonic::JNotLessNLong | Mnemonic::JLessEqualLong | Mnemonic::JNotLessEqualLong |
        Mnemonic::JLessEqualNLong | Mnemonic::JNotLessEqualNLong | Mnemonic::JGreaterLong |
        Mnemonic::JNotGreaterLong | Mnemonic::JGreaterNLong | Mnemonic::JNotGreaterNLong |
        Mnemonic::JGreaterEqualLong | Mnemonic::JNotGreaterEqualLong |
        Mnemonic::JGreaterEqualNLong | Mnemonic::JNotGreaterEqualNLong | Mnemonic::JEqualLong |
        Mnemonic::JNotEqualLong | Mnemonic::JStrictEqualLong | Mnemonic::JStrictNotEqualLong => vec![OperandKind::Addr32, OperandKind::Reg8, OperandKind::Reg8],
        _ => vec![],
    }
}

/// No instruction takes more than six operands.
pub proof fn lemma_operands_bound(m: Mnemonic)
    ensures
        spec_operands(m).len() <= 6,
{
}

/// Every byte of the table is the byte of the instruction it stands for.
pub proof fn lemma_opcode_of_mnemonic(op: u8)
    requires
        op <= MAX_OPCODE,
    ensures
        spec_opcode(spec_mnemonic(op)) == Some(op),
{
}

/// An instruction's byte lies in the table and stands for that instruction:
/// the table is one-to-one between its bytes and its instructions.
pub proof fn lemma_mnemonic_of_opcode(m: Mnemonic)
    ensures
        match spec_opcode(m) {
            Some(op) => op <= MAX_OPCODE && spec_mnemonic(op) == m,
            None => forall|op: u8| op <= MAX_OPCODE ==> spec_mnemonic(op) != m,
        },
{
}

} // verus!
