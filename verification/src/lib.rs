//! Reading, editing and writing Hermes bytecode (HBC) containers.
//!
//! The container is a flat byte stream: a 128-byte header, tables of function
//! headers and interned strings, literal buffers, per-function instruction
//! streams, debug information and a SHA-1 footer. Every codec in this crate
//! is stated against a mathematical model of those bytes and proved.

pub mod error;
pub mod bitfield;
pub mod decode;
pub mod encode;
pub mod codec;
pub mod exception_handler;
pub mod big_int_table;
pub mod regexp_table;
pub mod function_sources;
pub mod string_kind;
pub mod string_table;
pub mod cjs_module;
pub mod bytecode_options;
pub mod debug_info;
pub mod function_header;
pub mod types;
pub mod opcode;
pub mod v84;
pub mod v95;
pub mod instruction;
pub mod text;
pub mod jenkins;
pub mod utf16;
pub mod header;
pub mod array_parser;
pub mod digest;
pub mod layout;
pub mod hermes_file;
pub mod disasm;
