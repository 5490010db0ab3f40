//! The options byte of the container header.

use vstd::prelude::*;
use crate::decode::{decode_u8, Reader};
use crate::encode::{encode_u8, Writer};
use crate::error::HermesError;

verus! {

/// The four flags of the options byte, one bit each from bit 0 up.
#[derive(Debug, Clone, Copy, PartialEq, Eq, Structural)]
pub struct BytecodeOptions {
    pub static_builtins: bool,
    pub cjs_modules_statically_resolved: bool,
    pub has_async: bool,
    pub flags: bool,
}

impl BytecodeOptions {
    /// The byte the flags are written as.
    pub open spec fn spec_byte(&self) -> u8 {
        ((if self.static_builtins { 1int } else { 0 }) + (if self.cjs_modules_statically_resolved {
            2int
        } else {
            0
        }) + (if self.has_async { 4int } else { 0 }) + (if self.flags { 8int } else { 0 })) as u8
    }

    /// The flags that a byte reads as; its four high bits are ignored.
    pub open spec fn spec_parse(b: u8) -> Self {
        BytecodeOptions {
            static_builtins: b % 2 == 1,
            cjs_modules_statically_resolved: (b / 2) % 2 == 1,
            has_async: (b / 4) % 2 == 1,
            flags: (b / 8) % 2 == 1,
        }
    }

    /// All flags off.
    pub fn new() -> (o: Self)
        ensures
            o == (BytecodeOptions {
                static_builtins: false,
                cjs_modules_statically_resolved: false,
                has_async: false,
                flags: false,
            }),
    {
        BytecodeOptions {
            static_builtins: false,
            cjs_modules_statically_resolved: false,
            has_async: false,
            flags: false,
        }
    }

    /// The options take one byte.
    pub fn size(&self) -> (n: usize)
        ensures
            n == 1,
    {
        1
    }

    /// Reads the options byte.
    pub fn deserialize(r: &mut Reader, _version: u32) -> (res: Result<Self, HermesError>)
        ensures
            match res {
                Ok(v) => old(r).can_read(1) && v == Self::spec_parse(
                    old(r).data@[old(r).pos as int],
                ) && final(r).advanced_from(old(r), 1),
                Err(e) => e == HermesError::MalformedInput && !old(r).can_read(1)
                    && final(r).unmoved_from(old(r)),
            },
    {
        let b = decode_u8(r)?;
        Ok(
            BytecodeOptions {
                static_builtins: b % 2 == 1,
                cjs_modules_statically_resolved: (b / 2) % 2 == 1,
                has_async: (b / 4) % 2 == 1,
                flags: (b / 8) % 2 == 1,
            },
        )
    }

    /// Appends the options byte.
    pub fn serialize(&self, w: &mut Writer)
        ensures
            final(w)@ == old(w)@.push(self.spec_byte()),
    {
        let mut b: u8 = 0;
        if self.static_builtins {
            b = b + 1;
        }
        if self.cjs_modules_statically_resolved {
            b = b + 2;
        }
        if self.has_async {
            b = b + 4;
        }
        if self.flags {
            b = b + 8;
        }
        encode_u8(w, b);
    }

    /// Reading the byte written gives the same flags.
    pub proof fn lemma_round_trip(&self)
        ensures
            Self::spec_parse(self.spec_byte()) == *self,
    {
    }
}

impl Default for BytecodeOptions {
    fn default() -> (o: Self)
        ensures
            o == (BytecodeOptions {
                static_builtins: false,
                cjs_modules_statically_resolved: false,
                has_async: false,
                flags: false,
            }),
    {
        Self::new()
    }
}

} // verus!
