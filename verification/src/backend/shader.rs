//! Decoding of SPIR-V modules handed in as raw bytes.
use vstd::prelude::*;

use crate::types::{Result, ScalixError};

verus! {

#[verifier::external_type_specification]
#[verifier::external_body]
pub struct ExIoError(std::io::Error);

/// First word of every SPIR-V module.
pub const SPIRV_MAGIC: u32 = 0x0723_0203;

/// Word `i` of `b` read with its lowest byte first.
pub open spec fn le_word(b: Seq<u8>, i: int) -> u32 {
    (b[4 * i] as int + b[4 * i + 1] as int * 256 + b[4 * i + 2] as int * 65536 + b[4 * i + 3] as int
        * 16777216) as u32
}

/// Word `i` of `b` read with its highest byte first.
pub open spec fn be_word(b: Seq<u8>, i: int) -> u32 {
    (b[4 * i + 3] as int + b[4 * i + 2] as int * 256 + b[4 * i + 1] as int * 65536 + b[4 * i] as int
        * 16777216) as u32
}

/// Words of a SPIR-V module: the bytes, a non-empty whole number of 32-bit words, read in the
/// byte order in which the first word is the magic number; `None` when there is no such order.
pub open spec fn spirv_words(b: Seq<u8>) -> Option<Seq<u32>> {
    if b.len() == 0 || b.len() % 4 != 0 {
        None
    } else if le_word(b, 0) == SPIRV_MAGIC {
        Some(Seq::new(b.len() / 4, |i: int| le_word(b, i)))
    } else if be_word(b, 0) == SPIRV_MAGIC {
        Some(Seq::new(b.len() / 4, |i: int| be_word(b, i)))
    } else {
        None
    }
}

/// Reads a SPIR-V module out of `bytes`.
///
/// Calls `ash::util::read_spv` on a cursor over the bytes. Its source refuses a length that is not
/// a multiple of four, reads the words in the machine's order, turns every word around when the
/// first one is the magic number turned around, and refuses a result that is empty or does not
/// start with the magic number: so it succeeds exactly when `spirv_words` is `Some`, with those
/// words. What the error value holds is not stated.
#[verifier::external_body]
fn read_spirv(bytes: &[u8]) -> (r: std::result::Result<Vec<u32>, std::io::Error>)
    ensures
        match r {
            Ok(w) => spirv_words(bytes@) == Some(w@),
            Err(_) => spirv_words(bytes@) is None,
        },
{
    ash::util::read_spv(&mut std::io::Cursor::new(bytes))
}

/// Text of an I/O error, as `std::io::Error`'s `Display` writes it. Nothing is claimed of it.
#[verifier::external_body]
fn io_error_text(e: &std::io::Error) -> String {
    e.to_string()
}

/// Decodes the SPIR-V byte stream of a compute shader into its 32-bit words.
///
/// Fails with `ExecutionFailed`, whose message starts with
/// "Failed to parse SPIR-V byte stream: ", when the bytes are no SPIR-V module.
pub fn parse_spirv_module(spv_bytes: &[u8]) -> (r: Result<Vec<u32>>)
    ensures
        match r {
            Ok(w) => spirv_words(spv_bytes@) == Some(w@),
            Err(e) => spirv_words(spv_bytes@) is None && (e matches ScalixError::ExecutionFailed(m)
                && m@.len() >= 36 && m@.subrange(0, 36) == "Failed to parse SPIR-V byte stream: "@),
        },
{
    match read_spirv(spv_bytes) {
        Ok(words) => Ok(words),
        Err(e) => {
            let mut msg = "Failed to parse SPIR-V byte stream: ".to_owned();
            let ghost head = msg@;
            msg.append(io_error_text(&e).as_str());
            proof {
                reveal_strlit("Failed to parse SPIR-V byte stream: ");
                assert(msg@.subrange(0, 36) =~= head);
            }
            Err(ScalixError::ExecutionFailed(msg))
        },
    }
}

} // verus!
