//! Why a file could not be played, told from how far opening it got.
//!
//! The shell reads the head of the file and hands the stream to the
//! decoder. When the decoder refuses it, the head of the file tells a file
//! that is no FLAC stream at all from a FLAC stream that is damaged.

use crate::error::DecodeCause;
use vstd::prelude::*;

verus! {

/// Whether `bytes` begin with the four bytes `fLaC` that every FLAC stream
/// begins with.
pub open spec fn has_flac_marker(bytes: Seq<u8>) -> bool {
    &&& bytes.len() >= 4
    &&& bytes[0] == 0x66
    &&& bytes[1] == 0x4C
    &&& bytes[2] == 0x61
    &&& bytes[3] == 0x43
}

/// `metaflac::Tag::is_candidate`, asked of bytes in memory, read from their
/// start. It reads four bytes and compares them with `fLaC`; where there
/// are fewer than four, the answer is no.
#[verifier::external_body]
fn is_candidate(bytes: &Vec<u8>) -> (candidate: bool)
    ensures
        candidate == has_flac_marker(bytes@),
{
    metaflac::Tag::is_candidate(&mut std::io::Cursor::new(bytes.as_slice()))
}

/// The cause of a failure to open a file. `head` holds the first bytes of
/// the file, four at least if the file has that many, or nothing if the
/// file could not be read at all.
pub open spec fn cause_of(head: Option<Seq<u8>>) -> DecodeCause {
    match head {
        None => DecodeCause::MissingFile,
        Some(bytes) => if has_flac_marker(bytes) {
            DecodeCause::CorruptStream
        } else {
            DecodeCause::WrongFormat
        },
    }
}

/// Tells why a file could not be opened: a file that cannot be read is
/// missing, one that does not begin as a FLAC stream has the wrong format,
/// and one that does and was refused all the same is corrupt.
pub fn diagnose(head: Option<&Vec<u8>>) -> (cause: DecodeCause)
    ensures
        cause == cause_of(
            match head {
                Some(bytes) => Some(bytes@),
                None => None,
            },
        ),
{
    match head {
        None => DecodeCause::MissingFile,
        Some(bytes) => {
            if is_candidate(bytes) {
                DecodeCause::CorruptStream
            } else {
                DecodeCause::WrongFormat
            }
        },
    }
}

} // verus!
