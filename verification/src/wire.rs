//! Encoding of the command word sent down the command pipe.
//!
//! The parent tells the child which wrapped function to run by sending the
//! function's address as a `u64`; the value `0` asks the child to exit.  The
//! word travels in bincode's encoding, which for a `u64` is its eight bytes in
//! little-endian order.
use vstd::prelude::*;
use vstd::bytes::{spec_u64_to_le_bytes, spec_u64_from_le_bytes, lemma_auto_spec_u64_to_from_le_bytes};

verus! {

/// Number of bytes one command word takes on the wire.
pub open spec fn spec_command_frame_len() -> nat {
    8
}

/// bincode's encoding of a `u64`.
pub open spec fn spec_encode_command(command: u64) -> Seq<u8> {
    spec_u64_to_le_bytes(command)
}

/// What decoding a frame yields: the word held by its first eight bytes, or
/// nothing when fewer than eight bytes are there.
pub open spec fn spec_decode_command(frame: Seq<u8>) -> Option<u64> {
    if frame.len() >= 8 {
        Some(spec_u64_from_le_bytes(frame.subrange(0, 8)))
    } else {
        None
    }
}

/// `bincode::serialize(&value, bincode::Infinite)` for a `u64`.
///
/// bincode 0.8 writes a `u64` with `write_u64::<LittleEndian>` into a `Vec`,
/// so the result is the value's eight little-endian bytes; with the
/// `Infinite` limit and a `Vec` as writer the call cannot fail.
#[verifier::external_body]
fn bincode_serialize_u64(value: u64) -> (bytes: Vec<u8>)
    ensures
        bytes@ == spec_u64_to_le_bytes(value),
{
    bincode::serialize(&value, bincode::Infinite).unwrap()
}

/// `bincode::deserialize::<u64>(bytes)`, with its error mapped to `None`.
///
/// bincode 0.8 reads a `u64` with `read_u64::<LittleEndian>` from a slice
/// reader: it succeeds exactly when at least eight bytes are there, takes the
/// first eight, and leaves any further bytes unread.
#[verifier::external_body]
fn bincode_deserialize_u64(bytes: &[u8]) -> (value: Option<u64>)
    ensures
        value is Some <==> bytes@.len() >= 8,
        value is Some ==> value->0 == spec_u64_from_le_bytes(bytes@.subrange(0, 8)),
{
    bincode::deserialize::<u64>(bytes).ok()
}

/// Number of bytes the child reads from the command pipe for one command.
pub fn command_frame_len() -> (len: usize)
    ensures
        len == spec_command_frame_len(),
{
    8
}

/// Encodes a command word as it is written into the command pipe.
pub fn encode_command(command: u64) -> (frame: Vec<u8>)
    ensures
        frame@ == spec_encode_command(command),
        frame@ == spec_u64_to_le_bytes(command),
        frame@.len() == spec_command_frame_len(),
        frame@.len() == 8,
{
    proof {
        lemma_auto_spec_u64_to_from_le_bytes();
    }
    bincode_serialize_u64(command)
}

/// Decodes a command word from the bytes read off the command pipe.
pub fn decode_command(frame: &[u8]) -> (command: Option<u64>)
    ensures
        command == spec_decode_command(frame@),
        frame@.len() < 8 ==> command is None,
        frame@.len() >= 8 ==> command == Some(spec_u64_from_le_bytes(frame@.subrange(0, 8))),
{
    bincode_deserialize_u64(frame)
}

/// The command word travels as bincode writes a `u64`: its eight bytes,
/// least significant first.  Reading takes the first eight bytes of a
/// frame as such a word, and a frame shorter than eight bytes holds none.
pub proof fn lemma_command_is_little_endian_word(command: u64, frame: Seq<u8>)
    ensures
        spec_encode_command(command) == spec_u64_to_le_bytes(command),
        spec_encode_command(command).len() == 8,
        spec_command_frame_len() == 8,
        frame.len() >= 8 ==> spec_decode_command(frame) == Some(spec_u64_from_le_bytes(frame.subrange(0, 8))),
        frame.len() < 8 ==> spec_decode_command(frame) is None,
{
    lemma_auto_spec_u64_to_from_le_bytes();
}

/// Decoding the encoding of a command gives the command back.
pub proof fn lemma_command_round_trip(command: u64)
    ensures
        spec_decode_command(spec_encode_command(command)) == Some(command),
{
    lemma_auto_spec_u64_to_from_le_bytes();
    let s = spec_encode_command(command);
    assert(s.subrange(0, 8) =~= s);
}

} // verus!
