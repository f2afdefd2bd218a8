//! Structural check of a previously persisted transport-stream segment.

use vstd::prelude::*;

verus! {

/// Size of one transport-stream packet, in bytes.
pub const TS_PACKET_SIZE: usize = 188;

/// Byte that starts every transport-stream packet.
pub const TS_SYNC_BYTE: u8 = 0x47;

/// Number of leading bytes the check looks at: two whole packets.
pub const TS_CHECKED_LEN: usize = 376;

/// A file whose leading bytes are `head` is usable without re-fetching: it
/// holds at least two packets, and both packets start with the sync byte.
pub open spec fn ts_head_ok(head: Seq<u8>) -> bool {
    &&& head.len() >= 2 * 188
    &&& head[0] == 0x47u8
    &&& head[188] == 0x47u8
}

/// Decides whether a segment file whose contents start with `head` can be
/// trusted. `head` may be the whole file or any prefix of it that holds at
/// least `TS_CHECKED_LEN` bytes when the file does.
pub fn ts_head_is_valid(head: &[u8]) -> (r: bool)
    ensures
        r == ts_head_ok(head@),
{
    if head.len() < TS_CHECKED_LEN {
        return false;
    }
    head[0] == TS_SYNC_BYTE && head[TS_PACKET_SIZE] == TS_SYNC_BYTE
}

/// The validator rejects an empty file, a file shorter than two packets and a
/// file whose first byte is not the sync byte, and accepts a two-packet file
/// with the sync byte at both packet starts.
pub proof fn lemma_validator_cases(head: Seq<u8>)
    ensures
        head.len() == 0 ==> !ts_head_ok(head),
        head.len() < 2 * 188 ==> !ts_head_ok(head),
        head.len() > 0 && head[0] != 0x47u8 ==> !ts_head_ok(head),
        head.len() == 2 * 188 && head[0] == 0x47u8 && head[188] == 0x47u8 ==> ts_head_ok(head),
{
}

} // verus!
