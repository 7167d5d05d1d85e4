//! Timing policy: durations (in milliseconds) derived from a baud rate.
//!
//! Lower baud rates need proportionally longer to move the same number of
//! bytes, so both timeouts grow as the baud rate shrinks.

use vstd::prelude::*;
use vstd::arithmetic::div_mod::lemma_div_is_ordered_by_denominator;

verus! {

/// Bytes sent to the display in one transfer unit during an upload.
pub const CHUNK_SIZE: u64 = 4096;

/// Milliseconds to wait for the handshake reply at `baud`.
pub open spec fn spec_connect_timeout_ms(baud: u32) -> u64
    recommends
        baud > 0,
{
    (30 + 11_000_000int / (baud as int)) as u64
}

/// Milliseconds to let the display consume one full chunk at `baud`
/// before polling for its acknowledgment.
pub open spec fn spec_chunk_wait_ms(baud: u32) -> u64
    recommends
        baud > 0,
{
    ((CHUNK_SIZE * 1000) as int / (baud as int) + 10) as u64
}

/// Read timeout for the handshake reply: a fixed processing margin plus a
/// term inversely proportional to the baud rate.
pub fn connect_timeout_ms(baud: u32) -> (r: u64)
    requires
        baud > 0,
    ensures
        r == spec_connect_timeout_ms(baud),
        r > 0,
{
    30 + 11_000_000u64 / (baud as u64)
}

/// Settle delay after writing one chunk: the transmit time of a full chunk
/// at `baud` plus a fixed margin.
pub fn chunk_wait_ms(baud: u32) -> (r: u64)
    requires
        baud > 0,
    ensures
        r == spec_chunk_wait_ms(baud),
        r > 0,
{
    CHUNK_SIZE * 1000 / (baud as u64) + 10
}

/// Both derived durations are strictly positive, and neither grows when the
/// baud rate does: a faster link never waits longer.
pub proof fn lemma_timing_positive_and_antitone(lo: u32, hi: u32)
    requires
        0 < lo <= hi,
    ensures
        spec_connect_timeout_ms(lo) > 0,
        spec_chunk_wait_ms(lo) > 0,
        spec_connect_timeout_ms(hi) > 0,
        spec_chunk_wait_ms(hi) > 0,
        spec_connect_timeout_ms(hi) <= spec_connect_timeout_ms(lo),
        spec_chunk_wait_ms(hi) <= spec_chunk_wait_ms(lo),
{
    lemma_div_is_ordered_by_denominator(11_000_000, lo as int, hi as int);
    lemma_div_is_ordered_by_denominator((CHUNK_SIZE * 1000) as int, lo as int, hi as int);
}

} // verus!
