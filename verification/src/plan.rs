//! Upload plan: how a file of a given size is cut into transfer chunks.
//!
//! Every chunk but the last holds exactly [`crate::timing::CHUNK_SIZE`]
//! bytes; the last holds the remainder. A file whose size is an exact
//! multiple of the chunk size is cut into full chunks only: no zero-length
//! trailing chunk is ever planned.

use vstd::prelude::*;
use crate::timing::CHUNK_SIZE;

verus! {

/// How many chunks a file of `size` bytes is cut into.
pub open spec fn spec_chunk_count(size: u64) -> int {
    if size as int % CHUNK_SIZE as int == 0 {
        size as int / CHUNK_SIZE as int
    } else {
        size as int / CHUNK_SIZE as int + 1
    }
}

/// The byte offset at which chunk `i` starts.
pub open spec fn spec_chunk_offset(i: int) -> int {
    i * CHUNK_SIZE as int
}

/// The length in bytes of chunk `i` of a file of `size` bytes.
pub open spec fn spec_chunk_len(size: u64, i: int) -> int
    recommends
        0 <= i < spec_chunk_count(size),
{
    if spec_chunk_offset(i) + CHUNK_SIZE as int <= size as int {
        CHUNK_SIZE as int
    } else {
        size as int - spec_chunk_offset(i)
    }
}

/// Number of chunks for a file of `size` bytes: `size / CHUNK_SIZE`,
/// plus one more, partial, chunk when the division leaves a remainder.
pub fn chunk_count(size: u64) -> (r: u64)
    ensures
        r == spec_chunk_count(size),
{
    if size % CHUNK_SIZE == 0 {
        size / CHUNK_SIZE
    } else {
        size / CHUNK_SIZE + 1
    }
}

/// Every chunk index below the count starts strictly inside the file.
pub proof fn lemma_chunk_offset_in_file(size: u64, i: int)
    requires
        0 <= i < spec_chunk_count(size),
    ensures
        0 <= spec_chunk_offset(i),
        spec_chunk_offset(i) < size as int,
        spec_chunk_offset(i) + spec_chunk_len(size, i) <= size as int,
        0 < spec_chunk_len(size, i) <= CHUNK_SIZE as int,
{
    let c = CHUNK_SIZE as int;
    let q = size as int / c;
    let m = size as int % c;
    vstd::arithmetic::div_mod::lemma_fundamental_div_mod(size as int, c);
    assert(size as int == c * q + m);
    if m == 0 {
        assert(i <= q - 1);
        assert(i * c <= (q - 1) * c) by (nonlinear_arith)
            requires i <= q - 1 && c > 0;
    } else {
        assert(i <= q);
        assert(i * c <= q * c) by (nonlinear_arith)
            requires i <= q && c > 0;
    }
}

/// Byte offset of chunk `i`, guaranteed to lie inside the file.
pub fn chunk_offset(size: u64, i: u64) -> (r: u64)
    requires
        i < spec_chunk_count(size),
    ensures
        r == spec_chunk_offset(i as int),
        r < size,
{
    proof {
        lemma_chunk_offset_in_file(size, i as int);
    }
    i * CHUNK_SIZE
}

/// Length of chunk `i`: the full `CHUNK_SIZE` whenever a whole chunk still
/// fits at its offset, the remaining bytes otherwise. Never zero.
pub fn chunk_len(size: u64, i: u64) -> (r: u64)
    requires
        i < spec_chunk_count(size),
    ensures
        r == spec_chunk_len(size, i as int),
        0 < r <= CHUNK_SIZE,
{
    proof {
        lemma_chunk_offset_in_file(size, i as int);
    }
    let off: u64 = i * CHUNK_SIZE;
    if size - off >= CHUNK_SIZE {
        CHUNK_SIZE
    } else {
        size - off
    }
}

/// The shape of the whole plan, for any file size:
/// the full-size chunks are exactly the first `size / CHUNK_SIZE` ones,
/// a remainder adds one final chunk of exactly `size % CHUNK_SIZE` bytes,
/// an exact multiple of the chunk size adds no trailing empty chunk,
/// and no planned chunk is ever empty.
pub proof fn lemma_chunk_plan_shape(size: u64)
    ensures
        forall|i: int|
            0 <= i < spec_chunk_count(size) ==> ((spec_chunk_len(size, i) == CHUNK_SIZE as int)
                <==> i < size as int / CHUNK_SIZE as int),
        size as int % CHUNK_SIZE as int == 0 ==> spec_chunk_count(size) == size as int
            / CHUNK_SIZE as int,
        size as int % CHUNK_SIZE as int != 0 ==> spec_chunk_count(size) == size as int
            / CHUNK_SIZE as int + 1 && spec_chunk_len(size, spec_chunk_count(size) - 1)
            == size as int % CHUNK_SIZE as int,
        forall|i: int| 0 <= i < spec_chunk_count(size) ==> 0 < #[trigger] spec_chunk_len(size, i),
{
    let c = CHUNK_SIZE as int;
    let q = size as int / c;
    let m = size as int % c;
    vstd::arithmetic::div_mod::lemma_fundamental_div_mod(size as int, c);
    assert forall|i: int| 0 <= i < spec_chunk_count(size) implies ((spec_chunk_len(size, i)
        == c) <==> i < q) by {
        lemma_chunk_offset_in_file(size, i);
        if i < q {
            assert((i + 1) * c <= q * c) by (nonlinear_arith)
                requires i + 1 <= q && c > 0;
            assert(spec_chunk_offset(i) + c <= size as int);
        } else {
            assert(i * c >= q * c) by (nonlinear_arith)
                requires i >= q && c > 0;
            assert(spec_chunk_offset(i) + c > size as int);
        }
    }
    if m != 0 {
        let last = spec_chunk_count(size) - 1;
        assert(last == q);
        assert(q * c == c * q) by (nonlinear_arith);
        assert(spec_chunk_len(size, last) == m);
    }
    assert forall|i: int| 0 <= i < spec_chunk_count(size) implies 0 < #[trigger] spec_chunk_len(
        size,
        i,
    ) by {
        lemma_chunk_offset_in_file(size, i);
    }
}

/// The lengths of the first `n` chunks of the plan, summed.
pub open spec fn spec_prefix_len(size: u64, n: int) -> int
    decreases n,
{
    if n <= 0 {
        0
    } else {
        spec_prefix_len(size, n - 1) + spec_chunk_len(size, n - 1)
    }
}

/// The chunks tile the file: every chunk starts exactly where the
/// previous one ended, and the whole plan covers exactly the file's
/// bytes — nothing skipped, nothing sent twice.
pub proof fn lemma_chunks_tile_file(size: u64, n: int)
    requires
        0 <= n <= spec_chunk_count(size),
    ensures
        spec_prefix_len(size, n) == if n == spec_chunk_count(size) {
            size as int
        } else {
            spec_chunk_offset(n)
        },
    decreases n,
{
    let c = CHUNK_SIZE as int;
    let q = size as int / c;
    let m = size as int % c;
    vstd::arithmetic::div_mod::lemma_fundamental_div_mod(size as int, c);
    if n > 0 {
        lemma_chunks_tile_file(size, n - 1);
        lemma_chunk_offset_in_file(size, n - 1);
        lemma_chunk_plan_shape(size);
        assert((n - 1) * c + c == n * c) by (nonlinear_arith);
        if n < spec_chunk_count(size) {
            assert(n - 1 < q);
            assert(spec_chunk_len(size, n - 1) == c);
        } else {
            if m == 0 {
                assert(n - 1 < q);
                assert(spec_chunk_len(size, n - 1) == c);
                assert(n * c == c * q) by (nonlinear_arith)
                    requires n == q && c > 0;
            } else {
                assert(n - 1 == q);
                assert(q * c == c * q) by (nonlinear_arith);
                assert(spec_chunk_len(size, n - 1) == size as int - q * c);
            }
        }
    }
}

} // verus!
