//! Splitting a note into analysis windows.
//!
//! A note of `L` milliseconds is cut into `k = ceil(L / 20)` chunks. Every
//! chunk lasts `L / k` milliseconds, except the first, which also takes the
//! `L % k` milliseconds that are left over, so that the chunks add up to the
//! note exactly.

use vstd::prelude::*;
use vstd::arithmetic::div_mod::lemma_fundamental_div_mod;

verus! {

/// The longest analysis window that the splitting aims for, in milliseconds.
pub const MAX_WINDOW_LENGTH: u32 = 20;

/// How many chunks a note of `length` milliseconds is cut into: `length / 20`,
/// rounded up.
pub open spec fn chunk_count(length: u32) -> nat {
    ((length + 19) / 20) as nat
}

/// The length of chunk `index` of a note of `length` milliseconds.
pub open spec fn chunk_length(length: u32, index: int) -> nat {
    let k = chunk_count(length);
    if index == 0 {
        length as nat / k + length as nat % k
    } else {
        length as nat / k
    }
}

/// The chunks of a note of `length` milliseconds, in playing order.
pub open spec fn chunks_of(length: u32) -> Seq<u32> {
    Seq::new(chunk_count(length), |i: int| chunk_length(length, i) as u32)
}

/// The sum of the lengths in `s`.
pub open spec fn total(s: Seq<u32>) -> nat
    decreases s.len(),
{
    if s.len() == 0 {
        0
    } else {
        total(s.drop_last()) + s.last() as nat
    }
}

/// A sequence whose items after the first are all `rest` adds up to the first
/// item plus `rest` for each of the others.
proof fn lemma_total_uniform_tail(s: Seq<u32>, rest: u32)
    requires
        s.len() >= 1,
        forall|i: int| 1 <= i < s.len() ==> s[i] == rest,
    ensures
        total(s) == s[0] + (s.len() - 1) * rest,
    decreases s.len(),
{
    if s.len() == 1 {
        assert(s.drop_last().len() == 0);
        assert(total(s.drop_last()) == 0);
        assert((s.len() - 1) * rest == 0);
    } else {
        let t = s.drop_last();
        lemma_total_uniform_tail(t, rest);
        assert(t[0] == s[0]);
        assert(s.last() == rest);
        assert((s.len() - 1) * rest == (t.len() - 1) * rest + rest) by (nonlinear_arith)
            requires
                t.len() == s.len() - 1,
        ;
    }
}

/// Every chunk lasts at least one millisecond and at most as long as the
/// note; every chunk but the first lasts at most twenty; and the first is
/// longer than the others by less than the number of chunks.
pub proof fn lemma_chunk_bounds(length: u32, index: int)
    requires
        length >= 1,
        0 <= index < chunk_count(length),
    ensures
        1 <= chunk_length(length, index) <= length,
        chunks_of(length)[index] == chunk_length(length, index),
        index > 0 ==> chunk_length(length, index) <= 20,
        chunk_length(length, 0) < chunk_length(length, index) + chunk_count(length),
{
    let k = chunk_count(length);
    let len = length as nat;
    lemma_fundamental_div_mod(len as int, k as int);
    assert(k <= len);
    assert(len / k >= 1) by (nonlinear_arith)
        requires
            1 <= k <= len,
    ;
    assert(len / k <= 20) by (nonlinear_arith)
        requires
            k >= 1,
            k * 20 >= len,
    ;
    assert(len % k < k) by (nonlinear_arith)
        requires
            k >= 1,
    ;
    assert(k * (len / k) >= len / k) by (nonlinear_arith)
        requires
            k >= 1,
    ;
}

/// Chunk-split completeness: the chunks of a note of at least one millisecond
/// add up to the note's length exactly, and there are `ceil(length / 20)` of
/// them: the least number of windows of twenty milliseconds that cover the
/// note.
pub proof fn lemma_chunks_complete(length: u32)
    requires
        length >= 1,
    ensures
        total(chunks_of(length)) == length,
        chunks_of(length).len() == chunk_count(length),
        chunk_count(length) >= 1,
        chunk_count(length) * 20 >= length,
        (chunk_count(length) - 1) * 20 < length,
{
    let k = chunk_count(length);
    let len = length as nat;
    let s = chunks_of(length);
    assert(k >= 1);
    lemma_chunk_bounds(length, 0);
    assert forall|i: int| 1 <= i < s.len() implies s[i] == (len / k) as u32 by {
        lemma_chunk_bounds(length, i);
    }
    lemma_total_uniform_tail(s, (len / k) as u32);
    lemma_fundamental_div_mod(len as int, k as int);
    assert((k - 1) * (len / k) + (len / k) == k * (len / k)) by (nonlinear_arith);
}

/// Cuts a note of `num` milliseconds into its chunks.
pub fn split_into_chunks(num: u32) -> (chunks: Vec<u32>)
    requires
        num >= 1,
    ensures
        chunks@ == chunks_of(num),
        chunks@.len() == chunk_count(num),
        chunks@.len() >= 1,
        total(chunks@) == num,
{
    let k: u32 = (num - 1) / MAX_WINDOW_LENGTH + 1;
    assert(k == chunk_count(num));
    let base: u32 = num / k;
    let remainder: u32 = num % k;
    proof {
        lemma_chunk_bounds(num, 0);
        lemma_chunks_complete(num);
    }
    let mut chunks: Vec<u32> = Vec::new();
    chunks.push(base + remainder);
    let mut i: u32 = 1;
    while i < k
        invariant
            1 <= i <= k,
            chunks@.len() == i,
            chunks@[0] == base + remainder,
            forall|j: int| 1 <= j < i ==> chunks@[j] == base,
        decreases k - i,
    {
        chunks.push(base);
        i = i + 1;
    }
    assert(chunks@ =~= chunks_of(num));
    chunks
}

} // verus!
