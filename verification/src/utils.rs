//! The pseudo-random numbers that fill the operands.
//!
//! An operand is filled chunk by chunk, each chunk on its own and from a
//! start of its own, so that the chunks can be filled side by side. Here the
//! numbers are 64-bit integers; scaling them into a range of binary64
//! numbers is the caller's work.

use rayon::iter::IndexedParallelIterator;
use rayon::iter::ParallelIterator;
use rayon::slice::ParallelSliceMut;
use vstd::prelude::*;

verus! {

/// The number of entries of a chunk. The last chunk of an operand may have
/// fewer.
pub const CHUNK_SIZE: usize = 2048;

/// The seed of the first operand of a product.
pub const SEED_A: u64 = 100;

/// The seed of the second operand of a product.
pub const SEED_B: u64 = 200;

/// The factor of the generator.
pub const MULTIPLIER: u64 = 192499;

/// The summand of the generator.
pub const INCREMENT: u64 = 6837199;

/// The number that follows `value`.
pub open spec fn successor(value: u64) -> u64 {
    value.wrapping_mul(MULTIPLIER).wrapping_add(INCREMENT)
}

/// The number that is `steps` numbers after `value`.
pub open spec fn advanced(value: u64, steps: nat) -> u64
    decreases steps,
{
    if steps == 0 {
        value
    } else {
        successor(advanced(value, (steps - 1) as nat))
    }
}

/// The number from which the chunk with the index `chunk` starts.
pub open spec fn chunk_origin(chunk: usize, seed: u64) -> int {
    (chunk * 1034871 + 10581) * seed
}

/// Whether the start of the chunk can be computed in 64 bits.
pub open spec fn chunk_fits(chunk: usize, seed: u64) -> bool {
    chunk * 1034871 + 10581 <= u64::MAX && chunk_origin(chunk, seed) <= u64::MAX
}

/// The entry at `index` of the chunk with the index `chunk`: the generator
/// runs `50 + chunk` numbers ahead of the chunk's start, and the entries are
/// the numbers that follow.
pub open spec fn chunk_entry(chunk: usize, seed: u64, index: int) -> u64 {
    advanced(chunk_origin(chunk, seed) as u64, (50 + chunk + index + 1) as nat)
}

/// The entry at `index` of an operand: the entries of its chunks, one chunk
/// after the other.
pub open spec fn operand_entry(seed: u64, index: int) -> u64 {
    chunk_entry((index / CHUNK_SIZE as int) as usize, seed, index % CHUNK_SIZE as int)
}

/// The number that follows `value`.
pub fn next_value(value: u64) -> (next: u64)
    ensures
        next == successor(value),
{
    value.wrapping_mul(MULTIPLIER).wrapping_add(INCREMENT)
}

/// The number from which the chunk with the index `chunk` starts, unless it
/// cannot be computed in 64 bits.
pub fn chunk_start(chunk: usize, seed: u64) -> (start: Option<u64>)
    ensures
        start is Some <==> chunk_fits(chunk, seed),
        start matches Some(origin) ==> origin == chunk_origin(chunk, seed),
{
    let scaled = (chunk as u64).checked_mul(1034871)?;
    let shifted = scaled.checked_add(10581)?;
    shifted.checked_mul(seed)
}

/// Where the start of a chunk can be computed, so can that of every chunk
/// before it.
pub proof fn lemma_earlier_chunks_fit(earlier: usize, later: usize, seed: u64)
    requires
        earlier <= later,
        chunk_fits(later, seed),
    ensures
        chunk_fits(earlier, seed),
{
    assert((earlier * 1034871 + 10581) * seed <= (later * 1034871 + 10581) * seed)
        by (nonlinear_arith)
        requires
            earlier <= later,
            seed >= 0,
    ;
}

/// Fills the chunk with the index `chunk`.
pub fn fill_chunk(chunk: usize, entries: &mut [u64], seed: u64)
    requires
        chunk_fits(chunk, seed),
    ensures
        final(entries)@.len() == old(entries)@.len(),
        forall|i: int|
            0 <= i < final(entries)@.len() ==> #[trigger] final(entries)@[i] == chunk_entry(
                chunk,
                seed,
                i,
            ),
{
    let start = chunk_start(chunk, seed).unwrap();
    let mut value: u64 = start;
    let lead: u64 = 50 + chunk as u64;
    let mut done: u64 = 0;
    while done < lead
        invariant
            done <= lead,
            value == advanced(start, done as nat),
        decreases lead - done,
    {
        value = next_value(value);
        done += 1;
    }
    let len = entries.len();
    let mut i: usize = 0;
    while i < len
        invariant
            i <= len,
            len == entries@.len(),
            entries@.len() == old(entries)@.len(),
            lead == 50 + chunk,
            start == chunk_origin(chunk, seed),
            value == advanced(start, (lead + i) as nat),
            forall|j: int| 0 <= j < i ==> #[trigger] entries@[j] == chunk_entry(chunk, seed, j),
        decreases len - i,
    {
        value = next_value(value);
        entries[i] = value;
        i += 1;
    }
}

/// Fills the chunks of an operand side by side, with rayon's
/// `par_chunks_mut`, `enumerate` and `for_each`.
///
/// By rayon's documentation `par_chunks_mut` cuts the entries into chunks of
/// `CHUNK_SIZE` entries that follow one another and do not overlap, the last
/// one shorter where the length is no multiple; `enumerate` pairs each chunk
/// with its index; `for_each` runs the closure once on each pair. The closure
/// is one call of [`fill_chunk`], so afterwards each chunk holds what
/// `fill_chunk` leaves in it.
#[verifier::external_body]
fn par_fill(values: &mut Vec<u64>, seed: u64)
    requires
        forall|chunk: usize| chunk * CHUNK_SIZE < old(values).len() ==> chunk_fits(chunk, seed),
    ensures
        final(values).len() == old(values).len(),
        forall|i: int|
            0 <= i < final(values).len() ==> #[trigger] final(values)[i] == operand_entry(seed, i),
{
    values.par_chunks_mut(CHUNK_SIZE).enumerate().for_each(
        |(chunk, entries)| fill_chunk(chunk, entries, seed),
    );
}

/// The index of the last chunk of an operand with `size` entries.
pub open spec fn last_chunk(size: usize) -> usize {
    ((size - 1) / CHUNK_SIZE as int) as usize
}

/// The pseudo-random numbers of an operand with `size` entries, unless the
/// start of its last chunk cannot be computed in 64 bits.
pub fn fill_rand(size: usize, seed: u64) -> (filled: Option<Vec<u64>>)
    ensures
        filled is Some <==> size == 0 || chunk_fits(last_chunk(size), seed),
        filled matches Some(values) ==> {
            &&& values.len() == size
            &&& forall|i: int| 0 <= i < size ==> #[trigger] values[i] == operand_entry(seed, i)
        },
{
    let mut values: Vec<u64> = vec![0u64; size];
    if size == 0 {
        return Some(values);
    }
    let last: usize = (size - 1) / CHUNK_SIZE;
    if chunk_start(last, seed).is_none() {
        return None;
    }
    proof {
        assert forall|chunk: usize| chunk * CHUNK_SIZE < values.len() implies chunk_fits(
            chunk,
            seed,
        ) by {
            lemma_earlier_chunks_fit(chunk, last, seed);
        }
    }
    par_fill(&mut values, seed);
    Some(values)
}

} // verus!
