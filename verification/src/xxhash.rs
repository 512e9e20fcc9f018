//! A seeded, streaming 64-bit content hash over byte sequences.
//!
//! The algorithm is a four-lane mixing construction: 32-byte blocks are split
//! into four little-endian 64-bit words and fed into four lanes; the lanes are
//! merged, the input length is folded in, and any remaining tail bytes are
//! consumed in decreasing granularity (8-byte words, then one 4-byte word at
//! most, then single bytes). Every addition, subtraction and multiplication
//! wraps modulo 2^64. The hash is not cryptographic; collisions are an
//! accepted risk. Inputs shorter than 32 bytes take a deliberate fast path
//! that folds in only the third lane (which still equals the seed then).

use vstd::prelude::*;

verus! {

/// The fixed seed: every digest is derived from this seed and the primes.
pub const SEED: u64 = 0;

/// First of the five large odd mixing constants.
pub const PRIME0: u64 = 11400714785074694791;
/// Second mixing constant; multiplies each input word before rotation.
pub const PRIME1: u64 = 14029467366897019727;
/// Third mixing constant; folded in after each 4-byte tail word.
pub const PRIME2: u64 = 1609587929392839161;
/// Fourth mixing constant; folded in after each lane merge and 8-byte word.
pub const PRIME3: u64 = 9650029242287828579;
/// Fifth mixing constant; seeds the accumulator on the short-input path.
pub const PRIME4: u64 = 2870177450012600261;

/// Addition on `u64`, wrapping modulo 2^64.
#[verifier::opaque]
pub open spec fn wadd(a: u64, b: u64) -> u64 {
    vstd::wrapping::u64_specs::wrapping_add(a, b)
}

/// Subtraction on `u64`, wrapping modulo 2^64.
#[verifier::opaque]
pub open spec fn wsub(a: u64, b: u64) -> u64 {
    vstd::wrapping::u64_specs::wrapping_sub(a, b)
}

/// Multiplication on `u64`, wrapping modulo 2^64.
#[verifier::opaque]
pub open spec fn wmul(a: u64, b: u64) -> u64 {
    vstd::wrapping::u64_specs::wrapping_mul(a, b)
}

/// Rotation of a 64-bit value left by `shift` bits, `0 < shift < 64`.
#[verifier::opaque]
pub open spec fn spec_rot_left(input: u64, shift: u64) -> u64
    recommends
        0 < shift < 64,
{
    (input << shift) | (input >> ((64 - shift) as u64))
}

/// The round function: one word mixed into one lane.
pub open spec fn spec_process(prev_state: u64, input: u64) -> u64 {
    wmul(spec_rot_left(wadd(prev_state, wmul(input, PRIME1)), 31), PRIME0)
}

/// The four lane values before any block is processed, derived from the seed.
pub open spec fn init_lanes() -> (u64, u64, u64, u64) {
    (
        wadd(SEED, wadd(PRIME0, PRIME1)),
        wadd(SEED, PRIME1),
        SEED,
        wsub(SEED, PRIME0),
    )
}

/// The 64-bit little-endian word formed by `s[i .. i + 8]`.
pub open spec fn le_word64(s: Seq<u8>, i: int) -> u64
    recommends
        0 <= i,
        i + 8 <= s.len(),
{
    (s[i] as u64)
    | ((s[i + 1] as u64) << 8u64)
    | ((s[i + 2] as u64) << 16u64)
    | ((s[i + 3] as u64) << 24u64)
    | ((s[i + 4] as u64) << 32u64)
    | ((s[i + 5] as u64) << 40u64)
    | ((s[i + 6] as u64) << 48u64)
    | ((s[i + 7] as u64) << 56u64)
}

/// The 32-bit little-endian word formed by `s[i .. i + 4]`, widened to 64 bits.
pub open spec fn le_word32(s: Seq<u8>, i: int) -> u64
    recommends
        0 <= i,
        i + 4 <= s.len(),
{
    (s[i] as u64)
    | ((s[i + 1] as u64) << 8u64)
    | ((s[i + 2] as u64) << 16u64)
    | ((s[i + 3] as u64) << 24u64)
}

/// Run the four lanes over every whole 32-byte block of `s` from position `i`
/// on, and return the position of the first unconsumed byte with the final
/// lane values.
pub open spec fn spec_blocks(s: Seq<u8>, i: int, lanes: (u64, u64, u64, u64)) -> (int, (u64, u64, u64, u64))
    decreases s.len() - i,
{
    if 0 <= i && i + 32 <= s.len() {
        spec_blocks(
            s,
            i + 32,
            (
                spec_process(lanes.0, le_word64(s, i)),
                spec_process(lanes.1, le_word64(s, i + 8)),
                spec_process(lanes.2, le_word64(s, i + 16)),
                spec_process(lanes.3, le_word64(s, i + 24)),
            ),
        )
    } else {
        (i, lanes)
    }
}

/// Combine the four lanes into one accumulator: per-lane left rotations by
/// 1, 7, 12 and 18 bits are summed, then each lane's round-function output is
/// merged in by XOR, multiplying by the first prime and adding the fourth
/// after each merge, in lane order.
pub open spec fn spec_merge(lanes: (u64, u64, u64, u64)) -> u64 {
    let summed = wadd(
        wadd(
            wadd(spec_rot_left(lanes.0, 1), spec_rot_left(lanes.1, 7)),
            spec_rot_left(lanes.2, 12),
        ),
        spec_rot_left(lanes.3, 18),
    );
    let m0 = wadd(wmul(summed ^ spec_process(0, lanes.0), PRIME0), PRIME3);
    let m1 = wadd(wmul(m0 ^ spec_process(0, lanes.1), PRIME0), PRIME3);
    let m2 = wadd(wmul(m1 ^ spec_process(0, lanes.2), PRIME0), PRIME3);
    wadd(wmul(m2 ^ spec_process(0, lanes.3), PRIME0), PRIME3)
}

/// Consume tail bytes eight at a time, strictly while more than eight bytes
/// remain, and return the position of the first unconsumed byte with the new
/// accumulator.
pub open spec fn spec_tail8(s: Seq<u8>, i: int, acc: u64) -> (int, u64)
    decreases s.len() - i,
{
    if 0 <= i && i + 8 < s.len() {
        spec_tail8(
            s,
            i + 8,
            wadd(wmul(spec_rot_left(acc ^ spec_process(0, le_word64(s, i)), 27), PRIME1), PRIME3),
        )
    } else {
        (i, acc)
    }
}

/// Consume tail bytes four at a time, strictly while more than four bytes
/// remain, and return the position of the first unconsumed byte with the new
/// accumulator.
pub open spec fn spec_tail4(s: Seq<u8>, i: int, acc: u64) -> (int, u64)
    decreases s.len() - i,
{
    if 0 <= i && i + 4 < s.len() {
        spec_tail4(
            s,
            i + 4,
            wadd(wmul(spec_rot_left(acc ^ wmul(le_word32(s, i), PRIME0), 23), PRIME1), PRIME2),
        )
    } else {
        (i, acc)
    }
}

/// Consume the remaining tail bytes one at a time.
pub open spec fn spec_tail1(s: Seq<u8>, i: int, acc: u64) -> u64
    decreases s.len() - i,
{
    if 0 <= i && i < s.len() {
        spec_tail1(s, i + 1, wmul(spec_rot_left(acc ^ wmul(s[i] as u64, PRIME4), 11), PRIME0))
    } else {
        acc
    }
}

/// The digest of a byte sequence: lanes over whole 32-byte blocks, a merge
/// (or, for inputs shorter than 32 bytes, the short path seeding the
/// accumulator from the untouched third lane plus the fifth prime), the input
/// length folded in, then the tail phases in decreasing granularity.
pub open spec fn spec_digest(s: Seq<u8>) -> u64 {
    let (blocks_end, lanes) = spec_blocks(s, 0, init_lanes());
    let base = if s.len() < 32 {
        wadd(lanes.2, PRIME4)
    } else {
        spec_merge(lanes)
    };
    let with_len = wadd(base, (s.len() as int % 0x1_0000_0000_0000_0000) as u64);
    let (after8, acc8) = spec_tail8(s, blocks_end, with_len);
    let (after4, acc4) = spec_tail4(s, after8, acc8);
    spec_tail1(s, after4, acc4)
}

/// Rotate a 64-bit value left by `shift` bits.
pub fn rot_left(input: u64, shift: u64) -> (r: u64)
    requires
        0 < shift < 64,
    ensures
        r == spec_rot_left(input, shift),
{
    proof {
        reveal(spec_rot_left);
    }
    input << shift | input >> (64 - shift)
}

/// One round of the mixing function: fold `input` into the lane `prev_state`.
pub fn process(prev_state: u64, input: u64) -> (r: u64)
    ensures
        r == spec_process(prev_state, input),
{
    proof {
        reveal(wadd);
        reveal(wmul);
    }
    rot_left(prev_state.wrapping_add(input.wrapping_mul(PRIME1)), 31).wrapping_mul(PRIME0)
}

/// Offset each lane of a fresh all-seed state by its prime, in place.
pub fn init_state(state: &mut [u64; 4])
    ensures
        final(state)@[0] == wadd(old(state)@[0], wadd(PRIME0, PRIME1)),
        final(state)@[1] == wadd(old(state)@[1], PRIME1),
        final(state)@[2] == old(state)@[2],
        final(state)@[3] == wsub(old(state)@[3], PRIME0),
{
    proof {
        reveal(wadd);
        reveal(wsub);
    }
    *state = [
        state[0].wrapping_add(PRIME0.wrapping_add(PRIME1)),
        state[1].wrapping_add(PRIME1),
        state[2],
        state[3].wrapping_sub(PRIME0),
    ];
}

/// Read the 64-bit little-endian word at `data[i .. i + 8]`.
pub fn word64_at(data: &[u8], i: usize) -> (r: u64)
    requires
        i + 8 <= data@.len(),
    ensures
        r == le_word64(data@, i as int),
{
    (data[i] as u64)
    | ((data[i + 1] as u64) << 8u64)
    | ((data[i + 2] as u64) << 16u64)
    | ((data[i + 3] as u64) << 24u64)
    | ((data[i + 4] as u64) << 32u64)
    | ((data[i + 5] as u64) << 40u64)
    | ((data[i + 6] as u64) << 48u64)
    | ((data[i + 7] as u64) << 56u64)
}

/// Read the 32-bit little-endian word at `data[i .. i + 4]`, widened to 64 bits.
pub fn word32_at(data: &[u8], i: usize) -> (r: u64)
    requires
        i + 4 <= data@.len(),
    ensures
        r == le_word32(data@, i as int),
{
    (data[i] as u64)
    | ((data[i + 1] as u64) << 8u64)
    | ((data[i + 2] as u64) << 16u64)
    | ((data[i + 3] as u64) << 24u64)
}

/// Split one 32-byte block into its four little-endian 64-bit lane words.
pub fn make_block(data: &[u8]) -> (r: [u64; 4])
    requires
        data@.len() == 32,
    ensures
        r@[0] == le_word64(data@, 0),
        r@[1] == le_word64(data@, 8),
        r@[2] == le_word64(data@, 16),
        r@[3] == le_word64(data@, 24),
{
    [
        word64_at(data, 0),
        word64_at(data, 8),
        word64_at(data, 16),
        word64_at(data, 24),
    ]
}

/// Relates the little-endian word read from a subrange to the word read from
/// the enclosing sequence at the corresponding offset.
proof fn lemma_le_word64_subrange(s: Seq<u8>, a: int, b: int, k: int)
    requires
        0 <= a <= b <= s.len(),
        0 <= k,
        k + 8 <= b - a,
    ensures
        le_word64(s.subrange(a, b), k) == le_word64(s, a + k),
{
    assert(s.subrange(a, b)[k] == s[a + k]);
    assert(s.subrange(a, b)[k + 1] == s[a + k + 1]);
    assert(s.subrange(a, b)[k + 2] == s[a + k + 2]);
    assert(s.subrange(a, b)[k + 3] == s[a + k + 3]);
    assert(s.subrange(a, b)[k + 4] == s[a + k + 4]);
    assert(s.subrange(a, b)[k + 5] == s[a + k + 5]);
    assert(s.subrange(a, b)[k + 6] == s[a + k + 6]);
    assert(s.subrange(a, b)[k + 7] == s[a + k + 7]);
}

/// The digest is deterministic: it is a function of the input bytes alone,
/// so two digests of equal byte sequences are equal.
pub proof fn lemma_digest_deterministic(b1: Seq<u8>, b2: Seq<u8>)
    requires
        b1 == b2,
    ensures
        spec_digest(b1) == spec_digest(b2),
{
}

/// The digest of the empty input is a fixed constant, derived purely from the
/// seed and the primes: the short path seeds the accumulator from the third
/// lane (still the seed, zero) plus the fifth prime, and a length of zero is
/// folded in.
pub proof fn lemma_digest_empty()
    ensures
        spec_digest(Seq::<u8>::empty()) == 2870177450012600261u64,
{
    reveal(wadd);
    let s = Seq::<u8>::empty();
    assert(spec_blocks(s, 0, init_lanes()) == (0int, init_lanes()));
    assert(spec_tail8(s, 0, PRIME4) == (0int, PRIME4));
    assert(spec_tail4(s, 0, PRIME4) == (0int, PRIME4));
    assert(spec_tail1(s, 0, PRIME4) == PRIME4);
}

/// Combine the four lanes into the long-input accumulator.
fn merge_lanes(state: &[u64; 4]) -> (r: u64)
    ensures
        r == spec_merge((state@[0], state@[1], state@[2], state@[3])),
{
    proof {
        reveal(wadd);
        reveal(wmul);
    }
    let summed = rot_left(state[0], 1)
        .wrapping_add(rot_left(state[1], 7))
        .wrapping_add(rot_left(state[2], 12))
        .wrapping_add(rot_left(state[3], 18));
    let m0 = (summed ^ process(0, state[0])).wrapping_mul(PRIME0).wrapping_add(PRIME3);
    let m1 = (m0 ^ process(0, state[1])).wrapping_mul(PRIME0).wrapping_add(PRIME3);
    let m2 = (m1 ^ process(0, state[2])).wrapping_mul(PRIME0).wrapping_add(PRIME3);
    (m2 ^ process(0, state[3])).wrapping_mul(PRIME0).wrapping_add(PRIME3)
}

/// The digest of a value's byte content.
pub trait XXhash64 {
    /// The digest this implementation owes, as a function of the value alone.
    spec fn spec_hash(&self) -> u64;

    /// Compute the digest; deterministic and free of side effects.
    fn hash(&self) -> (r: u64)
        ensures
            r == self.spec_hash(),
    ;
}

impl XXhash64 for Vec<u8> {
    open spec fn spec_hash(&self) -> u64 {
        spec_digest(self@)
    }

    fn hash(&self) -> (r: u64) {
        let n: usize = self.len();
        let data: &[u8] = self.as_slice();
        let mut state: [u64; 4] = [SEED, SEED, SEED, SEED];
        init_state(&mut state);
        assert((state@[0], state@[1], state@[2], state@[3]) == init_lanes());

        let mut i: usize = 0;
        while n - i >= 32
            invariant
                n == data@.len(),
                data@ == self@,
                i <= n,
                spec_blocks(self@, i as int, (state@[0], state@[1], state@[2], state@[3]))
                    == spec_blocks(self@, 0, init_lanes()),
            decreases n - i,
        {
            let block = make_block(&data[i..i + 32]);
            proof {
                lemma_le_word64_subrange(self@, i as int, i + 32, 0);
                lemma_le_word64_subrange(self@, i as int, i + 32, 8);
                lemma_le_word64_subrange(self@, i as int, i + 32, 16);
                lemma_le_word64_subrange(self@, i as int, i + 32, 24);
            }
            state = [
                process(state[0], block[0]),
                process(state[1], block[1]),
                process(state[2], block[2]),
                process(state[3], block[3]),
            ];
            i += 32;
        }
        let ghost lanes: (u64, u64, u64, u64) = (state@[0], state@[1], state@[2], state@[3]);
        let ghost blocks_end: int = i as int;
        assert(spec_blocks(self@, 0, init_lanes()) == (blocks_end, lanes));

        let mut result: u64;
        proof {
            reveal(wadd);
        }
        if n < 32 {
            result = state[2].wrapping_add(PRIME4);
        } else {
            result = merge_lanes(&state);
        }
        result = result.wrapping_add(n as u64);

        let ghost tail8_goal: (int, u64) = spec_tail8(self@, i as int, result);
        while n - i > 8
            invariant
                n == data@.len(),
                data@ == self@,
                i <= n,
                spec_tail8(self@, i as int, result) == tail8_goal,
            decreases n - i,
        {
            proof {
                reveal(wadd);
                reveal(wmul);
            }
            let word = word64_at(data, i);
            result = rot_left(result ^ process(0, word), 27)
                .wrapping_mul(PRIME1)
                .wrapping_add(PRIME3);
            i += 8;
        }
        assert(tail8_goal == (i as int, result));

        let ghost tail4_goal: (int, u64) = spec_tail4(self@, i as int, result);
        while n - i > 4
            invariant
                n == data@.len(),
                data@ == self@,
                i <= n,
                spec_tail4(self@, i as int, result) == tail4_goal,
            decreases n - i,
        {
            proof {
                reveal(wadd);
                reveal(wmul);
            }
            let word = word32_at(data, i);
            result = rot_left(result ^ word.wrapping_mul(PRIME0), 23)
                .wrapping_mul(PRIME1)
                .wrapping_add(PRIME2);
            i += 4;
        }
        assert(tail4_goal == (i as int, result));

        let ghost tail1_goal: u64 = spec_tail1(self@, i as int, result);
        while i < n
            invariant
                n == data@.len(),
                data@ == self@,
                i <= n,
                spec_tail1(self@, i as int, result) == tail1_goal,
            decreases n - i,
        {
            proof {
                reveal(wmul);
            }
            result = rot_left(result ^ (data[i] as u64).wrapping_mul(PRIME4), 11)
                .wrapping_mul(PRIME0);
            i += 1;
        }
        assert(tail1_goal == result);
        result
    }
}

} // verus!
