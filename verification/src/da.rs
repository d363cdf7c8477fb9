//! The bytes in which a state diff is published for data availability.

use vstd::prelude::*;
use crate::state::Felt;

verus! {

/// Byte `at` of the 16 big-endian bytes of a 128-bit number.
pub open spec fn half_byte(half: u128, at: int) -> u8 {
    ((half >> (((15 - at) * 8) as u128)) & 0xff) as u8
}

/// Byte `at` of the 32 big-endian bytes of a word.
pub open spec fn word_byte(word: Felt, at: int) -> u8 {
    if at < 16 {
        half_byte(word.hi, at)
    } else {
        half_byte(word.lo, at - 16)
    }
}

/// The words of a state diff one after the other, each as its 32 big-endian bytes.
pub open spec fn diff_bytes(words: Seq<Felt>) -> Seq<u8> {
    Seq::new(32 * words.len(), |k: int| word_byte(words[k / 32], k % 32))
}

/// Appends the 16 big-endian bytes of a 128-bit number.
fn push_half(bytes: &mut Vec<u8>, half: u128)
    ensures
        final(bytes)@.len() == old(bytes)@.len() + 16,
        forall|k: int| 0 <= k < old(bytes)@.len() ==> final(bytes)@[k] == old(bytes)@[k],
        forall|k: int|
            0 <= k < 16 ==> #[trigger] final(bytes)@[old(bytes)@.len() + k] == half_byte(half, k),
{
    let ghost before = bytes@;
    let mut at: u128 = 0;
    while at < 16
        invariant
            at <= 16,
            bytes@.len() == before.len() + at,
            forall|k: int| 0 <= k < before.len() ==> bytes@[k] == before[k],
            forall|k: int| 0 <= k < at ==> #[trigger] bytes@[before.len() + k] == half_byte(half, k),
        decreases 16 - at,
    {
        let shift: u128 = (15 - at) * 8;
        let masked: u128 = (half >> shift) & 0xff;
        assert(masked <= 0xff) by (bit_vector)
            requires
                masked == (half >> shift) & 0xff,
        ;
        bytes.push(masked as u8);
        at = at + 1;
    }
}

/// Lays a state diff out for publication: every word as its 32 big-endian bytes, in order.
pub fn state_diff_to_bytes(state_diff: &Vec<Felt>) -> (bytes: Vec<u8>)
    ensures
        bytes@ == diff_bytes(state_diff@),
{
    let mut bytes: Vec<u8> = Vec::new();
    let mut i: usize = 0;
    while i < state_diff.len()
        invariant
            i <= state_diff@.len(),
            bytes@.len() == 32 * i,
            forall|k: int|
                0 <= k < 32 * i ==> bytes@[k] == word_byte(state_diff@[k / 32], k % 32),
        decreases state_diff@.len() - i,
    {
        let word = state_diff[i];
        let ghost start = bytes@;
        push_half(&mut bytes, word.hi);
        let ghost middle = bytes@;
        push_half(&mut bytes, word.lo);
        proof {
            assert forall|k: int| 0 <= k < 32 * (i + 1) implies bytes@[k] == word_byte(
                state_diff@[k / 32],
                k % 32,
            ) by {
                if k < 32 * i {
                    assert(bytes@[k] == middle[k]);
                    assert(middle[k] == start[k]);
                } else if k < 32 * i + 16 {
                    let j = k - 32 * i;
                    assert(middle[start.len() + j] == half_byte(word.hi, j));
                    assert(bytes@[k] == middle[k]);
                    assert(k / 32 == i && k % 32 == j);
                } else {
                    let j = k - 32 * i - 16;
                    assert(bytes@[middle.len() + j] == half_byte(word.lo, j));
                    assert(k / 32 == i && k % 32 == j + 16);
                }
            }
        }
        i = i + 1;
    }
    proof {
        assert(bytes@ =~= diff_bytes(state_diff@));
    }
    bytes
}

} // verus!
