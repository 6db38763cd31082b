//! The pixel interleaver: merges two equal-length RGBA buffers into one by
//! taking whole 4-byte pixel groups alternately from each source, starting
//! with the first.

use vstd::assert_seqs_equal;
use vstd::prelude::*;

verus! {

/// The byte at offset `i` of the interleaved buffer: it comes from `a` when
/// its pixel group (the group of 4 starting at a multiple of 8) is
/// even-indexed, and from `b` otherwise.
pub open spec fn interleaved_byte(a: Seq<u8>, b: Seq<u8>, i: int) -> u8 {
    if (i / 4) % 2 == 0 {
        a[i]
    } else {
        b[i]
    }
}

/// The interleaving of two equal-length buffers: as long as either input,
/// with every byte drawn from `a` or `b` as `interleaved_byte` says.
pub open spec fn interleaved(a: Seq<u8>, b: Seq<u8>) -> Seq<u8> {
    Seq::new(a.len(), |i: int| interleaved_byte(a, b, i))
}

/// A byte offset inside a pixel group shares the group of the group's first
/// byte, and a group starts at a multiple of 8 exactly when its index is
/// even.
proof fn lemma_group_of_offset(start: int, i: int)
    requires
        start % 4 == 0,
        start <= i < start + 4,
    ensures
        i / 4 == start / 4,
        (start % 8 == 0) <==> ((start / 4) % 2 == 0),
{
    assert(i / 4 == start / 4 && ((start % 8 == 0) <==> ((start / 4) % 2 == 0)))
        by (nonlinear_arith)
        requires
            start % 4 == 0,
            start <= i < start + 4,
    ;
}

/// Copies the bytes of `vector` from offset `start` through offset `end`,
/// both included, into a fresh buffer; the offsets must lie inside the
/// vector.
pub fn set_rgba(vector: &Vec<u8>, start: usize, end: usize) -> (rgba: Vec<u8>)
    requires
        start <= end < vector@.len(),
    ensures
        rgba@ == vector@.subrange(start as int, end as int + 1),
{
    let vec_len: usize = vector.len();
    let mut rgba: Vec<u8> = Vec::new();
    let mut index: usize = start;
    while index <= end
        invariant
            start <= index <= end + 1,
            end < vec_len == vector@.len(),
            rgba@ == vector@.subrange(start as int, index as int),
        decreases end + 1 - index,
    {
        rgba.push(vector[index]);
        assert(rgba@ =~= vector@.subrange(start as int, index as int + 1));
        index += 1;
    }
    rgba
}

/// Interleaves two equal-length RGBA buffers pixel group by pixel group:
/// groups starting at offsets 0, 8, 16, ... come from `vec_1`, groups
/// starting at offsets 4, 12, 20, ... from `vec_2`. The inputs must consist
/// of whole 4-byte pixels.
pub fn alternate_pixels(vec_1: Vec<u8>, vec_2: Vec<u8>) -> (combined: Vec<u8>)
    requires
        vec_1@.len() == vec_2@.len(),
        vec_1@.len() % 4 == 0,
    ensures
        combined@ == interleaved(vec_1@, vec_2@),
{
    let mut combined: Vec<u8> = Vec::new();
    let mut index: usize = 0;
    while index < vec_1.len()
        invariant
            vec_1@.len() == vec_2@.len(),
            vec_1@.len() % 4 == 0,
            index as int % 4 == 0,
            index <= vec_1@.len(),
            combined@.len() == index,
            forall|i: int| 0 <= i < index ==> combined@[i] == interleaved_byte(vec_1@, vec_2@, i),
        decreases vec_1@.len() - index,
    {
        assert(index + 4 <= vec_1@.len()) by (nonlinear_arith)
            requires
                index as int % 4 == 0,
                vec_1@.len() % 4 == 0,
                index < vec_1@.len(),
        ;
        let group: Vec<u8> = if index % 8 == 0 {
            set_rgba(&vec_1, index, index + 3)
        } else {
            set_rgba(&vec_2, index, index + 3)
        };
        let mut offset: usize = 0;
        while offset < 4
            invariant
                offset <= 4,
                index as int % 4 == 0,
                index + 4 <= vec_1@.len(),
                vec_1@.len() == vec_2@.len(),
                group@.len() == 4,
                (index as int % 8 == 0) ==> group@ == vec_1@.subrange(index as int, index as int + 4),
                (index as int % 8 != 0) ==> group@ == vec_2@.subrange(index as int, index as int + 4),
                combined@.len() == index + offset,
                forall|i: int| 0 <= i < index + offset ==> combined@[i] == interleaved_byte(vec_1@, vec_2@, i),
            decreases 4 - offset,
        {
            combined.push(group[offset]);
            proof {
                lemma_group_of_offset(index as int, index as int + offset as int);
            }
            offset += 1;
        }
        index += 4;
    }
    assert(combined@ =~= interleaved(vec_1@, vec_2@));
    combined
}

/// Even-indexed pixel groups of the interleaved buffer are the first
/// buffer's groups, and odd-indexed groups the second buffer's: the group at
/// pixel index `p` spans byte offsets `4*p` through `4*p + 3`.
pub proof fn lemma_interleaved_groups(a: Seq<u8>, b: Seq<u8>, p: int)
    requires
        a.len() == b.len(),
        0 <= p,
        4 * p + 4 <= a.len(),
    ensures
        interleaved(a, b).len() == a.len(),
        p % 2 == 0 ==> interleaved(a, b).subrange(4 * p, 4 * p + 4) == a.subrange(4 * p, 4 * p + 4),
        p % 2 != 0 ==> interleaved(a, b).subrange(4 * p, 4 * p + 4) == b.subrange(4 * p, 4 * p + 4),
{
    if p % 2 == 0 {
        assert_seqs_equal!(
            interleaved(a, b).subrange(4 * p, 4 * p + 4) == a.subrange(4 * p, 4 * p + 4),
            i => {
                lemma_byte_group_index(p, 4 * p + i);
            }
        );
    } else {
        assert_seqs_equal!(
            interleaved(a, b).subrange(4 * p, 4 * p + 4) == b.subrange(4 * p, 4 * p + 4),
            i => {
                lemma_byte_group_index(p, 4 * p + i);
            }
        );
    }
}

/// A byte offset lying inside the pixel group of index `p` divides down to
/// that group index.
proof fn lemma_byte_group_index(p: int, i: int)
    requires
        4 * p <= i < 4 * p + 4,
    ensures
        i / 4 == p,
{
    assert(i / 4 == p) by (nonlinear_arith)
        requires
            4 * p <= i < 4 * p + 4,
    ;
}

/// Interleaving is non-commutative: swapping the two inputs changes the
/// result whenever the inputs differ at all.
pub proof fn lemma_interleave_non_commutative(a: Seq<u8>, b: Seq<u8>)
    requires
        a.len() == b.len(),
        a != b,
    ensures
        interleaved(a, b) != interleaved(b, a),
{
    assert(!(a =~= b));
    let i = choose|i: int| 0 <= i < a.len() && a[i] != b[i];
    assert(0 <= i < a.len() && a[i] != b[i]);
    assert(interleaved(a, b)[i] != interleaved(b, a)[i]);
}

} // verus!
