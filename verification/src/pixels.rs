//! In-place conversion of captured pixels from BGRA to RGBA channel order.

use rayon::iter::ParallelIterator;
use rayon::slice::ParallelSliceMut;
use vstd::prelude::*;

verus! {

/// Buffers longer than this many bytes are converted in parallel; shorter
/// ones are not worth the dispatch.
pub const PARALLEL_THRESHOLD: usize = 500_000;

/// Whether position `i` of a buffer of `len` bytes lies in a complete
/// four-byte pixel group.
pub open spec fn in_complete_pixel(len: nat, i: int) -> bool {
    0 <= i && (i / 4) * 4 + 4 <= len
}

/// The byte found at position `i` once the blue and red channels of every
/// complete pixel group have traded places. Green, alpha and the bytes of an
/// incomplete trailing group stay where they are.
pub open spec fn swapped_byte(s: Seq<u8>, i: int) -> u8 {
    if in_complete_pixel(s.len(), i) && i % 4 == 0 {
        s[i + 2]
    } else if in_complete_pixel(s.len(), i) && i % 4 == 2 {
        s[i - 2]
    } else {
        s[i]
    }
}

/// The buffer `s` with offsets 0 and 2 of every complete pixel group swapped.
pub open spec fn rgba_from_bgra(s: Seq<u8>) -> Seq<u8> {
    Seq::new(s.len(), |i: int| swapped_byte(s, i))
}

/// Swapping the channels twice gives the buffer back: the conversion is its
/// own inverse.
pub proof fn normalize_twice_is_identity(s: Seq<u8>)
    ensures
        rgba_from_bgra(rgba_from_bgra(s)) == s,
{
    let once = rgba_from_bgra(s);
    let twice = rgba_from_bgra(once);
    assert forall|i: int| 0 <= i < s.len() implies twice[i] == s[i] by {
        if in_complete_pixel(s.len(), i) {
            if i % 4 == 0 {
                assert(in_complete_pixel(s.len(), i + 2));
                assert((i + 2) % 4 == 2);
            } else if i % 4 == 2 {
                assert(in_complete_pixel(s.len(), i - 2));
                assert((i - 2) % 4 == 0);
            }
        }
    }
    assert(twice =~= s);
}

/// The conversion keeps the length and every green and alpha byte.
pub proof fn normalize_keeps_green_and_alpha(s: Seq<u8>, i: int)
    requires
        0 <= i < s.len(),
        i % 4 == 1 || i % 4 == 3,
    ensures
        rgba_from_bgra(s).len() == s.len(),
        rgba_from_bgra(s)[i] == s[i],
{
}

/// Swaps blue and red in one pixel group. A group of fewer than four bytes is
/// the incomplete tail of a buffer and is left alone.
fn swap_red_blue(pixel: &mut [u8])
    requires
        old(pixel)@.len() <= 4,
    ensures
        final(pixel)@ == rgba_from_bgra(old(pixel)@),
{
    if pixel.len() == 4 {
        let blue: u8 = pixel[0];
        let red: u8 = pixel[2];
        pixel[0] = red;
        pixel[2] = blue;
    }
    assert(pixel@ =~= rgba_from_bgra(old(pixel)@));
}

/// Converts the buffer one pixel group after the other.
pub fn normalize_sequential(buffer: &mut Vec<u8>)
    ensures
        final(buffer)@ == rgba_from_bgra(old(buffer)@),
{
    let ghost before = buffer@;
    let len: usize = buffer.len();
    let mut i: usize = 0;
    while len - i >= 4
        invariant
            i <= len,
            i % 4 == 0,
            len == before.len(),
            buffer@.len() == before.len(),
            forall|j: int| 0 <= j < i ==> buffer@[j] == swapped_byte(before, j),
            forall|j: int| i <= j < len ==> buffer@[j] == before[j],
        decreases len - i,
    {
        let blue: u8 = buffer[i];
        let red: u8 = buffer[i + 2];
        buffer[i] = red;
        buffer[i + 2] = blue;
        proof {
            assert forall|j: int| i <= j < i + 4 implies buffer@[j] == swapped_byte(before, j) by {
                assert(j / 4 == i / 4);
            }
        }
        i = i + 4;
    }
    proof {
        assert forall|j: int| i <= j < len implies buffer@[j] == swapped_byte(before, j) by {
            assert(j / 4 == i / 4);
        }
        assert(buffer@ =~= rgba_from_bgra(before));
    }
}

/// Hands the buffer to rayon's `par_chunks_mut(4)` and `for_each`, which pass
/// every chunk of four bytes, and a shorter last one if there is one, to
/// `swap_red_blue` exactly once. The chunks do not overlap, so the outcome is
/// that of converting them in order.
#[verifier::external_body]
fn normalize_in_parallel(buffer: &mut Vec<u8>)
    ensures
        final(buffer)@ == rgba_from_bgra(old(buffer)@),
{
    buffer.par_chunks_mut(4).for_each(|pixel| swap_red_blue(pixel));
}

/// Converts a captured buffer from BGRA to RGBA in place: in every four-byte
/// pixel group the bytes at offsets 0 and 2 trade places. Large buffers are
/// split across the available cores, small ones are walked in order; the
/// bytes that come out are the same either way.
pub fn normalize(buffer: &mut Vec<u8>)
    ensures
        final(buffer)@ == rgba_from_bgra(old(buffer)@),
{
    if buffer.len() > PARALLEL_THRESHOLD {
        normalize_in_parallel(buffer);
    } else {
        normalize_sequential(buffer);
    }
}

} // verus!
