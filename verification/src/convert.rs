//! Channel-order correction. The capture source stores pixels with the
//! blue and red channels swapped relative to what the texture upload
//! expects; correcting a frame swaps the first and third byte of every
//! pixel. The running pipeline performs this swap in the fragment shading
//! stage for speed; this module states the same per-pixel permutation over
//! byte buffers, so the swizzle logic can be shown correct in isolation.

use vstd::prelude::*;
use crate::frame::BYTES_PER_PIXEL;

verus! {

/// The byte at index `i` after the channel swap: within each 4-byte pixel
/// the first and third bytes trade places, the rest stay.
pub open spec fn swapped_byte(s: Seq<u8>, i: int) -> u8 {
    if i % 4 == 0 && i + 2 < s.len() {
        s[i + 2]
    } else if i % 4 == 2 && i - 2 >= 0 {
        s[i - 2]
    } else {
        s[i]
    }
}

/// A byte buffer with the channel order of every pixel corrected.
pub open spec fn swapped(s: Seq<u8>) -> Seq<u8> {
    Seq::new(s.len(), |i: int| swapped_byte(s, i))
}

/// Correcting the channel order twice restores the original byte layout.
pub proof fn lemma_swap_round_trip(s: Seq<u8>)
    requires
        (s.len() as int) % (BYTES_PER_PIXEL as int) == 0,
    ensures
        swapped(swapped(s)) =~= s,
{
    let t = swapped(s);
    assert forall|i: int| 0 <= i < s.len() implies swapped(t)[i] == s[i] by {
        if i % 4 == 0 {
            assert(i + 2 < s.len());
            assert((i + 2) % 4 == 2);
        } else if i % 4 == 2 {
            assert((i - 2) % 4 == 0);
        }
    }
}

/// Correct the channel order of a raw pixel buffer on the CPU: swap the
/// first and third byte of every 4-byte pixel.
pub fn correct_channel_order(bytes: &Vec<u8>) -> (r: Vec<u8>)
    requires
        (bytes@.len() as int) % (BYTES_PER_PIXEL as int) == 0,
    ensures
        r@ =~= swapped(bytes@),
{
    let n = bytes.len();
    let mut out: Vec<u8> = Vec::new();
    let mut i: usize = 0;
    while i < n
        invariant
            0 <= i <= n,
            n == bytes@.len(),
            n % 4 == 0,
            out@ =~= swapped(bytes@).subrange(0, i as int),
        decreases n - i,
    {
        let b: u8 = if i % 4 == 0 {
            proof {
                assert(i + 2 < n);
            }
            bytes[i + 2]
        } else if i % 4 == 2 {
            bytes[i - 2]
        } else {
            bytes[i]
        };
        out.push(b);
        proof {
            assert(out@ =~= swapped(bytes@).subrange(0, i as int + 1));
        }
        i = i + 1;
    }
    proof {
        assert(swapped(bytes@).subrange(0, n as int) =~= swapped(bytes@));
    }
    out
}

} // verus!
