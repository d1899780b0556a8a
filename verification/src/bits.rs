//! Bit-level view of the allocator bitmaps: 1024 granule slots spread over
//! 32 words of 32 bits, together with the trusted wrappers around the
//! `bit_field` crate through which the executable code touches single bits.

use vstd::prelude::*;

verus! {

/// Whether bit `i` of word `w` is set.
pub open spec fn bit_set(w: u32, i: u32) -> bool {
    w & (1u32 << i) != 0
}

/// Whether granule slot `i` is marked used in bitmap `bm`
/// (32 words of 32 bits each; bit `i % 32` of word `i / 32`).
pub open spec fn bm_get(bm: Seq<u32>, i: int) -> bool {
    bit_set(bm[i / 32], (i % 32) as u32)
}

/// Number of clear (free) slots among `0 <= i < n`.
pub open spec fn count_free(bm: Seq<u32>, n: int) -> nat
    decreases n,
{
    if n <= 0 {
        0
    } else {
        count_free(bm, n - 1) + if bm_get(bm, n - 1) {
            0nat
        } else {
            1nat
        }
    }
}

/// Relies on bit_field's `BitField::get_bit` for `u32`: returns whether
/// `w & (1 << bit)` is nonzero; panics only when `bit >= 32`.
#[verifier::external_body]
pub(crate) fn word_get_bit(w: u32, bit: usize) -> (r: bool)
    requires
        bit < 32,
    ensures
        r == bit_set(w, bit as u32),
{
    bit_field::BitField::get_bit(&w, bit)
}

/// Relies on bit_field's `BitField::set_bit` for `u32`: ors in `1 << bit`
/// when `value` is true, ands with `!(1 << bit)` otherwise; panics only
/// when `bit >= 32`.
#[verifier::external_body]
pub(crate) fn word_set_bit(w: u32, bit: usize, value: bool) -> (r: u32)
    requires
        bit < 32,
    ensures
        r == if value {
            w | (1u32 << bit as u32)
        } else {
            w & !(1u32 << bit as u32)
        },
{
    let mut w = w;
    bit_field::BitField::set_bit(&mut w, bit, value);
    w
}

/// Setting or clearing bit `b` of a word changes exactly that bit, and
/// writing a bit the value it already has leaves the word unchanged.
pub proof fn lemma_set_bit_effect(w: u32, b: u32, j: u32)
    by (bit_vector)
    requires
        b < 32,
        j < 32,
    ensures
        bit_set(w | (1u32 << b), j) == (j == b || bit_set(w, j)),
        bit_set(w & !(1u32 << b), j) == (j != b && bit_set(w, j)),
        !bit_set(w, b) ==> w & !(1u32 << b) == w,
        bit_set(w, b) ==> w | (1u32 << b) == w,
{
}

/// Every bit of an all-ones word is set.
pub proof fn lemma_full_word(w: u32, j: u32)
    by (bit_vector)
    requires
        j < 32,
    ensures
        w == 0xffffffffu32 ==> bit_set(w, j),
{
}

/// No bit of the zero word is set.
pub proof fn lemma_zero_word(j: u32)
    by (bit_vector)
    requires
        j < 32,
    ensures
        !bit_set(0u32, j),
{
}

/// There are at most `n` free slots among the first `n`.
pub proof fn lemma_count_free_le(bm: Seq<u32>, n: int)
    requires
        0 <= n,
    ensures
        count_free(bm, n) <= n,
    decreases n,
{
    if n > 0 {
        lemma_count_free_le(bm, n - 1);
    }
}

/// When every free slot lies in `[lo, hi)`, the free count is bounded by
/// the size of that window.
pub proof fn lemma_count_free_in_range(bm: Seq<u32>, lo: int, hi: int, n: int)
    requires
        0 <= lo <= hi,
        0 <= n <= 1024,
        forall|i: int| 0 <= i < 1024 && !bm_get(bm, i) ==> lo <= i < hi,
    ensures
        count_free(bm, n) <= if n <= lo {
            0int
        } else if n <= hi {
            n - lo
        } else {
            hi - lo
        },
    decreases n,
{
    if n > 0 {
        lemma_count_free_in_range(bm, lo, hi, n - 1);
    }
}

/// Reads slot `i` of a 32-word bitmap.
pub(crate) fn bm_read(bm: &Vec<u32>, i: u32) -> (r: bool)
    requires
        bm@.len() == 32,
        i < 1024,
    ensures
        r == bm_get(bm@, i as int),
{
    let w = bm[(i / 32) as usize];
    word_get_bit(w, (i % 32) as usize)
}

/// Writes slot `i` of a 32-word bitmap; all other slots keep their value,
/// and writing a slot the value it already has leaves the words untouched.
pub(crate) fn bm_write(bm: &mut Vec<u32>, i: u32, value: bool)
    requires
        old(bm)@.len() == 32,
        i < 1024,
    ensures
        final(bm)@.len() == 32,
        forall|j: int|
            0 <= j < 1024 ==> bm_get(final(bm)@, j) == (if j == i as int {
                value
            } else {
                bm_get(old(bm)@, j)
            }),
        bm_get(old(bm)@, i as int) == value ==> final(bm)@ == old(bm)@,
{
    let idx = (i / 32) as usize;
    let w = bm[idx];
    let w2 = word_set_bit(w, (i % 32) as usize, value);
    bm.set(idx, w2);
    proof {
        let iw = i as int / 32;
        let ib = (i as int % 32) as u32;
        assert forall|j: int| 0 <= j < 1024 implies bm_get(bm@, j) == (if j == i as int {
            value
        } else {
            bm_get(old(bm)@, j)
        }) by {
            let jw = j / 32;
            let jb = (j % 32) as u32;
            if jw == iw {
                lemma_set_bit_effect(w, ib, jb);
                if j != i as int {
                    vstd::arithmetic::div_mod::lemma_fundamental_div_mod(j, 32);
                    vstd::arithmetic::div_mod::lemma_fundamental_div_mod(i as int, 32);
                }
            }
        }
        if bm_get(old(bm)@, i as int) == value {
            lemma_set_bit_effect(w, ib, ib);
            assert(bm@ =~= old(bm)@);
        }
    }
}

/// Counts the free slots of the whole bitmap.
pub(crate) fn bm_count_free(bm: &Vec<u32>) -> (r: usize)
    requires
        bm@.len() == 32,
    ensures
        r == count_free(bm@, 1024),
{
    let mut count: usize = 0;
    let mut i: u32 = 0;
    while i < 1024
        invariant
            bm@.len() == 32,
            i <= 1024,
            count == count_free(bm@, i as int),
        decreases 1024 - i,
    {
        proof {
            lemma_count_free_le(bm@, i as int);
        }
        if !bm_read(bm, i) {
            count += 1;
        }
        i += 1;
    }
    count
}

} // verus!
