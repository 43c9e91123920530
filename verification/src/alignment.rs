//! Rounding byte offsets and sizes to alignment boundaries.

use vstd::prelude::*;
use vstd::arithmetic::div_mod::{
    lemma_mod_add_multiples_vanish, lemma_small_mod, lemma_sub_mod_noop_right,
};

verus! {

/// The smallest multiple of `align` that is at least `value`.
pub open spec fn spec_align_up(value: u64, align: u64) -> int {
    if value % align == 0 {
        value as int
    } else {
        value + (align - value % align)
    }
}

/// The largest multiple of `align` that is at most `value`.
pub open spec fn spec_align_down(value: u64, align: u64) -> int {
    value - value % align
}

/// Rounds `value` up to the next multiple of `align`.
///
/// The result is a multiple of `align`, is at least `value`, and exceeds
/// `value` by less than `align`; a value already aligned comes back
/// unchanged. Values within `align` of the numeric ceiling are excluded:
/// rounding them up would wrap.
pub fn align_up(value: u64, align: u64) -> (r: u64)
    requires
        align > 0,
        value <= u64::MAX - align,
    ensures
        r == spec_align_up(value, align),
        r % align == 0,
        r >= value,
        r - value < align,
        value % align == 0 ==> r == value,
{
    proof {
        lemma_align_up_properties(value, align);
    }
    if value % align == 0 {
        value
    } else {
        value + (align - (value % align))
    }
}

/// Rounds `value` down to the previous multiple of `align`.
///
/// The result is a multiple of `align`, is at most `value`, and falls short
/// of `value` by less than `align`; a value already aligned comes back
/// unchanged.
pub fn align_down(value: u64, align: u64) -> (r: u64)
    requires
        align > 0,
    ensures
        r == spec_align_down(value, align),
        r % align == 0,
        r <= value,
        value - r < align,
        value % align == 0 ==> r == value,
{
    proof {
        lemma_align_down_properties(value, align);
    }
    if value % align == 0 {
        value
    } else {
        value - (value % align)
    }
}

/// Rounding up yields a multiple of the alignment, never smaller than the
/// value and less than one alignment unit above it; an aligned value is a
/// fixed point.
pub proof fn lemma_align_up_properties(value: u64, align: u64)
    requires
        align > 0,
        value <= u64::MAX - align,
    ensures
        spec_align_up(value, align) % (align as int) == 0,
        spec_align_up(value, align) >= value,
        spec_align_up(value, align) - value < align,
        spec_align_up(value, align) <= u64::MAX,
        value % align == 0 ==> spec_align_up(value, align) == value,
{
    let rem = (value % align) as int;
    lemma_small_mod(0nat, align as nat);
    lemma_sub_mod_noop_right(value as int, value as int, align as int);
    if rem != 0 {
        lemma_mod_add_multiples_vanish(value - rem, align as int);
    }
}

/// Rounding down yields a multiple of the alignment, never larger than the
/// value and less than one alignment unit below it; an aligned value is a
/// fixed point.
pub proof fn lemma_align_down_properties(value: u64, align: u64)
    requires
        align > 0,
    ensures
        spec_align_down(value, align) % (align as int) == 0,
        spec_align_down(value, align) <= value,
        value - spec_align_down(value, align) < align,
        spec_align_down(value, align) >= 0,
        value % align == 0 ==> spec_align_down(value, align) == value,
{
    lemma_small_mod(0nat, align as nat);
    lemma_sub_mod_noop_right(value as int, value as int, align as int);
    if value < align {
        lemma_small_mod(value as nat, align as nat);
    }
}

} // verus!
