//! Linear rescaling of sensor readings onto display coordinates.

use vstd::prelude::*;

verus! {

/// Maps `value` linearly from `from_range` onto `to_range`:
/// the result is `to_range.0` at `from_range.0`, grows with the integer
/// slope `(to_range.1 - to_range.0) / (from_range.1 - from_range.0)`, and
/// stays within `to_range`.
pub fn map_range(value: i32, from_range: (i32, i32), to_range: (i32, i32)) -> (r: i32)
    requires
        0 <= from_range.0 < from_range.1,
        from_range.0 <= value <= from_range.1,
        0 <= to_range.0 <= to_range.1,
        (from_range.1 - from_range.0) as int * (to_range.1 - to_range.0) as int <= i32::MAX,
    ensures
        r == (value - from_range.0) * (to_range.1 - to_range.0) / (from_range.1 - from_range.0)
            + to_range.0,
        to_range.0 <= r <= to_range.1,
{
    let from_min = from_range.0;
    let from_max = from_range.1;
    let to_min = to_range.0;
    let to_max = to_range.1;

    let offset: u32 = (value - from_min) as u32;
    let span_to: u32 = (to_max - to_min) as u32;
    let span_from: u32 = (from_max - from_min) as u32;
    assert(offset as int * span_to as int <= span_from as int * span_to as int)
        by (nonlinear_arith)
        requires
            0 <= (offset as int) <= (span_from as int),
            0 <= (span_to as int),
    ;
    let scaled: u32 = offset * span_to;
    let q: u32 = scaled / span_from;
    proof {
        vstd::arithmetic::div_mod::lemma_div_is_ordered(
            scaled as int,
            span_from as int * span_to as int,
            span_from as int,
        );
        vstd::arithmetic::div_mod::lemma_div_multiples_vanish(
            span_to as int,
            span_from as int,
        );
        assert((span_from as int * span_to as int) / (span_from as int) == span_to as int);
        vstd::arithmetic::div_mod::lemma_div_pos_is_pos(scaled as int, span_from as int);
    }
    q as i32 + to_min
}

} // verus!
