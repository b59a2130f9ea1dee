//! Value mappers: pure conversions from a UI-scale integer (1..=100) to the
//! hardware scales (thresholding level 2..=15, redraw delay 10..=300).
//!
//! Both mappers compute `round(lo + (v - 1) / 99 * span)` exactly over the
//! integers: `round(n / 99) == (2 * n + 99) / 198` under floor division, and
//! `2 * n + 99` is odd, so no tie ever arises. Out-of-range input is clamped
//! into 1..=100 first (the documented policy; both mappers are total).

use vstd::prelude::*;
use vstd::arithmetic::div_mod::lemma_div_is_ordered;

verus! {

/// A UI-scale value clamped into its documented range 1..=100.
pub open spec fn clamp_ui(v: int) -> int {
    if v < 1 {
        1
    } else if v > 100 {
        100
    } else {
        v
    }
}

/// The hardware thresholding level for UI value `v`: `round(2 + (v-1)/99 * 13)`.
pub open spec fn threshold_map(v: int) -> int {
    2 + (26 * (v - 1) + 99) / 198
}

/// The hardware redraw delay for UI value `v`: `round(10 + (v-1)/99 * 290)`.
pub open spec fn delay_map(v: int) -> int {
    10 + (580 * (v - 1) + 99) / 198
}

/// Maps a UI-scale value to a hardware thresholding level in 2..=15,
/// clamping the input into 1..=100 first.
pub fn threshold_from_ui(v: u8) -> (r: u8)
    ensures
        r == threshold_map(clamp_ui(v as int)),
        2 <= r <= 15,
{
    let c: u32 = if v < 1 {
        1
    } else if v > 100 {
        100
    } else {
        v as u32
    };
    let num: u32 = 26 * (c - 1) + 99;
    proof {
        lemma_div_is_ordered(99, num as int, 198);
        lemma_div_is_ordered(num as int, 2673, 198);
    }
    let r: u32 = 2 + num / 198;
    r as u8
}

/// Maps a UI-scale value to a hardware redraw delay in 10..=300,
/// clamping the input into 1..=100 first.
pub fn redraw_delay_from_ui(v: u16) -> (r: u16)
    ensures
        r == delay_map(clamp_ui(v as int)),
        10 <= r <= 300,
{
    let c: u32 = if v < 1 {
        1
    } else if v > 100 {
        100
    } else {
        v as u32
    };
    let num: u32 = 580 * (c - 1) + 99;
    proof {
        lemma_div_is_ordered(99, num as int, 198);
        lemma_div_is_ordered(num as int, 57519, 198);
    }
    let r: u32 = 10 + num / 198;
    r as u16
}

/// For all UI values in 1..=100 the thresholding mapper stays in 2..=15 and
/// is monotonic non-decreasing.
pub proof fn lemma_threshold_map_bounds_monotonic(a: int, b: int)
    requires
        1 <= a <= b <= 100,
    ensures
        2 <= threshold_map(a) <= threshold_map(b) <= 15,
{
    lemma_div_is_ordered(99, 26 * (a - 1) + 99, 198);
    lemma_div_is_ordered(26 * (a - 1) + 99, 26 * (b - 1) + 99, 198);
    lemma_div_is_ordered(26 * (b - 1) + 99, 2673, 198);
}

/// The thresholding mapper is surjective onto 2..=15: every hardware level
/// is reached by some UI value.
pub proof fn lemma_threshold_map_surjective(t: int)
    requires
        2 <= t <= 15,
    ensures
        exists|v: int| 1 <= v <= 100 && threshold_map(v) == t,
{
    if t == 2 {
        assert(threshold_map(1) == 2);
    } else if t == 3 {
        assert(threshold_map(5) == 3);
    } else if t == 4 {
        assert(threshold_map(13) == 4);
    } else if t == 5 {
        assert(threshold_map(21) == 5);
    } else if t == 6 {
        assert(threshold_map(28) == 6);
    } else if t == 7 {
        assert(threshold_map(36) == 7);
    } else if t == 8 {
        assert(threshold_map(43) == 8);
    } else if t == 9 {
        assert(threshold_map(51) == 9);
    } else if t == 10 {
        assert(threshold_map(59) == 10);
    } else if t == 11 {
        assert(threshold_map(66) == 11);
    } else if t == 12 {
        assert(threshold_map(74) == 12);
    } else if t == 13 {
        assert(threshold_map(81) == 13);
    } else if t == 14 {
        assert(threshold_map(89) == 14);
    } else {
        assert(threshold_map(97) == 15);
    }
}

/// For all UI values in 1..=100 the redraw-delay mapper stays in 10..=300 and
/// is monotonic non-decreasing.
pub proof fn lemma_delay_map_bounds_monotonic(a: int, b: int)
    requires
        1 <= a <= b <= 100,
    ensures
        10 <= delay_map(a) <= delay_map(b) <= 300,
{
    lemma_div_is_ordered(99, 580 * (a - 1) + 99, 198);
    lemma_div_is_ordered(580 * (a - 1) + 99, 580 * (b - 1) + 99, 198);
    lemma_div_is_ordered(580 * (b - 1) + 99, 57519, 198);
}

} // verus!
