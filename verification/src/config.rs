//! Configuration decoder: reads the flat UI-state snapshot (a text blob of
//! `key: value` lines) and produces a single validated hierarchical
//! [`DriverMode`](crate::mode::DriverMode).
//!
//! The flat snapshot carries boolean flags partitioned into five
//! mutually-exclusive groups (mode, dithering kind, bit depth, conversion,
//! redraw) plus the raw numeric UI values. Exactly one flag per group must be
//! true; an empty or multi-true group is reported as a structured error,
//! never silently resolved.
//!
//! Trimming of keys and values strips the ASCII whitespace characters
//! space, tab, carriage return and newline.

use vstd::prelude::*;
use vstd::string::StrSliceExecFns;

use crate::mappers::clamp_ui;
use crate::mappers::delay_map;
use crate::mappers::threshold_map;
use crate::mode::BitDepth;
use crate::mode::Conversion;
use crate::mode::Dithering;
use crate::mode::DriverMode;
use crate::mode::Redraw;
use crate::mode::RedrawOptions;
use crate::mode::ThresholdLevel;

verus! {

/// ASCII whitespace stripped when keys and values are trimmed.
pub open spec fn is_space(c: char) -> bool {
    c == ' ' || c == '\t' || c == '\r' || c == '\n'
}

/// The index of the first occurrence of `c` in `s[from..to]`, or `to`.
pub open spec fn char_index(s: Seq<char>, from: int, to: int, c: char) -> int
    decreases to - from,
{
    if from >= to {
        to
    } else if s[from] == c {
        from
    } else {
        char_index(s, from + 1, to, c)
    }
}

/// The index of the first non-whitespace character in `s[from..to]`, or `to`.
pub open spec fn skip_spaces(s: Seq<char>, from: int, to: int) -> int
    decreases to - from,
{
    if from >= to {
        to
    } else if !is_space(s[from]) {
        from
    } else {
        skip_spaces(s, from + 1, to)
    }
}

/// The index just past the last non-whitespace character in `s[from..to]`,
/// or `from` if the range is all whitespace.
pub open spec fn rskip_spaces(s: Seq<char>, from: int, to: int) -> int
    decreases to - from,
{
    if to <= from {
        from
    } else if !is_space(s[to - 1]) {
        to
    } else {
        rskip_spaces(s, from, to - 1)
    }
}

/// The characters of `s[from..to]` with surrounding whitespace stripped.
pub open spec fn trimmed_chars(s: Seq<char>, from: int, to: int) -> Seq<char> {
    let a = skip_spaces(s, from, to);
    let b = rskip_spaces(s, a, to);
    s.subrange(a, b)
}

/// The first occurrence of `c` in `s[from..to]` lies between `from` and `to`.
pub proof fn lemma_char_index_bounds(s: Seq<char>, from: int, to: int, c: char)
    requires
        from <= to,
    ensures
        from <= char_index(s, from, to, c) <= to,
    decreases to - from,
{
    if from < to && s[from] != c {
        lemma_char_index_bounds(s, from + 1, to, c);
    }
}

/// The trimmed value of the first `key: value` line whose trimmed key equals
/// `key`, scanning lines from index `from`; `None` if no line matches.
pub open spec fn lookup_from(state: Seq<char>, key: Seq<char>, from: int) -> Option<Seq<char>>
    decreases state.len() + 1 - from,
    via lookup_from_decreases
{
    if from >= state.len() {
        None
    } else {
        let le = char_index(state, from, state.len() as int, '\n');
        let ci = char_index(state, from, le, ':');
        if ci < le && trimmed_chars(state, from, ci) == key {
            Some(trimmed_chars(state, ci + 1, le))
        } else {
            lookup_from(state, key, le + 1)
        }
    }
}

#[via_fn]
proof fn lookup_from_decreases(state: Seq<char>, key: Seq<char>, from: int) {
    if from < state.len() {
        lemma_char_index_bounds(state, from, state.len() as int, '\n');
    }
}

/// The boolean a `key: value` line denotes: true exactly when the first line
/// with a matching key carries the trimmed value `true`; false if no line
/// matches.
pub open spec fn bool_value(state: Seq<char>, key: Seq<char>) -> bool {
    match lookup_from(state, key, 0) {
        Some(v) => v == seq!['t', 'r', 'u', 'e'],
        None => false,
    }
}

/// Whether `c` is a decimal digit.
pub open spec fn is_digit(c: char) -> bool {
    48 <= c as u32 <= 57
}

/// Whether every character of `s` is a decimal digit.
pub open spec fn all_digits(s: Seq<char>) -> bool {
    forall|i: int| 0 <= i < s.len() ==> is_digit(s[i])
}

/// The numeric value of a digit string.
pub open spec fn digits_value(s: Seq<char>) -> int
    decreases s.len(),
{
    if s.len() == 0 {
        0
    } else {
        digits_value(s.drop_last()) * 10 + (s.last() as u32 - 48)
    }
}

/// The digit part of a decimal token: an optional leading `+` is skipped.
pub open spec fn dec_digits(s: Seq<char>) -> Seq<char> {
    if s.len() > 0 && s[0] == '+' {
        s.subrange(1, s.len() as int)
    } else {
        s
    }
}

/// Whether `s` is a well-formed unsigned decimal token.
pub open spec fn dec_ok(s: Seq<char>) -> bool {
    dec_digits(s).len() > 0 && all_digits(dec_digits(s))
}

/// The value of a well-formed unsigned decimal token.
pub open spec fn dec_val(s: Seq<char>) -> int {
    digits_value(dec_digits(s))
}

/// The number a `key: value` line denotes, bounded by `max`: the value of the
/// first line whose trimmed key equals `key` and whose trimmed value is a
/// well-formed decimal no larger than `max`; `default` if no line qualifies.
/// A matching line whose value fails to parse is skipped, as later lines may
/// still qualify.
pub open spec fn num_lookup(state: Seq<char>, key: Seq<char>, from: int, default: int, max: int) -> int
    decreases state.len() + 1 - from,
    via num_lookup_decreases
{
    if from >= state.len() {
        default
    } else {
        let le = char_index(state, from, state.len() as int, '\n');
        let ci = char_index(state, from, le, ':');
        if ci < le && trimmed_chars(state, from, ci) == key && dec_ok(
            trimmed_chars(state, ci + 1, le),
        ) && dec_val(trimmed_chars(state, ci + 1, le)) <= max {
            dec_val(trimmed_chars(state, ci + 1, le))
        } else {
            num_lookup(state, key, le + 1, default, max)
        }
    }
}

#[via_fn]
proof fn num_lookup_decreases(state: Seq<char>, key: Seq<char>, from: int, default: int, max: int) {
    if from < state.len() {
        lemma_char_index_bounds(state, from, state.len() as int, '\n');
    }
}

proof fn lemma_char_index_at(s: Seq<char>, from: int, to: int, c: char, i: int)
    requires
        0 <= from <= i <= to <= s.len(),
        forall|j: int| from <= j < i ==> s[j] != c,
        i == to || s[i] == c,
    ensures
        char_index(s, from, to, c) == i,
    decreases i - from,
{
    if from < i {
        lemma_char_index_at(s, from + 1, to, c, i);
    }
}

proof fn lemma_skip_spaces_at(s: Seq<char>, from: int, to: int, i: int)
    requires
        0 <= from <= i <= to <= s.len(),
        forall|j: int| from <= j < i ==> is_space(s[j]),
        i == to || !is_space(s[i]),
    ensures
        skip_spaces(s, from, to) == i,
    decreases i - from,
{
    if from < i {
        lemma_skip_spaces_at(s, from + 1, to, i);
    }
}

proof fn lemma_rskip_spaces_at(s: Seq<char>, from: int, to: int, b: int)
    requires
        0 <= from <= b <= to <= s.len(),
        forall|j: int| b <= j < to ==> is_space(s[j]),
        b == from || !is_space(s[b - 1]),
    ensures
        rskip_spaces(s, from, to) == b,
    decreases to - b,
{
    if b < to {
        lemma_rskip_spaces_at(s, from, to - 1, b);
    }
}

proof fn lemma_digits_value_nonneg(s: Seq<char>)
    requires
        all_digits(s),
    ensures
        digits_value(s) >= 0,
    decreases s.len(),
{
    if s.len() > 0 {
        assert(all_digits(s.drop_last()));
        lemma_digits_value_nonneg(s.drop_last());
    }
}

proof fn lemma_digits_value_prefix(s: Seq<char>, k: int)
    requires
        all_digits(s),
        0 <= k <= s.len(),
    ensures
        digits_value(s.subrange(0, k)) <= digits_value(s),
    decreases s.len(),
{
    if k == s.len() {
        assert(s.subrange(0, k) =~= s);
    } else {
        assert(all_digits(s.drop_last()));
        assert(s.subrange(0, k) =~= s.drop_last().subrange(0, k));
        lemma_digits_value_prefix(s.drop_last(), k);
        lemma_digits_value_nonneg(s.drop_last());
        assert(is_digit(s.last()));
        assert(digits_value(s) >= digits_value(s.drop_last()));
    }
}

/// Returns the index of the first occurrence of `c` in `s[from..to]`, or `to`.
fn find_char(s: &str, from: usize, to: usize, c: char) -> (i: usize)
    requires
        from <= to <= s@.len(),
    ensures
        from <= i <= to,
        i == char_index(s@, from as int, to as int, c),
{
    let mut i = from;
    while i < to
        invariant
            from <= i <= to <= s@.len(),
            forall|j: int| from <= j < i ==> s@[j] != c,
        decreases to - i,
    {
        if s.get_char(i) == c {
            proof {
                lemma_char_index_at(s@, from as int, to as int, c, i as int);
            }
            return i;
        }
        i += 1;
    }
    proof {
        lemma_char_index_at(s@, from as int, to as int, c, i as int);
    }
    i
}

/// Whether `c` is trimmed away at the ends of keys and values.
fn char_is_space(c: char) -> (r: bool)
    ensures
        r == is_space(c),
{
    c == ' ' || c == '\t' || c == '\r' || c == '\n'
}

/// Returns the bounds of `s[from..to]` with surrounding whitespace stripped.
fn trim_range(s: &str, from: usize, to: usize) -> (r: (usize, usize))
    requires
        from <= to <= s@.len(),
    ensures
        from <= r.0 <= r.1 <= to,
        r.0 == skip_spaces(s@, from as int, to as int),
        r.1 == rskip_spaces(s@, r.0 as int, to as int),
        s@.subrange(r.0 as int, r.1 as int) == trimmed_chars(s@, from as int, to as int),
{
    let mut a = from;
    while a < to && char_is_space(s.get_char(a))
        invariant
            from <= a <= to <= s@.len(),
            forall|j: int| from <= j < a ==> is_space(s@[j]),
        decreases to - a,
    {
        a += 1;
    }
    proof {
        lemma_skip_spaces_at(s@, from as int, to as int, a as int);
    }
    let mut b = to;
    while b > a && char_is_space(s.get_char(b - 1))
        invariant
            a <= b <= to <= s@.len(),
            forall|j: int| b <= j < to ==> is_space(s@[j]),
        decreases b,
    {
        b -= 1;
    }
    proof {
        lemma_rskip_spaces_at(s@, a as int, to as int, b as int);
    }
    (a, b)
}

/// Whether `s[from..to]` equals the characters of `t`.
fn range_eq_str(s: &str, from: usize, to: usize, t: &str) -> (r: bool)
    requires
        from <= to <= s@.len(),
    ensures
        r == (s@.subrange(from as int, to as int) == t@),
{
    let ghost w = s@.subrange(from as int, to as int);
    let m = t.unicode_len();
    if to - from != m {
        assert(w.len() != t@.len());
        return false;
    }
    let mut j: usize = 0;
    while j < m
        invariant
            j <= m,
            m == t@.len(),
            from + m == to,
            from <= to <= s@.len(),
            w == s@.subrange(from as int, to as int),
            forall|p: int| 0 <= p < j ==> s@[from + p] == t@[p],
        decreases m - j,
    {
        if s.get_char(from + j) != t.get_char(j) {
            assert(w[j as int] != t@[j as int]);
            return false;
        }
        j += 1;
    }
    proof {
        assert(w =~= t@);
    }
    true
}

/// Parses `s[from..to]` as an unsigned decimal no larger than `max`.
fn parse_dec_range(s: &str, from: usize, to: usize, max: u32) -> (r: Option<u32>)
    requires
        from <= to <= s@.len(),
        max <= 65535,
    ensures
        ({
            let w = s@.subrange(from as int, to as int);
            &&& (dec_ok(w) && dec_val(w) <= max) ==> (0 <= dec_val(w) && r == Some(
                dec_val(w) as u32,
            ))
            &&& !(dec_ok(w) && dec_val(w) <= max) ==> r is None
        }),
{
    let ghost w = s@.subrange(from as int, to as int);
    let mut i = from;
    if i < to && s.get_char(i) == '+' {
        i += 1;
    }
    let ghost d0 = i as int;
    proof {
        assert(dec_digits(w) =~= s@.subrange(d0, to as int));
    }
    if i == to {
        assert(dec_digits(w).len() == 0);
        return None;
    }
    let ghost g = s@.subrange(d0, to as int);
    let mut acc: u32 = 0;
    while i < to
        invariant
            0 <= d0 <= i as int <= to as int,
            from <= to <= s@.len(),
            max <= 65535,
            w == s@.subrange(from as int, to as int),
            g == s@.subrange(d0, to as int),
            dec_digits(w) == g,
            acc <= max,
            acc == digits_value(s@.subrange(d0, i as int)),
            forall|j: int| d0 <= j < i as int ==> is_digit(s@[j]),
        decreases to - i,
    {
        let c = s.get_char(i);
        let u = c as u32;
        if u < 48 || u > 57 {
            proof {
                assert(g[i as int - d0] == s@[i as int]);
                assert(!is_digit(g[i as int - d0]));
                assert(!all_digits(g));
                assert(!dec_ok(w));
            }
            return None;
        }
        let d = u - 48;
        proof {
            assert(s@.subrange(d0, i as int + 1).drop_last() =~= s@.subrange(d0, i as int));
            assert(s@.subrange(d0, i as int + 1).last() == s@[i as int]);
        }
        let acc2 = acc * 10 + d;
        proof {
            assert(digits_value(s@.subrange(d0, i as int + 1)) == acc2);
        }
        if acc2 > max {
            proof {
                if all_digits(g) {
                    assert(g.subrange(0, i as int + 1 - d0) =~= s@.subrange(d0, i as int + 1));
                    lemma_digits_value_prefix(g, i as int + 1 - d0);
                    assert(digits_value(g) >= acc2);
                    assert(dec_val(w) > max);
                } else {
                    assert(!dec_ok(w));
                }
            }
            return None;
        }
        acc = acc2;
        i += 1;
    }
    proof {
        assert(s@.subrange(d0, i as int) =~= g);
        assert(all_digits(g));
    }
    Some(acc)
}

/// Looks a boolean flag up in the flat `key: value` snapshot; false when the
/// key is absent or its first occurrence does not carry `true`.
pub fn parse_bool(state: &str, key: &str) -> (r: bool)
    ensures
        r == bool_value(state@, key@),
{
    let n = state.unicode_len();
    let mut i: usize = 0;
    while i < n
        invariant
            i <= n,
            n == state@.len(),
            lookup_from(state@, key@, 0) == lookup_from(state@, key@, i as int),
        decreases n - i,
    {
        let le = find_char(state, i, n, '\n');
        let ci = find_char(state, i, le, ':');
        if ci < le {
            let kr = trim_range(state, i, ci);
            if range_eq_str(state, kr.0, kr.1, key) {
                let vr = trim_range(state, ci + 1, le);
                let r = range_eq_str(state, vr.0, vr.1, "true");
                proof {
                    reveal_strlit("true");
                    assert("true"@ =~= seq!['t', 'r', 'u', 'e']);
                }
                return r;
            }
        }
        proof {
            assert(lookup_from(state@, key@, i as int) == lookup_from(state@, key@, le + 1));
        }
        i = if le < n {
            le + 1
        } else {
            n
        };
    }
    false
}

/// Looks a number up in the flat `key: value` snapshot, falling back to
/// `default` when the key is absent or no matching line parses as a decimal
/// that fits in a `u16`.
pub fn parse_number(state: &str, key: &str, default: u16) -> (r: u16)
    ensures
        r as int == num_lookup(state@, key@, 0, default as int, 65535),
{
    let n = state.unicode_len();
    let mut i: usize = 0;
    while i < n
        invariant
            i <= n,
            n == state@.len(),
            num_lookup(state@, key@, 0, default as int, 65535) == num_lookup(
                state@,
                key@,
                i as int,
                default as int,
                65535,
            ),
        decreases n - i,
    {
        let le = find_char(state, i, n, '\n');
        let ci = find_char(state, i, le, ':');
        if ci < le {
            let kr = trim_range(state, i, ci);
            if range_eq_str(state, kr.0, kr.1, key) {
                let vr = trim_range(state, ci + 1, le);
                match parse_dec_range(state, vr.0, vr.1, 65535) {
                    Some(v) => {
                        return v as u16;
                    },
                    None => {},
                }
            }
        }
        proof {
            assert(num_lookup(state@, key@, i as int, default as int, 65535) == num_lookup(
                state@,
                key@,
                le + 1,
                default as int,
                65535,
            ));
        }
        i = if le < n {
            le + 1
        } else {
            n
        };
    }
    default
}

/// Looks a number up like [`parse_number`] with the documented default of 50.
pub fn parse_u16(state: &str, key: &str) -> (r: u16)
    ensures
        r as int == num_lookup(state@, key@, 0, 50, 65535),
{
    parse_number(state, key, 50)
}

/// The flat UI-state snapshot: boolean flags in five mutually-exclusive
/// groups plus the raw numeric UI values.
#[derive(Copy, Clone, Debug, PartialEq, Eq, Structural)]
pub struct EwwScreenConfig {
    pub window_settings: bool,
    pub driver_normal: bool,
    pub driver_fast: bool,
    pub dithering_bayer: bool,
    pub dithering_blue_noise16: bool,
    pub dithering_blue_noise32: bool,
    pub bitdepth_y1: bool,
    pub bitdepth_y2: bool,
    pub bitdepth_y4: bool,
    pub conv_tresholding: bool,
    pub thresholding_level_value: u8,
    pub conv_dithering: bool,
    pub redraw_fastdrawing: bool,
    pub redraw_level_value: u16,
    pub redraw_disablefastdrawing: bool,
}

/// One of the five mutually-exclusive flag groups of the flat snapshot.
#[derive(Copy, Clone, Debug, PartialEq, Eq, Structural)]
pub enum FlagGroup {
    Mode,
    Dithering,
    BitDepth,
    Conversion,
    Redraw,
}

/// A violated group invariant: a group with no true flag, or with several.
#[derive(Copy, Clone, Debug, PartialEq, Eq, Structural)]
pub enum DecodeError {
    EmptyGroup(FlagGroup),
    ConflictingGroup(FlagGroup),
}

/// Exactly one of two flags is set.
pub open spec fn exactly_one2(a: bool, b: bool) -> bool {
    (a && !b) || (!a && b)
}

/// Exactly one of three flags is set.
pub open spec fn exactly_one3(a: bool, b: bool, c: bool) -> bool {
    (a && !b && !c) || (!a && b && !c) || (!a && !b && c)
}

/// The error a violated two-flag group reports.
pub open spec fn group_error2(a: bool, b: bool, g: FlagGroup) -> DecodeError {
    if !a && !b {
        DecodeError::EmptyGroup(g)
    } else {
        DecodeError::ConflictingGroup(g)
    }
}

/// The error a violated three-flag group reports.
pub open spec fn group_error3(a: bool, b: bool, c: bool, g: FlagGroup) -> DecodeError {
    if !a && !b && !c {
        DecodeError::EmptyGroup(g)
    } else {
        DecodeError::ConflictingGroup(g)
    }
}

impl EwwScreenConfig {
    /// The dithering-kind group holds exactly one true flag.
    pub open spec fn dithering_group_ok(self) -> bool {
        exactly_one3(self.dithering_bayer, self.dithering_blue_noise16, self.dithering_blue_noise32)
    }

    /// The redraw group holds exactly one true flag.
    pub open spec fn redraw_group_ok(self) -> bool {
        exactly_one2(self.redraw_fastdrawing, self.redraw_disablefastdrawing)
    }

    /// The conversion group holds exactly one true flag.
    pub open spec fn conversion_group_ok(self) -> bool {
        exactly_one2(self.conv_tresholding, self.conv_dithering)
    }

    /// The bit-depth group holds exactly one true flag.
    pub open spec fn bitdepth_group_ok(self) -> bool {
        exactly_one3(self.bitdepth_y1, self.bitdepth_y2, self.bitdepth_y4)
    }

    /// The mode group holds exactly one true flag.
    pub open spec fn mode_group_ok(self) -> bool {
        exactly_one2(self.driver_normal, self.driver_fast)
    }

    /// Every flag group holds exactly one true flag.
    pub open spec fn groups_ok(self) -> bool {
        self.dithering_group_ok() && self.redraw_group_ok() && self.conversion_group_ok()
            && self.bitdepth_group_ok() && self.mode_group_ok()
    }

    /// The dithering kind the snapshot selects.
    pub open spec fn spec_dithering(self) -> Dithering {
        if self.dithering_bayer {
            Dithering::Bayer
        } else if self.dithering_blue_noise16 {
            Dithering::BlueNoise16
        } else {
            Dithering::BlueNoise32
        }
    }

    /// The redraw strategy the snapshot selects; the delay runs through the
    /// value mapper.
    pub open spec fn spec_redraw(self) -> Redraw {
        if self.redraw_fastdrawing {
            Redraw::FastDrawing(
                RedrawOptions { delay: delay_map(clamp_ui(self.redraw_level_value as int)) as u16 },
            )
        } else {
            Redraw::DisableFastDrawing
        }
    }

    /// The conversion the snapshot selects.
    pub open spec fn spec_conversion(self) -> Conversion {
        if self.conv_dithering {
            Conversion::Dithering(self.spec_dithering())
        } else {
            Conversion::Thresholding
        }
    }

    /// The bit depth the snapshot selects; the thresholding level runs
    /// through the value mapper.
    pub open spec fn spec_bitdepth(self) -> BitDepth {
        if self.bitdepth_y1 {
            BitDepth::Y1(
                self.spec_conversion(),
                ThresholdLevel::spec_from_int(
                    threshold_map(clamp_ui(self.thresholding_level_value as int)),
                ),
            )
        } else if self.bitdepth_y2 {
            BitDepth::Y2(self.spec_conversion(), self.spec_redraw())
        } else {
            BitDepth::Y4(self.spec_redraw())
        }
    }

    /// The driver mode the snapshot selects, meaningful when `groups_ok`.
    pub open spec fn spec_mode(self) -> DriverMode {
        if self.driver_fast {
            DriverMode::Fast(self.spec_dithering())
        } else {
            DriverMode::Normal(self.spec_bitdepth())
        }
    }

    /// The first violated group in the documented validation order:
    /// dithering, redraw, conversion, bit depth, mode.
    pub open spec fn first_group_error(self) -> DecodeError
        recommends
            !self.groups_ok(),
    {
        if !self.dithering_group_ok() {
            group_error3(
                self.dithering_bayer,
                self.dithering_blue_noise16,
                self.dithering_blue_noise32,
                FlagGroup::Dithering,
            )
        } else if !self.redraw_group_ok() {
            group_error2(self.redraw_fastdrawing, self.redraw_disablefastdrawing, FlagGroup::Redraw)
        } else if !self.conversion_group_ok() {
            group_error2(self.conv_tresholding, self.conv_dithering, FlagGroup::Conversion)
        } else if !self.bitdepth_group_ok() {
            group_error3(self.bitdepth_y1, self.bitdepth_y2, self.bitdepth_y4, FlagGroup::BitDepth)
        } else {
            group_error2(self.driver_normal, self.driver_fast, FlagGroup::Mode)
        }
    }

    /// Reads the flat snapshot out of the `key: value` text blob, with the
    /// documented defaults for absent or unparseable numeric fields.
    pub fn get_eww_screen_config(state: &str) -> (r: EwwScreenConfig)
        ensures
            r.window_settings == bool_value(state@, "per_window_settings"@),
            r.driver_normal == bool_value(state@, "driver_normal_mode"@),
            r.driver_fast == bool_value(state@, "driver_fast_mode"@),
            r.dithering_bayer == bool_value(state@, "dithering_bayer"@),
            r.dithering_blue_noise16 == bool_value(state@, "dithering_bluenoise16"@),
            r.dithering_blue_noise32 == bool_value(state@, "dithering_bluenoise32"@),
            r.bitdepth_y1 == bool_value(state@, "bitdepth_y1"@),
            r.bitdepth_y2 == bool_value(state@, "bitdepth_y2"@),
            r.bitdepth_y4 == bool_value(state@, "bitdepth_y4"@),
            r.conv_tresholding == bool_value(state@, "conversion_tresholding"@),
            r.thresholding_level_value as int == num_lookup(
                state@,
                "thresholding_level_value"@,
                0,
                39,
                255,
            ),
            r.conv_dithering == bool_value(state@, "conversion_dithering"@),
            r.redraw_fastdrawing == bool_value(state@, "redraw_fast_drawing"@),
            r.redraw_level_value as int == num_lookup(state@, "redraw_level_value"@, 0, 25, 65535),
            r.redraw_disablefastdrawing == bool_value(state@, "redraw_disabled"@),
    {
        EwwScreenConfig {
            window_settings: parse_bool(state, "per_window_settings"),
            driver_normal: parse_bool(state, "driver_normal_mode"),
            driver_fast: parse_bool(state, "driver_fast_mode"),
            dithering_bayer: parse_bool(state, "dithering_bayer"),
            dithering_blue_noise16: parse_bool(state, "dithering_bluenoise16"),
            dithering_blue_noise32: parse_bool(state, "dithering_bluenoise32"),
            bitdepth_y1: parse_bool(state, "bitdepth_y1"),
            bitdepth_y2: parse_bool(state, "bitdepth_y2"),
            bitdepth_y4: parse_bool(state, "bitdepth_y4"),
            conv_tresholding: parse_bool(state, "conversion_tresholding"),
            thresholding_level_value: parse_number_u8(state, "thresholding_level_value", 39),
            conv_dithering: parse_bool(state, "conversion_dithering"),
            redraw_fastdrawing: parse_bool(state, "redraw_fast_drawing"),
            redraw_level_value: parse_number(state, "redraw_level_value", 25),
            redraw_disablefastdrawing: parse_bool(state, "redraw_disabled"),
        }
    }
}

/// Decodes the flat snapshot into the hierarchical driver mode, validating
/// that each flag group holds exactly one true flag; the first violated
/// group (in the order dithering, redraw, conversion, bit depth, mode) is
/// reported as a structured error and nothing is selected in its place.
pub fn eww_screen_config_to_enum(config: &EwwScreenConfig) -> (r: Result<DriverMode, DecodeError>)
    ensures
        config.groups_ok() ==> r == Ok::<DriverMode, DecodeError>(config.spec_mode()),
        !config.groups_ok() ==> r == Err::<DriverMode, DecodeError>(config.first_group_error()),
        r matches Ok(m) ==> m.valid(),
{
    let dithering: Dithering;
    if config.dithering_bayer && !config.dithering_blue_noise16 && !config.dithering_blue_noise32 {
        dithering = Dithering::Bayer;
    } else if !config.dithering_bayer && config.dithering_blue_noise16
        && !config.dithering_blue_noise32 {
        dithering = Dithering::BlueNoise16;
    } else if !config.dithering_bayer && !config.dithering_blue_noise16
        && config.dithering_blue_noise32 {
        dithering = Dithering::BlueNoise32;
    } else if !config.dithering_bayer && !config.dithering_blue_noise16
        && !config.dithering_blue_noise32 {
        return Err(DecodeError::EmptyGroup(FlagGroup::Dithering));
    } else {
        return Err(DecodeError::ConflictingGroup(FlagGroup::Dithering));
    }
    let redraw: Redraw;
    if config.redraw_fastdrawing && !config.redraw_disablefastdrawing {
        redraw = Redraw::FastDrawing(
            RedrawOptions { delay: crate::mappers::redraw_delay_from_ui(config.redraw_level_value) },
        );
    } else if !config.redraw_fastdrawing && config.redraw_disablefastdrawing {
        redraw = Redraw::DisableFastDrawing;
    } else if !config.redraw_fastdrawing && !config.redraw_disablefastdrawing {
        return Err(DecodeError::EmptyGroup(FlagGroup::Redraw));
    } else {
        return Err(DecodeError::ConflictingGroup(FlagGroup::Redraw));
    }
    let conversion: Conversion;
    if config.conv_dithering && !config.conv_tresholding {
        conversion = Conversion::Dithering(dithering);
    } else if config.conv_tresholding && !config.conv_dithering {
        conversion = Conversion::Thresholding;
    } else if !config.conv_tresholding && !config.conv_dithering {
        return Err(DecodeError::EmptyGroup(FlagGroup::Conversion));
    } else {
        return Err(DecodeError::ConflictingGroup(FlagGroup::Conversion));
    }
    let bitdepth: BitDepth;
    if config.bitdepth_y1 && !config.bitdepth_y2 && !config.bitdepth_y4 {
        bitdepth = BitDepth::Y1(
            conversion,
            ThresholdLevel::get_from_eww(config.thresholding_level_value),
        );
    } else if !config.bitdepth_y1 && config.bitdepth_y2 && !config.bitdepth_y4 {
        bitdepth = BitDepth::Y2(conversion, redraw);
    } else if !config.bitdepth_y1 && !config.bitdepth_y2 && config.bitdepth_y4 {
        bitdepth = BitDepth::Y4(redraw);
    } else if !config.bitdepth_y1 && !config.bitdepth_y2 && !config.bitdepth_y4 {
        return Err(DecodeError::EmptyGroup(FlagGroup::BitDepth));
    } else {
        return Err(DecodeError::ConflictingGroup(FlagGroup::BitDepth));
    }
    if config.driver_fast && !config.driver_normal {
        Ok(DriverMode::Fast(dithering))
    } else if config.driver_normal && !config.driver_fast {
        Ok(DriverMode::Normal(bitdepth))
    } else if !config.driver_normal && !config.driver_fast {
        Err(DecodeError::EmptyGroup(FlagGroup::Mode))
    } else {
        Err(DecodeError::ConflictingGroup(FlagGroup::Mode))
    }
}

/// Looks a number up in the snapshot like [`parse_number`], restricted to
/// values that fit in a `u8`.
pub fn parse_number_u8(state: &str, key: &str, default: u8) -> (r: u8)
    ensures
        r as int == num_lookup(state@, key@, 0, default as int, 255),
{
    let n = state.unicode_len();
    let mut i: usize = 0;
    while i < n
        invariant
            i <= n,
            n == state@.len(),
            num_lookup(state@, key@, 0, default as int, 255) == num_lookup(
                state@,
                key@,
                i as int,
                default as int,
                255,
            ),
        decreases n - i,
    {
        let le = find_char(state, i, n, '\n');
        let ci = find_char(state, i, le, ':');
        if ci < le {
            let kr = trim_range(state, i, ci);
            if range_eq_str(state, kr.0, kr.1, key) {
                let vr = trim_range(state, ci + 1, le);
                match parse_dec_range(state, vr.0, vr.1, 255) {
                    Some(v) => {
                        return v as u8;
                    },
                    None => {},
                }
            }
        }
        proof {
            assert(num_lookup(state@, key@, i as int, default as int, 255) == num_lookup(
                state@,
                key@,
                le + 1,
                default as int,
                255,
            ));
        }
        i = if le < n {
            le + 1
        } else {
            n
        };
    }
    default
}

} // verus!
