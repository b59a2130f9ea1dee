//! Render hint codec: bidirectional conversion between the hardware's compact
//! pipe-delimited hint string (`"<bitdepth>|<conversion>|<redraw>"`) and a
//! structured record.
//!
//! Decoding requires the first field to match one of `Y1`, `Y2`, `Y4`;
//! a missing or unparseable second or third field falls back to
//! `Thresholding` and `FastDrawing` respectively. The fallback is the
//! documented recovery for a malformed hardware-reported hint; it is made
//! observable through [`RenderHint::decode_observed`].

use vstd::prelude::*;
use vstd::string::StrSliceExecFns;
use vstd::string::StringExecFns;

verus! {

/// Bit depth as the hardware's flat render hint reports it.
#[derive(Copy, Clone, Debug, PartialEq, Eq, Structural)]
pub enum PureBitDepth {
    Y1,
    Y2,
    Y4,
}

/// Conversion strategy as the hardware's flat render hint reports it.
#[derive(Copy, Clone, Debug, PartialEq, Eq, Structural)]
pub enum PureConversion {
    Thresholding,
    Dithering,
}

/// Partial-redraw strategy as the hardware's flat render hint reports it.
#[derive(Copy, Clone, Debug, PartialEq, Eq, Structural)]
pub enum PureRedraw {
    FastDrawing,
    DisableFastDrawing,
}

/// The hardware's cached rendering hint: a flat record of bit depth,
/// conversion and redraw strategy, independent of the nested mode hierarchy.
#[derive(Copy, Clone, Debug, PartialEq, Eq, Structural)]
pub struct RenderHint {
    pub bit_depth: PureBitDepth,
    pub conversion: PureConversion,
    pub redraw: PureRedraw,
}

/// The characters of a bit-depth field.
pub open spec fn bd_chars(b: PureBitDepth) -> Seq<char> {
    match b {
        PureBitDepth::Y1 => seq!['Y', '1'],
        PureBitDepth::Y2 => seq!['Y', '2'],
        PureBitDepth::Y4 => seq!['Y', '4'],
    }
}

/// The character of a conversion field.
pub open spec fn cv_char(c: PureConversion) -> char {
    match c {
        PureConversion::Thresholding => 'T',
        PureConversion::Dithering => 'D',
    }
}

/// The character of a redraw field.
pub open spec fn rw_char(r: PureRedraw) -> char {
    match r {
        PureRedraw::FastDrawing => 'R',
        PureRedraw::DisableFastDrawing => 'r',
    }
}

/// The encoded form of a render hint: `"<bitdepth>|<conversion>|<redraw>"`.
pub open spec fn encode_chars(h: RenderHint) -> Seq<char> {
    bd_chars(h.bit_depth) + seq!['|', cv_char(h.conversion), '|', rw_char(h.redraw)]
}

/// The index of the first `'|'` at or after `from`, or `s.len()` if none.
pub open spec fn bar_index(s: Seq<char>, from: int) -> int
    recommends
        0 <= from <= s.len(),
    decreases s.len() - from,
{
    if from >= s.len() {
        s.len() as int
    } else if s[from] == '|' {
        from
    } else {
        bar_index(s, from + 1)
    }
}

/// The bit depth a field's characters denote, if any.
pub open spec fn bd_of_chars(s: Seq<char>) -> Option<PureBitDepth> {
    if s == bd_chars(PureBitDepth::Y1) {
        Some(PureBitDepth::Y1)
    } else if s == bd_chars(PureBitDepth::Y2) {
        Some(PureBitDepth::Y2)
    } else if s == bd_chars(PureBitDepth::Y4) {
        Some(PureBitDepth::Y4)
    } else {
        None
    }
}

/// The conversion a field's characters denote, if any.
pub open spec fn cv_of_chars(s: Seq<char>) -> Option<PureConversion> {
    if s == seq![cv_char(PureConversion::Thresholding)] {
        Some(PureConversion::Thresholding)
    } else if s == seq![cv_char(PureConversion::Dithering)] {
        Some(PureConversion::Dithering)
    } else {
        None
    }
}

/// The redraw strategy a field's characters denote, if any.
pub open spec fn rw_of_chars(s: Seq<char>) -> Option<PureRedraw> {
    if s == seq![rw_char(PureRedraw::FastDrawing)] {
        Some(PureRedraw::FastDrawing)
    } else if s == seq![rw_char(PureRedraw::DisableFastDrawing)] {
        Some(PureRedraw::DisableFastDrawing)
    } else {
        None
    }
}

/// What decoding a hint string yields: `None` exactly when the first field
/// matches no bit depth; otherwise the record assembled from the fields, with
/// the documented fallbacks for the second and third.
pub open spec fn decode_chars(s: Seq<char>) -> Option<RenderHint> {
    let e1 = bar_index(s, 0);
    match bd_of_chars(s.subrange(0, e1)) {
        None => None,
        Some(bd) => {
            let cv = if e1 == s.len() {
                PureConversion::Thresholding
            } else {
                let e2 = bar_index(s, e1 + 1);
                match cv_of_chars(s.subrange(e1 + 1, e2)) {
                    Some(c) => c,
                    None => PureConversion::Thresholding,
                }
            };
            let rw = if e1 == s.len() {
                PureRedraw::FastDrawing
            } else {
                let e2 = bar_index(s, e1 + 1);
                if e2 == s.len() {
                    PureRedraw::FastDrawing
                } else {
                    let e3 = bar_index(s, e2 + 1);
                    match rw_of_chars(s.subrange(e2 + 1, e3)) {
                        Some(r) => r,
                        None => PureRedraw::FastDrawing,
                    }
                }
            };
            Some(RenderHint { bit_depth: bd, conversion: cv, redraw: rw })
        },
    }
}

/// Whether decoding `s` leaned on a fallback: the second or third field was
/// missing or unparseable. Meaningful whether or not decoding succeeds.
pub open spec fn decode_used_fallback(s: Seq<char>) -> bool {
    let e1 = bar_index(s, 0);
    if e1 == s.len() {
        true
    } else {
        let e2 = bar_index(s, e1 + 1);
        cv_of_chars(s.subrange(e1 + 1, e2)) is None || (if e2 == s.len() {
            true
        } else {
            rw_of_chars(s.subrange(e2 + 1, bar_index(s, e2 + 1))) is None
        })
    }
}

proof fn lemma_bar_index_at(s: Seq<char>, from: int, i: int)
    requires
        0 <= from <= i <= s.len(),
        forall|j: int| from <= j < i ==> s[j] != '|',
        i == s.len() || s[i] == '|',
    ensures
        bar_index(s, from) == i,
    decreases i - from,
{
    if from < i {
        lemma_bar_index_at(s, from + 1, i);
    }
}

/// Returns the index of the first `'|'` at or after `from`, or the length.
fn find_bar(s: &str, from: usize) -> (i: usize)
    requires
        from <= s@.len(),
    ensures
        from <= i <= s@.len(),
        i == bar_index(s@, from as int),
{
    let n = s.unicode_len();
    let mut i = from;
    while i < n
        invariant
            from <= i <= n,
            n == s@.len(),
            forall|j: int| from <= j < i ==> s@[j] != '|',
        decreases n - i,
    {
        if s.get_char(i) == '|' {
            proof {
                lemma_bar_index_at(s@, from as int, i as int);
            }
            return i;
        }
        i += 1;
    }
    proof {
        lemma_bar_index_at(s@, from as int, i as int);
    }
    i
}

/// Reads the bit-depth field spanning `s[from..to]`.
fn read_bd(s: &str, from: usize, to: usize) -> (r: Option<PureBitDepth>)
    requires
        from <= to <= s@.len(),
    ensures
        r == bd_of_chars(s@.subrange(from as int, to as int)),
{
    let ghost sub = s@.subrange(from as int, to as int);
    proof {
        assert(bd_chars(PureBitDepth::Y1).len() == 2);
        assert(bd_chars(PureBitDepth::Y2).len() == 2);
        assert(bd_chars(PureBitDepth::Y4).len() == 2);
        assert(bd_chars(PureBitDepth::Y1)[0] == 'Y' && bd_chars(PureBitDepth::Y1)[1] == '1');
        assert(bd_chars(PureBitDepth::Y2)[0] == 'Y' && bd_chars(PureBitDepth::Y2)[1] == '2');
        assert(bd_chars(PureBitDepth::Y4)[0] == 'Y' && bd_chars(PureBitDepth::Y4)[1] == '4');
    }
    if to - from == 2 {
        let c0 = s.get_char(from);
        let c1 = s.get_char(from + 1);
        assert(sub.len() == 2 && sub[0] == c0 && sub[1] == c1);
        if c0 == 'Y' && c1 == '1' {
            assert(sub =~= bd_chars(PureBitDepth::Y1));
            Some(PureBitDepth::Y1)
        } else if c0 == 'Y' && c1 == '2' {
            assert(sub =~= bd_chars(PureBitDepth::Y2));
            Some(PureBitDepth::Y2)
        } else if c0 == 'Y' && c1 == '4' {
            assert(sub =~= bd_chars(PureBitDepth::Y4));
            Some(PureBitDepth::Y4)
        } else {
            None
        }
    } else {
        None
    }
}

/// Reads the conversion field spanning `s[from..to]`.
fn read_cv(s: &str, from: usize, to: usize) -> (r: Option<PureConversion>)
    requires
        from <= to <= s@.len(),
    ensures
        r == cv_of_chars(s@.subrange(from as int, to as int)),
{
    let ghost sub = s@.subrange(from as int, to as int);
    proof {
        assert(seq![cv_char(PureConversion::Thresholding)].len() == 1);
        assert(seq![cv_char(PureConversion::Dithering)].len() == 1);
        assert(seq![cv_char(PureConversion::Thresholding)][0] == 'T');
        assert(seq![cv_char(PureConversion::Dithering)][0] == 'D');
    }
    if to - from == 1 {
        let c0 = s.get_char(from);
        assert(sub.len() == 1 && sub[0] == c0);
        if c0 == 'T' {
            assert(sub =~= seq![cv_char(PureConversion::Thresholding)]);
            Some(PureConversion::Thresholding)
        } else if c0 == 'D' {
            assert(sub =~= seq![cv_char(PureConversion::Dithering)]);
            Some(PureConversion::Dithering)
        } else {
            None
        }
    } else {
        None
    }
}

/// Reads the redraw field spanning `s[from..to]`.
fn read_rw(s: &str, from: usize, to: usize) -> (r: Option<PureRedraw>)
    requires
        from <= to <= s@.len(),
    ensures
        r == rw_of_chars(s@.subrange(from as int, to as int)),
{
    let ghost sub = s@.subrange(from as int, to as int);
    proof {
        assert(seq![rw_char(PureRedraw::FastDrawing)].len() == 1);
        assert(seq![rw_char(PureRedraw::DisableFastDrawing)].len() == 1);
        assert(seq![rw_char(PureRedraw::FastDrawing)][0] == 'R');
        assert(seq![rw_char(PureRedraw::DisableFastDrawing)][0] == 'r');
    }
    if to - from == 1 {
        let c0 = s.get_char(from);
        assert(sub.len() == 1 && sub[0] == c0);
        if c0 == 'R' {
            assert(sub =~= seq![rw_char(PureRedraw::FastDrawing)]);
            Some(PureRedraw::FastDrawing)
        } else if c0 == 'r' {
            assert(sub =~= seq![rw_char(PureRedraw::DisableFastDrawing)]);
            Some(PureRedraw::DisableFastDrawing)
        } else {
            None
        }
    } else {
        None
    }
}

impl RenderHint {
    /// Encodes the hint as the hardware's pipe-delimited string.
    pub fn encode(&self) -> (r: String)
        ensures
            r@ == encode_chars(*self),
    {
        let mut out = String::new();
        match self.bit_depth {
            PureBitDepth::Y1 => out.append("Y1"),
            PureBitDepth::Y2 => out.append("Y2"),
            PureBitDepth::Y4 => out.append("Y4"),
        }
        out.append("|");
        match self.conversion {
            PureConversion::Thresholding => out.append("T"),
            PureConversion::Dithering => out.append("D"),
        }
        out.append("|");
        match self.redraw {
            PureRedraw::FastDrawing => out.append("R"),
            PureRedraw::DisableFastDrawing => out.append("r"),
        }
        proof {
            reveal_strlit("Y1");
            reveal_strlit("Y2");
            reveal_strlit("Y4");
            reveal_strlit("|");
            reveal_strlit("T");
            reveal_strlit("D");
            reveal_strlit("R");
            reveal_strlit("r");
            assert(out@ =~= encode_chars(*self));
        }
        out
    }

    /// Decodes a pipe-delimited hint string, applying the documented
    /// fallbacks for a missing or unparseable second or third field.
    pub fn decode(s: &str) -> (r: Option<RenderHint>)
        ensures
            r == decode_chars(s@),
    {
        let (r, _) = Self::decode_observed(s);
        r
    }

    /// Decodes like [`RenderHint::decode`] and additionally reports whether a
    /// fallback substituted for a missing or unparseable field, so a caller
    /// can surface the self-healing instead of masking it.
    pub fn decode_observed(s: &str) -> (r: (Option<RenderHint>, bool))
        ensures
            r.0 == decode_chars(s@),
            r.1 == decode_used_fallback(s@),
    {
        let n = s.unicode_len();
        let e1 = find_bar(s, 0);
        let bd_opt = read_bd(s, 0, e1);
        if e1 == n {
            let r = match bd_opt {
                Some(bd) => Some(
                    RenderHint {
                        bit_depth: bd,
                        conversion: PureConversion::Thresholding,
                        redraw: PureRedraw::FastDrawing,
                    },
                ),
                None => None,
            };
            (r, true)
        } else {
            let e2 = find_bar(s, e1 + 1);
            let cv_opt = read_cv(s, e1 + 1, e2);
            let cv = match cv_opt {
                Some(c) => c,
                None => PureConversion::Thresholding,
            };
            let (rw_opt, rw_missing) = if e2 == n {
                (None, true)
            } else {
                let e3 = find_bar(s, e2 + 1);
                (read_rw(s, e2 + 1, e3), false)
            };
            let rw = match rw_opt {
                Some(r) => r,
                None => PureRedraw::FastDrawing,
            };
            let fallback = cv_opt.is_none() || rw_missing || rw_opt.is_none();
            let r = match bd_opt {
                Some(bd) => Some(RenderHint { bit_depth: bd, conversion: cv, redraw: rw }),
                None => None,
            };
            (r, fallback)
        }
    }
}

/// Round-trip law: decoding an encoded hint yields the hint back, for every
/// valid hint value.
pub proof fn lemma_decode_encode_roundtrip(h: RenderHint)
    ensures
        decode_chars(encode_chars(h)) == Some(h),
{
    let s = encode_chars(h);
    let bd = bd_chars(h.bit_depth);
    assert(s.len() == 6);
    assert(bd[0] == 'Y');
    assert(bd[1] == '1' || bd[1] == '2' || bd[1] == '4');
    assert(s[0] == bd[0]);
    assert(s[1] == bd[1]);
    assert(s[2] == '|');
    assert(s[3] == cv_char(h.conversion));
    assert(s[4] == '|');
    assert(s[5] == rw_char(h.redraw));
    assert forall|j: int| 0 <= j < 2 implies s[j] != '|' by {
        if j == 0 {
            assert(s[0] == 'Y');
        } else {
            assert(s[1] == '1' || s[1] == '2' || s[1] == '4');
        }
    }
    lemma_bar_index_at(s, 0, 2);
    assert(s.subrange(0, 2) =~= bd);
    assert(bd_of_chars(bd) == Some(h.bit_depth));
    assert(cv_char(h.conversion) != '|');
    lemma_bar_index_at(s, 3, 4);
    assert(s.subrange(4, 5) =~= seq![s[4]]);
    assert(s.subrange(3, 4) =~= seq![cv_char(h.conversion)]);
    assert(seq![cv_char(PureConversion::Thresholding)][0] == 'T');
    assert(seq![cv_char(PureConversion::Dithering)][0] == 'D');
    assert(cv_of_chars(seq![cv_char(h.conversion)]) == Some(h.conversion));
    assert(rw_char(h.redraw) != '|');
    lemma_bar_index_at(s, 5, 6);
    assert(s.subrange(5, 6) =~= seq![rw_char(h.redraw)]);
    assert(seq![rw_char(PureRedraw::FastDrawing)][0] == 'R');
    assert(seq![rw_char(PureRedraw::DisableFastDrawing)][0] == 'r');
    assert(rw_of_chars(seq![rw_char(h.redraw)]) == Some(h.redraw));
}

} // verus!
