//! Reconciler: given a desired [`DriverMode`] and the currently reported
//! hardware state, computes the minimal set of hardware writes and
//! UI-visibility updates, leaving unrelated hardware fields untouched.
//!
//! One pass is a pure computation from (desired mode, reported render hint,
//! live visibility flags) to a plan:
//! - the driver-mode selector is always written (its wire format carries no
//!   diffable sub-state), followed by the writes the active branch needs;
//! - the thresholding level is written every pass: the selected level under
//!   Y1 + Thresholding, the default otherwise, so leaving that branch always
//!   restores a sane hardware default;
//! - the render hint is rewritten only when it differs from the reported one,
//!   and only under Normal mode — Fast mode leaves it untouched;
//! - the UI update carries exactly the visibility flags that changed.

use vstd::prelude::*;

use crate::codec::PureBitDepth;
use crate::codec::PureConversion;
use crate::codec::PureRedraw;
use crate::codec::RenderHint;
use crate::config::bool_value;
use crate::config::parse_bool;
use crate::mode::BitDepth;
use crate::mode::Conversion;
use crate::mode::DriverMode;
use crate::mode::Redraw;
use crate::mode::DEFAULT_THRESHOLD_LEVEL;

verus! {

/// Flags describing which UI controls are currently meaningful, derived
/// structurally from the active variant chain: exactly the fields reachable
/// from the selected arms are visible.
#[derive(Copy, Clone, Debug, PartialEq, Eq, Structural)]
pub struct VisibleSettings {
    pub dithering: bool,
    pub bitdepth: bool,
    pub conversion: bool,
    pub thresholding_level: bool,
    pub redraw: bool,
    pub redraw_level: bool,
}

/// The mask with every control hidden.
pub open spec fn all_hidden() -> VisibleSettings {
    VisibleSettings {
        dithering: false,
        bitdepth: false,
        conversion: false,
        thresholding_level: false,
        redraw: false,
        redraw_level: false,
    }
}

impl Default for VisibleSettings {
    fn default() -> (r: Self)
        ensures
            r == all_hidden(),
    {
        VisibleSettings {
            dithering: false,
            bitdepth: false,
            conversion: false,
            thresholding_level: false,
            redraw: false,
            redraw_level: false,
        }
    }
}

impl VisibleSettings {
    /// Reads the currently-live visibility flags out of the flat snapshot.
    pub fn get_from_state(state: &str) -> (r: VisibleSettings)
        ensures
            r.dithering == bool_value(state@, "dithering"@),
            r.bitdepth == bool_value(state@, "bitdepth"@),
            r.conversion == bool_value(state@, "conversion"@),
            r.thresholding_level == bool_value(state@, "thresholding_level"@),
            r.redraw == bool_value(state@, "redraw"@),
            r.redraw_level == bool_value(state@, "redraw_level"@),
    {
        VisibleSettings {
            dithering: parse_bool(state, "dithering"),
            bitdepth: parse_bool(state, "bitdepth"),
            conversion: parse_bool(state, "conversion"),
            thresholding_level: parse_bool(state, "thresholding_level"),
            redraw: parse_bool(state, "redraw"),
            redraw_level: parse_bool(state, "redraw_level"),
        }
    }
}

/// One visibility flag of the UI.
#[derive(Copy, Clone, Debug, PartialEq, Eq, Structural)]
pub enum UiFlag {
    Dithering,
    BitDepth,
    Conversion,
    Redraw,
    ThresholdingLevel,
    RedrawLevel,
}

impl UiFlag {
    /// The key under which the flag lives in the UI state.
    pub open spec fn spec_key(self) -> Seq<char> {
        match self {
            UiFlag::Dithering => "dithering"@,
            UiFlag::BitDepth => "bitdepth"@,
            UiFlag::Conversion => "conversion"@,
            UiFlag::Redraw => "redraw"@,
            UiFlag::ThresholdingLevel => "thresholding_level"@,
            UiFlag::RedrawLevel => "redraw_level"@,
        }
    }

    /// Returns the key under which the flag lives in the UI state.
    pub fn key(&self) -> (r: &'static str)
        ensures
            r@ == self.spec_key(),
    {
        match self {
            UiFlag::Dithering => "dithering",
            UiFlag::BitDepth => "bitdepth",
            UiFlag::Conversion => "conversion",
            UiFlag::Redraw => "redraw",
            UiFlag::ThresholdingLevel => "thresholding_level",
            UiFlag::RedrawLevel => "redraw_level",
        }
    }
}

/// One flag assignment in the batched UI update.
#[derive(Copy, Clone, Debug, PartialEq, Eq, Structural)]
pub struct UiUpdate {
    pub flag: UiFlag,
    pub value: bool,
}

/// One write to the hardware control port.
#[derive(Copy, Clone, Debug, PartialEq, Eq, Structural)]
pub enum PortWrite {
    DriverMode(u8),
    DitherMode(u8),
    RedrawDelay(u16),
    DefaultHint(RenderHint),
}

/// The outcome of one reconciliation pass. The thresholding level is written
/// to its kernel-parameter sink (and mirrored to the UI numeric field)
/// separately from the port writes.
#[derive(Clone, Debug, PartialEq)]
pub struct ReconcilePlan {
    pub port_writes: Vec<PortWrite>,
    pub threshold_write: u8,
    pub visible: VisibleSettings,
    pub ui_updates: Vec<UiUpdate>,
}

/// The conversion a bit-depth arm exposes, if any.
pub open spec fn conversion_of(bd: BitDepth) -> Option<Conversion> {
    match bd {
        BitDepth::Y1(c, _) => Some(c),
        BitDepth::Y2(c, _) => Some(c),
        BitDepth::Y4(_) => None,
    }
}

/// The redraw a bit-depth arm exposes, if any; Y1 never exposes one.
pub open spec fn redraw_of(bd: BitDepth) -> Option<Redraw> {
    match bd {
        BitDepth::Y1(_, _) => None,
        BitDepth::Y2(_, r) => Some(r),
        BitDepth::Y4(r) => Some(r),
    }
}

/// The flat bit depth a bit-depth arm reports into the render hint.
pub open spec fn pure_bd(bd: BitDepth) -> PureBitDepth {
    match bd {
        BitDepth::Y1(_, _) => PureBitDepth::Y1,
        BitDepth::Y2(_, _) => PureBitDepth::Y2,
        BitDepth::Y4(_) => PureBitDepth::Y4,
    }
}

/// The render hint a pass under Normal mode steers the hardware to: the
/// selected bit depth; the selected conversion where the arm exposes one,
/// the reported conversion otherwise; fast drawing exactly where a fast
/// redraw is selected — Y1 always reports fast drawing disabled.
pub open spec fn spec_desired_hint(bd: BitDepth, cur: RenderHint) -> RenderHint {
    RenderHint {
        bit_depth: pure_bd(bd),
        conversion: match conversion_of(bd) {
            Some(Conversion::Thresholding) => PureConversion::Thresholding,
            Some(Conversion::Dithering(_)) => PureConversion::Dithering,
            None => cur.conversion,
        },
        redraw: match redraw_of(bd) {
            Some(Redraw::FastDrawing(_)) => PureRedraw::FastDrawing,
            Some(Redraw::DisableFastDrawing) => PureRedraw::DisableFastDrawing,
            None => PureRedraw::DisableFastDrawing,
        },
    }
}

/// The render hint the hardware reports after a pass: rewritten under Normal
/// mode, left untouched (stale) under Fast mode.
pub open spec fn spec_applied_hint(mode: DriverMode, cur: RenderHint) -> RenderHint {
    match mode {
        DriverMode::Normal(bd) => spec_desired_hint(bd, cur),
        DriverMode::Fast(_) => cur,
    }
}

/// The visibility mask a mode derives: exactly the fields reachable from the
/// active variant chain.
pub open spec fn spec_visible(mode: DriverMode) -> VisibleSettings {
    match mode {
        DriverMode::Fast(_) => VisibleSettings {
            dithering: true,
            bitdepth: false,
            conversion: false,
            thresholding_level: false,
            redraw: false,
            redraw_level: false,
        },
        DriverMode::Normal(bd) => VisibleSettings {
            dithering: conversion_of(bd) matches Some(Conversion::Dithering(_)),
            bitdepth: true,
            conversion: conversion_of(bd) is Some,
            thresholding_level: bd matches BitDepth::Y1(Conversion::Thresholding, _),
            redraw: redraw_of(bd) is Some,
            redraw_level: redraw_of(bd) matches Some(Redraw::FastDrawing(_)),
        },
    }
}

/// The thresholding level written this pass: the selected level under
/// Y1 + Thresholding, the documented default otherwise.
pub open spec fn spec_threshold_write(mode: DriverMode) -> int {
    match mode {
        DriverMode::Normal(BitDepth::Y1(Conversion::Thresholding, l)) => l.as_int(),
        _ => DEFAULT_THRESHOLD_LEVEL as int,
    }
}

/// The port writes a pass always issues, whatever the reported hint: the
/// driver-mode selector, then the writes of the active branch.
pub open spec fn spec_base_writes(mode: DriverMode) -> Seq<PortWrite> {
    seq![PortWrite::DriverMode(mode.spec_code())] + match mode {
        DriverMode::Fast(d) => seq![PortWrite::DitherMode(d.spec_code())],
        DriverMode::Normal(bd) => {
            let dw = match conversion_of(bd) {
                Some(Conversion::Dithering(d)) => seq![PortWrite::DitherMode(d.spec_code())],
                _ => Seq::<PortWrite>::empty(),
            };
            let rw = match redraw_of(bd) {
                Some(Redraw::FastDrawing(o)) => seq![PortWrite::RedrawDelay(o.delay)],
                _ => Seq::<PortWrite>::empty(),
            };
            dw + rw
        },
    }
}

/// The render-hint write a pass issues: none under Fast mode, none when the
/// desired hint already equals the reported one.
pub open spec fn spec_hint_writes(mode: DriverMode, cur: RenderHint) -> Seq<PortWrite> {
    match mode {
        DriverMode::Fast(_) => Seq::<PortWrite>::empty(),
        DriverMode::Normal(bd) => {
            let want = spec_desired_hint(bd, cur);
            if want == cur {
                Seq::<PortWrite>::empty()
            } else {
                seq![PortWrite::DefaultHint(want)]
            }
        },
    }
}

/// All port writes of a pass, in issue order: the unconditional writes, then
/// the render-hint write where one is due.
pub open spec fn spec_port_writes(mode: DriverMode, cur: RenderHint) -> Seq<PortWrite> {
    spec_base_writes(mode) + spec_hint_writes(mode, cur)
}

/// The single diff entry of one visibility flag: present exactly when the
/// current value differs from the desired one.
pub open spec fn diff1(flag: UiFlag, cur: bool, want: bool) -> Seq<UiUpdate> {
    if cur != want {
        seq![UiUpdate { flag: flag, value: want }]
    } else {
        Seq::<UiUpdate>::empty()
    }
}

/// The batched UI update: exactly the flags whose live value differs from
/// the desired mask, each set to its desired value, in a fixed order.
pub open spec fn spec_ui_updates(cur: VisibleSettings, want: VisibleSettings) -> Seq<UiUpdate> {
    diff1(UiFlag::Dithering, cur.dithering, want.dithering) + diff1(
        UiFlag::BitDepth,
        cur.bitdepth,
        want.bitdepth,
    ) + diff1(UiFlag::Conversion, cur.conversion, want.conversion) + diff1(
        UiFlag::Redraw,
        cur.redraw,
        want.redraw,
    ) + diff1(UiFlag::ThresholdingLevel, cur.thresholding_level, want.thresholding_level) + diff1(
        UiFlag::RedrawLevel,
        cur.redraw_level,
        want.redraw_level,
    )
}

/// Computes the batched UI update from the live flags and the desired mask.
#[verifier::rlimit(30)]
pub fn visible_updates(cur: &VisibleSettings, want: &VisibleSettings) -> (r: Vec<UiUpdate>)
    ensures
        r@ == spec_ui_updates(*cur, *want),
{
    let ghost s1 = diff1(UiFlag::Dithering, cur.dithering, want.dithering);
    let ghost s2 = diff1(UiFlag::BitDepth, cur.bitdepth, want.bitdepth);
    let ghost s3 = diff1(UiFlag::Conversion, cur.conversion, want.conversion);
    let ghost s4 = diff1(UiFlag::Redraw, cur.redraw, want.redraw);
    let ghost s5 = diff1(UiFlag::ThresholdingLevel, cur.thresholding_level, want.thresholding_level);
    let ghost s6 = diff1(UiFlag::RedrawLevel, cur.redraw_level, want.redraw_level);
    let mut r: Vec<UiUpdate> = Vec::new();
    if cur.dithering != want.dithering {
        r.push(UiUpdate { flag: UiFlag::Dithering, value: want.dithering });
    }
    proof {
        assert(r@ =~= s1);
    }
    if cur.bitdepth != want.bitdepth {
        r.push(UiUpdate { flag: UiFlag::BitDepth, value: want.bitdepth });
    }
    proof {
        assert(r@ =~= s1 + s2);
    }
    if cur.conversion != want.conversion {
        r.push(UiUpdate { flag: UiFlag::Conversion, value: want.conversion });
    }
    proof {
        assert(r@ =~= s1 + s2 + s3);
    }
    if cur.redraw != want.redraw {
        r.push(UiUpdate { flag: UiFlag::Redraw, value: want.redraw });
    }
    proof {
        assert(r@ =~= s1 + s2 + s3 + s4);
    }
    if cur.thresholding_level != want.thresholding_level {
        r.push(UiUpdate { flag: UiFlag::ThresholdingLevel, value: want.thresholding_level });
    }
    proof {
        assert(r@ =~= s1 + s2 + s3 + s4 + s5);
    }
    if cur.redraw_level != want.redraw_level {
        r.push(UiUpdate { flag: UiFlag::RedrawLevel, value: want.redraw_level });
    }
    proof {
        assert(r@ =~= s1 + s2 + s3 + s4 + s5 + s6);
    }
    r
}

/// Computes one reconciliation pass: from the desired mode, the reported
/// render hint and the live visibility flags to the port writes, the
/// thresholding-level write, the new mask and the batched UI update.
pub fn reconcile(
    mode: &DriverMode,
    current_hint: &RenderHint,
    current_visible: &VisibleSettings,
) -> (plan: ReconcilePlan)
    ensures
        plan.port_writes@ == spec_port_writes(*mode, *current_hint),
        plan.threshold_write == spec_threshold_write(*mode),
        plan.visible == spec_visible(*mode),
        plan.ui_updates@ == spec_ui_updates(*current_visible, spec_visible(*mode)),
{
    let mut writes: Vec<PortWrite> = Vec::new();
    writes.push(PortWrite::DriverMode(mode.code()));
    let mut visible = VisibleSettings::default();
    match mode {
        DriverMode::Fast(d) => {
            writes.push(PortWrite::DitherMode(d.code()));
            visible.dithering = true;
            proof {
                assert(writes@ =~= spec_port_writes(*mode, *current_hint));
            }
        },
        DriverMode::Normal(bd) => {
            visible.bitdepth = true;
            let mut hint = *current_hint;
            match bd {
                BitDepth::Y1(conversion, _) => {
                    hint.bit_depth = PureBitDepth::Y1;
                    hint.redraw = PureRedraw::DisableFastDrawing;
                    visible.conversion = true;
                    match conversion {
                        Conversion::Thresholding => {
                            hint.conversion = PureConversion::Thresholding;
                            visible.thresholding_level = true;
                        },
                        Conversion::Dithering(d) => {
                            hint.conversion = PureConversion::Dithering;
                            writes.push(PortWrite::DitherMode(d.code()));
                            visible.dithering = true;
                        },
                    }
                },
                BitDepth::Y2(conversion, redraw) => {
                    hint.bit_depth = PureBitDepth::Y2;
                    visible.conversion = true;
                    match conversion {
                        Conversion::Thresholding => {
                            hint.conversion = PureConversion::Thresholding;
                        },
                        Conversion::Dithering(d) => {
                            hint.conversion = PureConversion::Dithering;
                            writes.push(PortWrite::DitherMode(d.code()));
                            visible.dithering = true;
                        },
                    }
                    visible.redraw = true;
                    match redraw {
                        Redraw::FastDrawing(o) => {
                            hint.redraw = PureRedraw::FastDrawing;
                            writes.push(PortWrite::RedrawDelay(o.delay));
                            visible.redraw_level = true;
                        },
                        Redraw::DisableFastDrawing => {
                            hint.redraw = PureRedraw::DisableFastDrawing;
                        },
                    }
                },
                BitDepth::Y4(redraw) => {
                    hint.bit_depth = PureBitDepth::Y4;
                    visible.redraw = true;
                    match redraw {
                        Redraw::FastDrawing(o) => {
                            hint.redraw = PureRedraw::FastDrawing;
                            writes.push(PortWrite::RedrawDelay(o.delay));
                            visible.redraw_level = true;
                        },
                        Redraw::DisableFastDrawing => {
                            hint.redraw = PureRedraw::DisableFastDrawing;
                        },
                    }
                },
            }
            proof {
                assert(hint == spec_desired_hint(*bd, *current_hint));
                assert(writes@ =~= spec_base_writes(*mode));
            }
            if hint != *current_hint {
                writes.push(PortWrite::DefaultHint(hint));
            }
            proof {
                assert(writes@ =~= spec_port_writes(*mode, *current_hint));
            }
        },
    }
    let threshold_write: u8 = match mode {
        DriverMode::Normal(BitDepth::Y1(Conversion::Thresholding, l)) => l.to_u8(),
        _ => DEFAULT_THRESHOLD_LEVEL,
    };
    let ui_updates = visible_updates(current_visible, &visible);
    ReconcilePlan { port_writes: writes, threshold_write, visible, ui_updates }
}

/// Idempotence of a pass: after one pass has steered the hardware and the
/// UI to a mode, a second pass for the same mode issues no render-hint
/// write and no UI update — only the unconditional driver-mode and branch
/// writes recur, as their wire format carries no diffable state.
pub proof fn lemma_reconcile_idempotent(mode: DriverMode, cur: RenderHint)
    ensures
        spec_hint_writes(mode, spec_applied_hint(mode, cur)) == Seq::<PortWrite>::empty(),
        spec_port_writes(mode, spec_applied_hint(mode, cur)) == spec_base_writes(mode),
        spec_ui_updates(spec_visible(mode), spec_visible(mode)) == Seq::<UiUpdate>::empty(),
{
    match mode {
        DriverMode::Normal(bd) => {
            let h1 = spec_desired_hint(bd, cur);
            assert(spec_desired_hint(bd, h1) == h1);
        },
        DriverMode::Fast(_) => {},
    }
    assert(spec_ui_updates(spec_visible(mode), spec_visible(mode)) =~= Seq::<UiUpdate>::empty());
    assert(spec_port_writes(mode, spec_applied_hint(mode, cur)) =~= spec_base_writes(mode));
}

} // verus!
