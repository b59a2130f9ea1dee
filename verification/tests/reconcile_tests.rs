use eink_reconciler::codec::PureBitDepth;
use eink_reconciler::codec::PureConversion;
use eink_reconciler::codec::PureRedraw;
use eink_reconciler::codec::RenderHint;
use eink_reconciler::mode::BitDepth;
use eink_reconciler::mode::Conversion;
use eink_reconciler::mode::Dithering;
use eink_reconciler::mode::DriverMode;
use eink_reconciler::mode::Redraw;
use eink_reconciler::mode::RedrawOptions;
use eink_reconciler::mode::ThresholdLevel;
use eink_reconciler::reconcile::reconcile;
use eink_reconciler::reconcile::visible_updates;
use eink_reconciler::reconcile::PortWrite;
use eink_reconciler::reconcile::ReconcilePlan;
use eink_reconciler::reconcile::UiFlag;
use eink_reconciler::reconcile::UiUpdate;
use eink_reconciler::reconcile::VisibleSettings;

fn hint(bd: PureBitDepth, cv: PureConversion, rw: PureRedraw) -> RenderHint {
    RenderHint {
        bit_depth: bd,
        conversion: cv,
        redraw: rw,
    }
}

fn hidden() -> VisibleSettings {
    VisibleSettings::default()
}

/// The hardware hint as it stands after the plan's writes are applied.
fn apply_hint(plan: &ReconcilePlan, before: RenderHint) -> RenderHint {
    let mut after = before;
    for w in &plan.port_writes {
        if let PortWrite::DefaultHint(h) = w {
            after = *h;
        }
    }
    after
}

#[test]
fn fast_mode_writes_exactly_mode_and_dither() {
    let cur = hint(
        PureBitDepth::Y2,
        PureConversion::Thresholding,
        PureRedraw::DisableFastDrawing,
    );
    let plan = reconcile(
        &DriverMode::Fast(Dithering::BlueNoise16),
        &cur,
        &hidden(),
    );
    assert_eq!(
        plan.port_writes,
        vec![PortWrite::DriverMode(1), PortWrite::DitherMode(1)]
    );
    assert_eq!(
        plan.visible,
        VisibleSettings {
            dithering: true,
            bitdepth: false,
            conversion: false,
            thresholding_level: false,
            redraw: false,
            redraw_level: false,
        }
    );
    // The render hint is left untouched (stale) in Fast mode.
    assert_eq!(apply_hint(&plan, cur), cur);
    // Leaving the thresholding branch resets the level to its default.
    assert_eq!(plan.threshold_write, 7);
}

#[test]
fn normal_y2_dithering_fast_drawing() {
    let cur = hint(
        PureBitDepth::Y1,
        PureConversion::Thresholding,
        PureRedraw::DisableFastDrawing,
    );
    let mode = DriverMode::Normal(BitDepth::Y2(
        Conversion::Dithering(Dithering::Bayer),
        Redraw::FastDrawing(RedrawOptions { delay: 154 }),
    ));
    let plan = reconcile(&mode, &cur, &hidden());
    let want = hint(
        PureBitDepth::Y2,
        PureConversion::Dithering,
        PureRedraw::FastDrawing,
    );
    assert_eq!(
        plan.port_writes,
        vec![
            PortWrite::DriverMode(0),
            PortWrite::DitherMode(0),
            PortWrite::RedrawDelay(154),
            PortWrite::DefaultHint(want),
        ]
    );
    assert_eq!(want.encode(), "Y2|D|R");
    assert_eq!(
        plan.visible,
        VisibleSettings {
            dithering: true,
            bitdepth: true,
            conversion: true,
            thresholding_level: false,
            redraw: true,
            redraw_level: true,
        }
    );
}

#[test]
fn normal_y1_thresholding() {
    let cur = hint(
        PureBitDepth::Y2,
        PureConversion::Dithering,
        PureRedraw::FastDrawing,
    );
    let mode = DriverMode::Normal(BitDepth::Y1(
        Conversion::Thresholding,
        ThresholdLevel::get_from_eww(1),
    ));
    let plan = reconcile(&mode, &cur, &hidden());
    assert_eq!(plan.threshold_write, 2);
    let want = hint(
        PureBitDepth::Y1,
        PureConversion::Thresholding,
        PureRedraw::DisableFastDrawing,
    );
    assert_eq!(want.encode(), "Y1|T|r");
    assert_eq!(
        plan.port_writes,
        vec![PortWrite::DriverMode(0), PortWrite::DefaultHint(want)]
    );
    assert_eq!(
        plan.visible,
        VisibleSettings {
            dithering: false,
            bitdepth: true,
            conversion: true,
            thresholding_level: true,
            redraw: false,
            redraw_level: false,
        }
    );
}

#[test]
fn y4_keeps_reported_conversion_field() {
    let cur = hint(
        PureBitDepth::Y1,
        PureConversion::Dithering,
        PureRedraw::DisableFastDrawing,
    );
    let mode = DriverMode::Normal(BitDepth::Y4(Redraw::DisableFastDrawing));
    let plan = reconcile(&mode, &cur, &hidden());
    let after = apply_hint(&plan, cur);
    assert_eq!(after.bit_depth, PureBitDepth::Y4);
    // Y4 exposes no conversion, so the reported field is carried over.
    assert_eq!(after.conversion, PureConversion::Dithering);
    assert_eq!(after.redraw, PureRedraw::DisableFastDrawing);
}

#[test]
fn no_hint_write_when_hint_already_matches() {
    let cur = hint(
        PureBitDepth::Y2,
        PureConversion::Thresholding,
        PureRedraw::DisableFastDrawing,
    );
    let mode = DriverMode::Normal(BitDepth::Y2(
        Conversion::Thresholding,
        Redraw::DisableFastDrawing,
    ));
    let plan = reconcile(&mode, &cur, &hidden());
    assert_eq!(plan.port_writes, vec![PortWrite::DriverMode(0)]);
}

#[test]
fn second_pass_is_quiet() {
    let starts = [
        hint(
            PureBitDepth::Y1,
            PureConversion::Thresholding,
            PureRedraw::FastDrawing,
        ),
        hint(
            PureBitDepth::Y4,
            PureConversion::Dithering,
            PureRedraw::DisableFastDrawing,
        ),
    ];
    let modes = [
        DriverMode::Fast(Dithering::Bayer),
        DriverMode::Normal(BitDepth::Y1(Conversion::Thresholding, ThresholdLevel::L9)),
        DriverMode::Normal(BitDepth::Y2(
            Conversion::Dithering(Dithering::BlueNoise32),
            Redraw::FastDrawing(RedrawOptions { delay: 20 }),
        )),
        DriverMode::Normal(BitDepth::Y4(Redraw::DisableFastDrawing)),
    ];
    for cur in starts {
        for mode in modes {
            let first = reconcile(&mode, &cur, &hidden());
            let applied = apply_hint(&first, cur);
            let second = reconcile(&mode, &applied, &first.visible);
            // No render-hint write and no UI update on the second pass.
            assert!(second
                .port_writes
                .iter()
                .all(|w| !matches!(w, PortWrite::DefaultHint(_))));
            assert!(second.ui_updates.is_empty());
        }
    }
}

#[test]
fn ui_updates_carry_only_changes() {
    let cur = VisibleSettings {
        dithering: true,
        bitdepth: true,
        conversion: false,
        thresholding_level: false,
        redraw: true,
        redraw_level: true,
    };
    let want = VisibleSettings {
        dithering: false,
        bitdepth: true,
        conversion: true,
        thresholding_level: false,
        redraw: true,
        redraw_level: false,
    };
    let updates = visible_updates(&cur, &want);
    assert_eq!(
        updates,
        vec![
            UiUpdate {
                flag: UiFlag::Dithering,
                value: false,
            },
            UiUpdate {
                flag: UiFlag::Conversion,
                value: true,
            },
            UiUpdate {
                flag: UiFlag::RedrawLevel,
                value: false,
            },
        ]
    );
    assert!(visible_updates(&want, &want).is_empty());
}

#[test]
fn end_to_end_pass() {
    let state = "driver_normal_mode: true\n\
                 driver_fast_mode: false\n\
                 dithering_bayer: true\n\
                 dithering_bluenoise16: false\n\
                 dithering_bluenoise32: false\n\
                 bitdepth_y1: false\n\
                 bitdepth_y2: true\n\
                 bitdepth_y4: false\n\
                 conversion_tresholding: false\n\
                 conversion_dithering: true\n\
                 redraw_fast_drawing: true\n\
                 redraw_level_value: 50\n\
                 redraw_disabled: false\n\
                 bitdepth: true\n\
                 conversion: true\n\
                 redraw: true\n";
    let config = eink_reconciler::config::EwwScreenConfig::get_eww_screen_config(state);
    let mode = eink_reconciler::config::eww_screen_config_to_enum(&config).unwrap();
    let cur = RenderHint::decode("Y1|T|r").unwrap();
    let current_visible = VisibleSettings::get_from_state(state);
    let plan = reconcile(&mode, &cur, &current_visible);
    let want = hint(
        PureBitDepth::Y2,
        PureConversion::Dithering,
        PureRedraw::FastDrawing,
    );
    assert_eq!(
        plan.port_writes,
        vec![
            PortWrite::DriverMode(0),
            PortWrite::DitherMode(0),
            PortWrite::RedrawDelay(154),
            PortWrite::DefaultHint(want),
        ]
    );
    assert_eq!(plan.threshold_write, 7);
    // Only the flags that changed appear in the batched update.
    assert_eq!(
        plan.ui_updates,
        vec![
            UiUpdate {
                flag: UiFlag::Dithering,
                value: true,
            },
            UiUpdate {
                flag: UiFlag::RedrawLevel,
                value: true,
            },
        ]
    );
}

#[test]
fn ui_flag_keys() {
    assert_eq!(UiFlag::Dithering.key(), "dithering");
    assert_eq!(UiFlag::BitDepth.key(), "bitdepth");
    assert_eq!(UiFlag::Conversion.key(), "conversion");
    assert_eq!(UiFlag::Redraw.key(), "redraw");
    assert_eq!(UiFlag::ThresholdingLevel.key(), "thresholding_level");
    assert_eq!(UiFlag::RedrawLevel.key(), "redraw_level");
}
