use eink_reconciler::codec::PureBitDepth;
use eink_reconciler::codec::PureConversion;
use eink_reconciler::codec::PureRedraw;
use eink_reconciler::codec::RenderHint;

fn all_hints() -> Vec<RenderHint> {
    let mut v = Vec::new();
    for bd in [PureBitDepth::Y1, PureBitDepth::Y2, PureBitDepth::Y4] {
        for cv in [PureConversion::Thresholding, PureConversion::Dithering] {
            for rw in [PureRedraw::FastDrawing, PureRedraw::DisableFastDrawing] {
                v.push(RenderHint {
                    bit_depth: bd,
                    conversion: cv,
                    redraw: rw,
                });
            }
        }
    }
    v
}

#[test]
fn encode_examples() {
    let h = RenderHint {
        bit_depth: PureBitDepth::Y1,
        conversion: PureConversion::Thresholding,
        redraw: PureRedraw::FastDrawing,
    };
    assert_eq!(h.encode(), "Y1|T|R");
    let h = RenderHint {
        bit_depth: PureBitDepth::Y2,
        conversion: PureConversion::Dithering,
        redraw: PureRedraw::DisableFastDrawing,
    };
    assert_eq!(h.encode(), "Y2|D|r");
    let h = RenderHint {
        bit_depth: PureBitDepth::Y4,
        conversion: PureConversion::Thresholding,
        redraw: PureRedraw::DisableFastDrawing,
    };
    assert_eq!(h.encode(), "Y4|T|r");
}

#[test]
fn decode_encode_roundtrip_all() {
    for h in all_hints() {
        let s = h.encode();
        assert_eq!(RenderHint::decode(&s), Some(h));
    }
}

#[test]
fn decode_well_formed() {
    assert_eq!(
        RenderHint::decode("Y2|D|R"),
        Some(RenderHint {
            bit_depth: PureBitDepth::Y2,
            conversion: PureConversion::Dithering,
            redraw: PureRedraw::FastDrawing,
        })
    );
}

#[test]
fn decode_bad_first_field_fails() {
    assert_eq!(RenderHint::decode("Y3|T|R"), None);
    assert_eq!(RenderHint::decode(""), None);
    assert_eq!(RenderHint::decode("|T|R"), None);
    assert_eq!(RenderHint::decode("y1|T|R"), None);
    assert_eq!(RenderHint::decode("Y11|T|R"), None);
}

#[test]
fn decode_missing_fields_fall_back() {
    assert_eq!(
        RenderHint::decode("Y1"),
        Some(RenderHint {
            bit_depth: PureBitDepth::Y1,
            conversion: PureConversion::Thresholding,
            redraw: PureRedraw::FastDrawing,
        })
    );
    assert_eq!(
        RenderHint::decode("Y4|D"),
        Some(RenderHint {
            bit_depth: PureBitDepth::Y4,
            conversion: PureConversion::Dithering,
            redraw: PureRedraw::FastDrawing,
        })
    );
}

#[test]
fn decode_unparseable_fields_fall_back() {
    assert_eq!(
        RenderHint::decode("Y2|zz|qq"),
        Some(RenderHint {
            bit_depth: PureBitDepth::Y2,
            conversion: PureConversion::Thresholding,
            redraw: PureRedraw::FastDrawing,
        })
    );
    assert_eq!(
        RenderHint::decode("Y2||"),
        Some(RenderHint {
            bit_depth: PureBitDepth::Y2,
            conversion: PureConversion::Thresholding,
            redraw: PureRedraw::FastDrawing,
        })
    );
}

#[test]
fn decode_extra_fields_ignored() {
    assert_eq!(
        RenderHint::decode("Y1|D|r|extra"),
        Some(RenderHint {
            bit_depth: PureBitDepth::Y1,
            conversion: PureConversion::Dithering,
            redraw: PureRedraw::DisableFastDrawing,
        })
    );
}

#[test]
fn decode_observed_reports_fallback() {
    let (r, fallback) = RenderHint::decode_observed("Y1|T|R");
    assert!(r.is_some());
    assert!(!fallback);
    let (r, fallback) = RenderHint::decode_observed("Y1");
    assert!(r.is_some());
    assert!(fallback);
    let (r, fallback) = RenderHint::decode_observed("Y1|T");
    assert!(r.is_some());
    assert!(fallback);
    let (r, fallback) = RenderHint::decode_observed("Y1|x|R");
    assert!(r.is_some());
    assert!(fallback);
    let (r, fallback) = RenderHint::decode_observed("bad|T|R");
    assert!(r.is_none());
    assert!(!fallback);
}
