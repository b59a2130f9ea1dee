use eink_reconciler::config::eww_screen_config_to_enum;
use eink_reconciler::config::parse_bool;
use eink_reconciler::config::parse_number;
use eink_reconciler::config::parse_u16;
use eink_reconciler::config::DecodeError;
use eink_reconciler::config::EwwScreenConfig;
use eink_reconciler::config::FlagGroup;
use eink_reconciler::mode::BitDepth;
use eink_reconciler::mode::Conversion;
use eink_reconciler::mode::Dithering;
use eink_reconciler::mode::DriverMode;
use eink_reconciler::mode::Redraw;
use eink_reconciler::mode::RedrawOptions;
use eink_reconciler::mode::ThresholdLevel;

fn base_config() -> EwwScreenConfig {
    EwwScreenConfig {
        window_settings: false,
        driver_normal: true,
        driver_fast: false,
        dithering_bayer: true,
        dithering_blue_noise16: false,
        dithering_blue_noise32: false,
        bitdepth_y1: false,
        bitdepth_y2: true,
        bitdepth_y4: false,
        conv_tresholding: true,
        thresholding_level_value: 50,
        conv_dithering: false,
        redraw_fastdrawing: false,
        redraw_level_value: 50,
        redraw_disablefastdrawing: true,
    }
}

#[test]
fn parse_bool_basics() {
    let state = "dithering: true\nbitdepth: false\nnoise\nconversion : true\n";
    assert!(parse_bool(state, "dithering"));
    assert!(!parse_bool(state, "bitdepth"));
    assert!(parse_bool(state, "conversion"));
    assert!(!parse_bool(state, "absent"));
}

#[test]
fn parse_bool_first_match_wins() {
    let state = "flag: true\nflag: false\n";
    assert!(parse_bool(state, "flag"));
    let state = "flag: maybe\nflag: true\n";
    assert!(!parse_bool(state, "flag"));
}

#[test]
fn parse_bool_trims_whitespace() {
    let state = "  flag  :   true  \n";
    assert!(parse_bool(state, "flag"));
}

#[test]
fn parse_number_basics() {
    let state = "redraw_level_value: 42\nother: 7";
    assert_eq!(parse_number(state, "redraw_level_value", 25), 42);
    assert_eq!(parse_number(state, "other", 25), 7);
    assert_eq!(parse_number(state, "absent", 25), 25);
    assert_eq!(parse_u16(state, "absent"), 50);
}

#[test]
fn parse_number_plus_sign_and_zeros() {
    let state = "a: +42\nb: 0007\n";
    assert_eq!(parse_number(state, "a", 0), 42);
    assert_eq!(parse_number(state, "b", 0), 7);
}

#[test]
fn parse_number_skips_unparseable_match() {
    let state = "n: junk\nn: 9\n";
    assert_eq!(parse_number(state, "n", 1), 9);
}

#[test]
fn parse_number_overflow_is_skipped() {
    let state = "n: 70000\n";
    assert_eq!(parse_number(state, "n", 3), 3);
    let state = "n: 65535\n";
    assert_eq!(parse_number(state, "n", 3), 65535);
}

#[test]
fn get_config_from_state() {
    let state = "per_window_settings: false\n\
                 driver_normal_mode: true\n\
                 driver_fast_mode: false\n\
                 dithering_bayer: true\n\
                 dithering_bluenoise16: false\n\
                 dithering_bluenoise32: false\n\
                 bitdepth_y1: false\n\
                 bitdepth_y2: true\n\
                 bitdepth_y4: false\n\
                 conversion_tresholding: true\n\
                 thresholding_level_value: 60\n\
                 conversion_dithering: false\n\
                 redraw_fast_drawing: false\n\
                 redraw_level_value: 50\n\
                 redraw_disabled: true\n";
    let c = EwwScreenConfig::get_eww_screen_config(state);
    assert!(c.driver_normal);
    assert!(!c.driver_fast);
    assert!(c.dithering_bayer);
    assert!(c.bitdepth_y2);
    assert!(c.conv_tresholding);
    assert_eq!(c.thresholding_level_value, 60);
    assert_eq!(c.redraw_level_value, 50);
    assert!(c.redraw_disablefastdrawing);
}

#[test]
fn get_config_defaults_when_absent() {
    let c = EwwScreenConfig::get_eww_screen_config("");
    assert!(!c.driver_normal);
    assert_eq!(c.thresholding_level_value, 39);
    assert_eq!(c.redraw_level_value, 25);
}

#[test]
fn decode_normal_y2_thresholding() {
    let c = base_config();
    let m = eww_screen_config_to_enum(&c).unwrap();
    assert_eq!(
        m,
        DriverMode::Normal(BitDepth::Y2(
            Conversion::Thresholding,
            Redraw::DisableFastDrawing
        ))
    );
}

#[test]
fn decode_maps_numeric_values() {
    let mut c = base_config();
    c.bitdepth_y2 = false;
    c.bitdepth_y4 = true;
    c.redraw_fastdrawing = true;
    c.redraw_disablefastdrawing = false;
    c.redraw_level_value = 50;
    let m = eww_screen_config_to_enum(&c).unwrap();
    assert_eq!(
        m,
        DriverMode::Normal(BitDepth::Y4(Redraw::FastDrawing(RedrawOptions {
            delay: 154
        })))
    );

    let mut c = base_config();
    c.bitdepth_y2 = false;
    c.bitdepth_y1 = true;
    c.thresholding_level_value = 1;
    let m = eww_screen_config_to_enum(&c).unwrap();
    assert_eq!(
        m,
        DriverMode::Normal(BitDepth::Y1(
            Conversion::Thresholding,
            ThresholdLevel::L2
        ))
    );
}

#[test]
fn decode_fast_mode_ignores_bit_depth() {
    let mut c = base_config();
    c.driver_normal = false;
    c.driver_fast = true;
    c.dithering_bayer = false;
    c.dithering_blue_noise16 = true;
    let m = eww_screen_config_to_enum(&c).unwrap();
    assert_eq!(m, DriverMode::Fast(Dithering::BlueNoise16));
}

#[test]
fn decode_conflicting_bitdepth_group_fails() {
    let mut c = base_config();
    c.bitdepth_y1 = true;
    c.bitdepth_y2 = true;
    assert_eq!(
        eww_screen_config_to_enum(&c),
        Err(DecodeError::ConflictingGroup(FlagGroup::BitDepth))
    );
}

#[test]
fn decode_empty_groups_fail() {
    let mut c = base_config();
    c.dithering_bayer = false;
    assert_eq!(
        eww_screen_config_to_enum(&c),
        Err(DecodeError::EmptyGroup(FlagGroup::Dithering))
    );

    let mut c = base_config();
    c.driver_normal = false;
    assert_eq!(
        eww_screen_config_to_enum(&c),
        Err(DecodeError::EmptyGroup(FlagGroup::Mode))
    );

    let mut c = base_config();
    c.redraw_disablefastdrawing = false;
    assert_eq!(
        eww_screen_config_to_enum(&c),
        Err(DecodeError::EmptyGroup(FlagGroup::Redraw))
    );

    let mut c = base_config();
    c.conv_tresholding = false;
    assert_eq!(
        eww_screen_config_to_enum(&c),
        Err(DecodeError::EmptyGroup(FlagGroup::Conversion))
    );

    let mut c = base_config();
    c.bitdepth_y2 = false;
    assert_eq!(
        eww_screen_config_to_enum(&c),
        Err(DecodeError::EmptyGroup(FlagGroup::BitDepth))
    );
}

#[test]
fn decode_reports_first_violated_group() {
    let mut c = base_config();
    c.dithering_bayer = false;
    c.driver_fast = true;
    assert_eq!(
        eww_screen_config_to_enum(&c),
        Err(DecodeError::EmptyGroup(FlagGroup::Dithering))
    );
}
