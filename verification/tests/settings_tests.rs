use spacetime_playground::scalar::{Scalar, SCALE};
use spacetime_playground::screenshot::{parse_args, ArgError, Flag, ScreenshotConfig};
use spacetime_playground::simulation::{Preset, Simulation};
use spacetime_playground::text::{read_scalar, read_u32};
use spacetime_playground::ui::UiState;

fn args(words: &[&str]) -> Vec<String> {
    words.iter().map(|w| w.to_string()).collect()
}

fn raw(text: &str) -> Option<i64> {
    read_scalar(text).map(|s| s.raw())
}

#[test]
fn read_u32_accepts_what_the_standard_parser_accepts() {
    let samples = [
        "0", "7", "007", "+5", "1920", "4294967295", "4294967296", "99999999999999999999999", "",
        "+", "-", "-0", "-1", "++1", "+-1", "1 ", " 1", "1.0", "1e3", "0x10", "12a", "a12", "１２",
        "+0", "000000000000000000000000001", "4294967295 ", "٣",
    ];
    for text in samples {
        assert_eq!(read_u32(text), text.parse::<u32>().ok(), "text {:?}", text);
    }
}

#[test]
fn read_u32_values() {
    assert_eq!(read_u32("600"), Some(600));
    assert_eq!(read_u32("+4294967295"), Some(u32::MAX));
    assert_eq!(read_u32("4294967296"), None);
    assert_eq!(read_u32(""), None);
    assert_eq!(read_u32("+"), None);
}

#[test]
fn read_scalar_values() {
    assert_eq!(raw("0"), Some(0));
    assert_eq!(raw("1"), Some(SCALE));
    assert_eq!(raw("10.0"), Some(10 * SCALE));
    assert_eq!(raw("0.016"), Some(16_000_000));
    assert_eq!(raw("1.2"), Some(1_200_000_000));
    assert_eq!(raw("-2.5"), Some(-2_500_000_000));
    assert_eq!(raw("+0.5"), Some(500_000_000));
    assert_eq!(raw(".5"), Some(500_000_000));
    assert_eq!(raw("5."), Some(5 * SCALE));
    assert_eq!(raw("-.25"), Some(-250_000_000));
    assert_eq!(raw("007.100"), Some(7_100_000_000));
    assert_eq!(raw("0.123456789"), Some(123_456_789));
    assert_eq!(raw("-0"), Some(0));
}

#[test]
fn read_scalar_drops_digits_beyond_the_ninth_place() {
    assert_eq!(raw("0.1234567899"), Some(123_456_789));
    assert_eq!(raw("-0.9999999999"), Some(-999_999_999));
    assert_eq!(raw("3.14159265358979323846"), Some(3_141_592_653));
    assert_eq!(raw("0.0000000009"), Some(0));
}

#[test]
fn read_scalar_saturates() {
    assert_eq!(raw("9223372036.854775807"), Some(i64::MAX));
    assert_eq!(raw("9223372036.854775808"), Some(i64::MAX));
    assert_eq!(raw("9223372037"), Some(i64::MAX));
    assert_eq!(raw("-9223372037"), Some(-i64::MAX));
    assert_eq!(raw("100000000000000000000000000000000000000"), Some(i64::MAX));
    assert_eq!(raw("-100000000000000000000000000000000000000.5"), Some(-i64::MAX));
    assert_eq!(raw("9223372036.854775806"), Some(i64::MAX - 1));
}

#[test]
fn read_scalar_turns_down_what_is_no_decimal() {
    for text in [
        "", "+", "-", ".", "+.", "-.", "1e3", "inf", "NaN", "1.2.3", "1,5", " 1", "1 ", "--1", "+-1",
        "1-", "0x1", "1.5f", "١", "1..", "..1",
    ] {
        assert_eq!(raw(text), None, "text {:?}", text);
    }
}

#[test]
fn default_config() {
    let c = ScreenshotConfig::default();
    assert_eq!(c.preset, Preset::Single);
    assert_eq!((c.width, c.height), (1920, 1080));
    assert_eq!(c.camera_distance.raw(), 10 * SCALE);
    assert_eq!(c.camera_azimuth.raw(), 500_000_000);
    assert_eq!(c.camera_elevation.raw(), 1_200_000_000);
    assert_eq!(c.camera_fov.raw(), SCALE);
    assert_eq!(c.max_steps, 600);
    assert_eq!(c.step_size.raw(), 100_000_000);
    assert_eq!(c.background_mode, 1);
    assert_eq!(c.output, "screenshot.png");
    assert_eq!(c.sim_time.raw(), 0);
}

#[test]
fn flag_texts() {
    let all = [
        (Flag::Preset, "--preset"),
        (Flag::Width, "--width"),
        (Flag::Height, "--height"),
        (Flag::CameraDistance, "--camera-distance"),
        (Flag::CameraAzimuth, "--camera-azimuth"),
        (Flag::CameraElevation, "--camera-elevation"),
        (Flag::CameraFov, "--camera-fov"),
        (Flag::MaxSteps, "--max-steps"),
        (Flag::StepSize, "--step-size"),
        (Flag::Background, "--background"),
        (Flag::Output, "--output"),
        (Flag::SimTime, "--sim-time"),
    ];
    for (flag, text) in all {
        assert_eq!(flag.text(), text);
    }
}

#[test]
fn no_screenshot_word_means_no_still_image() {
    assert_eq!(parse_args(&args(&[])), Ok(None));
    assert_eq!(parse_args(&args(&["prog"])), Ok(None));
    assert_eq!(parse_args(&args(&["prog", "--width", "bad", "--preset", "nope"])), Ok(None));
    assert_eq!(parse_args(&args(&["prog", "--screenshots"])), Ok(None));
}

#[test]
fn screenshot_word_alone_gives_the_defaults() {
    assert_eq!(parse_args(&args(&["prog", "--screenshot"])), Ok(Some(ScreenshotConfig::default())));
    assert_eq!(parse_args(&args(&["--screenshot"])), Ok(Some(ScreenshotConfig::default())));
}

#[test]
fn every_flag_is_read() {
    let parsed = parse_args(&args(&[
        "prog",
        "--preset",
        "triple",
        "--width",
        "640",
        "--height",
        "480",
        "--camera-distance",
        "25.5",
        "--camera-azimuth",
        "-0.75",
        "--camera-elevation",
        "1.57",
        "--camera-fov",
        "0.8",
        "--max-steps",
        "1200",
        "--step-size",
        "0.05",
        "--background",
        "checker",
        "--output",
        "out/frame.png",
        "--sim-time",
        "12.5",
        "--screenshot",
    ]));
    let expected = ScreenshotConfig {
        preset: Preset::Triple,
        width: 640,
        height: 480,
        camera_distance: Scalar::from_milli(25_500),
        camera_azimuth: Scalar::from_milli(-750),
        camera_elevation: Scalar::from_milli(1570),
        camera_fov: Scalar::from_milli(800),
        max_steps: 1200,
        step_size: Scalar::from_milli(50),
        background_mode: 0,
        output: "out/frame.png".to_string(),
        sim_time: Scalar::from_milli(12_500),
    };
    assert_eq!(parsed, Ok(Some(expected)));
}

#[test]
fn presets_by_name() {
    for (word, preset) in
        [("single", Preset::Single), ("binary", Preset::Binary), ("triple", Preset::Triple)]
    {
        let c = parse_args(&args(&["--screenshot", "--preset", word])).unwrap().unwrap();
        assert_eq!(c.preset, preset);
    }
}

#[test]
fn unknown_preset_is_an_error_that_carries_the_word() {
    assert_eq!(
        parse_args(&args(&["--screenshot", "--preset", "Single"])),
        Err(ArgError::UnknownPreset("Single".to_string()))
    );
    assert_eq!(
        parse_args(&args(&["--preset", "quadruple", "--screenshot", "--width", "x"])),
        Err(ArgError::UnknownPreset("quadruple".to_string()))
    );
}

#[test]
fn background_by_name_or_number() {
    for (word, mode) in [("checker", 0), ("stars", 1), ("0", 0), ("1", 1), ("7", 7), ("+2", 2)] {
        let c = parse_args(&args(&["--screenshot", "--background", word])).unwrap().unwrap();
        assert_eq!(c.background_mode, mode);
    }
    assert_eq!(
        parse_args(&args(&["--screenshot", "--background", "nebula"])),
        Err(ArgError::InvalidValue(Flag::Background))
    );
}

#[test]
fn each_flag_reports_its_own_bad_value() {
    let cases = [
        (Flag::Width, "wide"),
        (Flag::Height, "-1"),
        (Flag::CameraDistance, "far"),
        (Flag::CameraAzimuth, "1e3"),
        (Flag::CameraElevation, ""),
        (Flag::CameraFov, "."),
        (Flag::MaxSteps, "4294967296"),
        (Flag::StepSize, "0,1"),
        (Flag::Background, "-1"),
        (Flag::SimTime, "inf"),
    ];
    for (flag, word) in cases {
        assert_eq!(
            parse_args(&args(&["--screenshot", flag.text(), word])),
            Err(ArgError::InvalidValue(flag)),
            "flag {:?}",
            flag
        );
    }
}

#[test]
fn the_first_bad_value_in_reading_order_is_reported() {
    // reading order: preset, width, height, camera, max-steps, step-size, background, sim-time
    assert_eq!(
        parse_args(&args(&["--screenshot", "--sim-time", "x", "--max-steps", "y", "--height", "z"])),
        Err(ArgError::InvalidValue(Flag::Height))
    );
    assert_eq!(
        parse_args(&args(&["--screenshot", "--sim-time", "x", "--step-size", "y"])),
        Err(ArgError::InvalidValue(Flag::StepSize))
    );
    assert_eq!(
        parse_args(&args(&["--screenshot", "--background", "x", "--camera-fov", "y"])),
        Err(ArgError::InvalidValue(Flag::CameraFov))
    );
}

#[test]
fn a_flag_counts_where_it_first_occurs() {
    let c = parse_args(&args(&["--screenshot", "--width", "100", "--width", "200"]))
        .unwrap()
        .unwrap();
    assert_eq!(c.width, 100);
    assert_eq!(
        parse_args(&args(&["--screenshot", "--width", "bad", "--width", "200"])),
        Err(ArgError::InvalidValue(Flag::Width))
    );
}

#[test]
fn a_flag_as_last_word_is_ignored() {
    assert_eq!(
        parse_args(&args(&["--screenshot", "--width"])),
        Ok(Some(ScreenshotConfig::default()))
    );
    assert_eq!(
        parse_args(&args(&["--width", "300", "--screenshot", "--preset"])).unwrap().unwrap().width,
        300
    );
}

#[test]
fn the_word_after_a_flag_is_its_value_whatever_it_is() {
    // "--screenshot" counts as present and is also the output path
    let c = parse_args(&args(&["--output", "--screenshot"])).unwrap().unwrap();
    assert_eq!(c.output, "--screenshot");
    assert_eq!(
        parse_args(&args(&["--screenshot", "--width", "--height", "5"])),
        Err(ArgError::InvalidValue(Flag::Width))
    );
}

#[test]
fn ui_state_defaults() {
    let s = UiState::default();
    assert!(s.show_ui);
    assert_eq!(s.background_mode, 1);
    assert!(s.disk_enabled);
    assert_eq!(s.selected_body, 0);
}

#[test]
fn toggle_ui_flips_only_the_visibility() {
    let mut s = UiState::default();
    s.selected_body = 2;
    s.toggle_ui();
    assert_eq!(s, UiState { show_ui: false, background_mode: 1, disk_enabled: true, selected_body: 2 });
    s.toggle_ui();
    assert!(s.show_ui);
}

#[test]
fn clamp_selection_keeps_a_valid_index() {
    let mut s = UiState::default();
    s.selected_body = 2;
    assert_eq!(s.clamp_selection(3), 2);
    assert_eq!(s.selected_body, 2);
}

#[test]
fn clamp_selection_resets_an_index_out_of_range() {
    let mut s = UiState::default();
    s.selected_body = 3;
    assert_eq!(s.clamp_selection(3), 0);
    assert_eq!(s.selected_body, 0);
    s.selected_body = 5;
    assert_eq!(s.clamp_selection(0), 0);
    assert_eq!(s, UiState::default());
}

#[test]
fn run_for_takes_equal_steps_to_the_time() {
    // 0.04 is covered by three frame steps of 0.013333333
    let mut sim = Simulation::new(Preset::Binary);
    sim.run_for(Scalar::from_milli(40));
    let mut by_hand = Simulation::new(Preset::Binary);
    for _ in 0..3 {
        by_hand.step(Scalar::from_raw(13_333_333));
    }
    assert_eq!(sim.bodies, by_hand.bodies);
    assert_eq!(sim.time.raw(), 39_999_999);
    assert!(!sim.paused);
}

#[test]
fn run_for_an_exact_number_of_frame_steps() {
    let mut sim = Simulation::new(Preset::Triple);
    sim.run_for(Scalar::from_milli(32));
    let mut by_hand = Simulation::new(Preset::Triple);
    for _ in 0..2 {
        by_hand.step(Scalar::from_milli(16));
    }
    assert_eq!(sim.bodies, by_hand.bodies);
    assert_eq!(sim.time.raw(), 32_000_000);
}

#[test]
fn run_for_unpauses_but_a_single_body_stays_put() {
    let mut sim = Simulation::new(Preset::Single);
    let before = sim.bodies.clone();
    sim.run_for(Scalar::from_int(1));
    assert!(!sim.paused);
    assert_eq!(sim.bodies, before);
    assert_eq!(sim.time.raw(), 0);
}

#[test]
fn run_for_no_time_changes_nothing() {
    for t in [0, -5] {
        let mut sim = Simulation::new(Preset::Binary);
        sim.paused = true;
        let before = sim.bodies.clone();
        sim.run_for(Scalar::from_int(t));
        assert!(sim.paused);
        assert_eq!(sim.bodies, before);
        assert_eq!(sim.time.raw(), 0);
    }
}
