use yeelib_rs::fields::{ColorMode, PowerStatus, Rgb};
use yeelib_rs::YeeError;

#[test]
fn correct_parse_power_status() {
    // given
    let correct_1 = "on";
    let correct_2 = "off";

    // when
    let result_1 = correct_1.parse::<PowerStatus>().unwrap();
    let result_2 = correct_2.parse::<PowerStatus>().unwrap();

    // then
    assert_eq!(result_1, PowerStatus::On);
    assert_eq!(result_2, PowerStatus::Off);
}

#[test]
fn incorrect_parse_power_status() {
    // given
    let incorrect = "ofon";

    // when
    let incorrect_parsed = incorrect.parse::<PowerStatus>();

    // then
    assert!(incorrect_parsed.is_err());
}

#[test]
fn correct_parse_color_mode() {
    // given
    let correct_1 = "1";
    let correct_2 = "2";
    let correct_3 = "3";

    // when
    let parsed_1 = correct_1.parse::<ColorMode>().unwrap();
    let parsed_2 = correct_2.parse::<ColorMode>().unwrap();
    let parsed_3 = correct_3.parse::<ColorMode>().unwrap();

    // then
    assert_eq!(parsed_1, ColorMode::Color);
    assert_eq!(parsed_2, ColorMode::ColorTemperature);
    assert_eq!(parsed_3, ColorMode::Hsv);
}

#[test]
fn incorrect_parse_color_mode() {
    // given
    let incorrect = "55";

    // when
    let incorrect_parsed = incorrect.parse::<ColorMode>();

    // then
    assert!(incorrect_parsed.is_err());
}

#[test]
fn correct_parse_rgb() {
    // given
    let rgb_1 = "1518204"; // hex: 172A7C
    let rgb_2 = "16777215"; // hex: FFFFFF
    let rgb_3 = "0";

    // when
    let parsed_1 = rgb_1.parse::<Rgb>().unwrap();
    let parsed_2 = rgb_2.parse::<Rgb>().unwrap();
    let parsed_3 = rgb_3.parse::<Rgb>().unwrap();

    // then
    assert_eq!(parsed_1.red, 23);
    assert_eq!(parsed_1.blue, 124);
    assert_eq!(parsed_1.green, 42);

    assert_eq!(parsed_2.red, 255);
    assert_eq!(parsed_2.blue, 255);
    assert_eq!(parsed_2.green, 255);

    assert_eq!(parsed_3.red, 0);
    assert_eq!(parsed_3.blue, 0);
    assert_eq!(parsed_3.green, 0);
}

#[test]
fn incorrect_parse_rgb() {
    // given
    let incorrect_1 = "-5";
    let incorrect_2 = "564123564";
    let incorrect_3 = "fsdkl";

    // when
    let parsed_1 = incorrect_1.parse::<Rgb>();
    let parsed_2 = incorrect_2.parse::<Rgb>();
    let parsed_3 = incorrect_3.parse::<Rgb>();

    // then
    assert!(parsed_1.is_err());
    assert!(parsed_2.is_err());
    assert!(parsed_3.is_err());
}

#[test]
fn power_status_flips_and_flips_back() {
    assert_eq!(PowerStatus::On.flip(), PowerStatus::Off);
    assert_eq!(PowerStatus::Off.flip(), PowerStatus::On);
    assert_eq!(PowerStatus::On.flip().flip(), PowerStatus::On);
    assert_eq!(PowerStatus::Off.flip().flip(), PowerStatus::Off);
}

#[test]
fn power_status_renders_its_wire_form() {
    assert_eq!(PowerStatus::On.to_string(), "on");
    assert_eq!(PowerStatus::Off.to_string(), "off");
    assert_eq!(PowerStatus::parse("on").unwrap(), PowerStatus::On);
    assert_eq!(PowerStatus::parse("off").unwrap(), PowerStatus::Off);
}

#[test]
fn power_status_parse_is_exact() {
    for bad in ["", "On", "ON", " on", "on ", "of", "offf", "1"] {
        match PowerStatus::parse(bad) {
            Err(YeeError::ParseFieldFailed { field_name, source }) => {
                assert_eq!(field_name, "power_status");
                assert!(source.is_none());
            }
            other => panic!("{:?} parsed as {:?}", bad, other),
        }
    }
}

#[test]
fn color_mode_renders_name_and_number() {
    assert_eq!(ColorMode::Color.to_string(), "(color, id=1)");
    assert_eq!(ColorMode::ColorTemperature.to_string(), "(color_temperature, id=2)");
    assert_eq!(ColorMode::Hsv.to_string(), "(hsv, id=3)");
}

#[test]
fn color_mode_parse_is_exact() {
    for bad in ["", "0", "4", "01", "1 ", "+1", "color"] {
        match ColorMode::parse(bad) {
            Err(YeeError::ParseFieldFailed { field_name, source }) => {
                assert_eq!(field_name, "color_mode");
                assert!(source.is_none());
            }
            other => panic!("{:?} parsed as {:?}", bad, other),
        }
    }
}

#[test]
fn rgb_constructors() {
    let black = Rgb::empty();
    assert_eq!((black.red, black.green, black.blue), (0, 0, 0));
    let c = Rgb::new(1, 2, 3);
    assert_eq!((c.red, c.green, c.blue), (1, 2, 3));
    assert_eq!(c, Rgb { red: 1, green: 2, blue: 3 });
}

#[test]
fn rgb_number_is_the_weighted_sum() {
    assert_eq!(Rgb::new(0, 0, 0).get_num(), 0);
    assert_eq!(Rgb::new(0, 0, 1).get_num(), 1);
    assert_eq!(Rgb::new(0, 1, 0).get_num(), 256);
    assert_eq!(Rgb::new(1, 0, 0).get_num(), 65536);
    assert_eq!(Rgb::new(23, 42, 124).get_num(), 1518204);
    assert_eq!(Rgb::new(255, 255, 255).get_num(), 16777215);
}

#[test]
fn rgb_round_trip_through_the_wire_number() {
    let samples: [u8; 7] = [0, 1, 2, 127, 128, 254, 255];
    for r in samples {
        for g in samples {
            for b in samples {
                let c = Rgb::new(r, g, b);
                let parsed = Rgb::parse(&c.get_num().to_string()).unwrap();
                assert_eq!(parsed, c);
                assert_eq!((parsed.red, parsed.green, parsed.blue), (r, g, b));
            }
        }
    }
}

#[test]
fn rgb_bounds() {
    assert!(Rgb::parse("0").is_ok());
    assert!(Rgb::parse("16777215").is_ok());
    assert!(Rgb::parse("16777216").is_err());
    assert!(Rgb::parse("4294967295").is_err());
    assert!(Rgb::parse("4294967296").is_err());
    assert!(Rgb::parse("-1").is_err());
    assert!(Rgb::parse("-0").is_err());
    assert!(Rgb::parse("1.5").is_err());
    assert!(Rgb::parse("").is_err());
    assert!(Rgb::parse(" 5").is_err());
    assert!(Rgb::parse("5 ").is_err());
    assert!(Rgb::parse("0x10").is_err());
    assert!(Rgb::parse("+").is_err());
    assert_eq!(Rgb::parse("+7").unwrap(), Rgb::new(0, 0, 7));
    assert_eq!(Rgb::parse("000657930").unwrap(), Rgb::new(10, 10, 10));
}

#[test]
fn rgb_errors_name_the_field_and_carry_the_cause() {
    match Rgb::parse("fsdkl") {
        Err(YeeError::ParseFieldFailed { field_name, source }) => {
            assert_eq!(field_name, "rgb");
            assert!(source.is_some());
        }
        other => panic!("{:?}", other),
    }
    match Rgb::parse("4294967296") {
        Err(YeeError::ParseFieldFailed { field_name, source }) => {
            assert_eq!(field_name, "rgb");
            assert!(source.is_some());
        }
        other => panic!("{:?}", other),
    }
    match Rgb::parse("16777216") {
        Err(YeeError::ParseFieldFailed { field_name, source }) => {
            assert_eq!(field_name, "rgb");
            assert!(source.is_none());
        }
        other => panic!("{:?}", other),
    }
}

#[test]
fn rgb_renders_as_lowercase_hex() {
    assert_eq!(Rgb::new(10, 10, 10).to_string(), "#a0a0a");
    assert_eq!(Rgb::new(0, 0, 0).to_string(), "#0");
    assert_eq!(Rgb::new(255, 255, 255).to_string(), "#ffffff");
    assert_eq!(Rgb::new(23, 42, 124).to_string(), "#172a7c");
    assert_eq!(Rgb::new(0, 1, 0).to_string(), "#100");
}
