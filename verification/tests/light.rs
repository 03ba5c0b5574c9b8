use std::collections::HashSet;
use std::time::Duration;

use yeelib_rs::addr::{Ipv4Addr, SocketAddrV4};
use yeelib_rs::advert::Fields;
use yeelib_rs::command::{reply_outcome, Command, Exchange, Step};
use yeelib_rs::fields::{ColorMode, PowerStatus, Rgb};
use yeelib_rs::req::{Param, Transition};
use yeelib_rs::{Light, YeeError};

const SUPPORT: &str = "get_power set_power get_rgb set_rgb";

const PAIRS: [(&str, &str); 13] = [
    ("id", "0x1234"),
    ("model", "floor"),
    ("fw_ver", "40"),
    ("power", "on"),
    ("bright", "34"),
    ("color_mode", "2"),
    ("ct", "0"),
    ("rgb", "657930"), // 0A0A0A
    ("hue", "314"),
    ("sat", "12"),
    ("name", "room_light"),
    ("Location", "yeelight://127.0.0.1:13454"),
    ("support", SUPPORT),
];

fn get_map() -> Fields {
    let mut m = Fields::new();
    for (key, value) in PAIRS {
        m.insert(key, value);
    }
    m
}

fn value_of(key: &str) -> &'static str {
    PAIRS.iter().find(|(k, _)| *k == key).unwrap().1
}

fn light_supporting(support: &str) -> Light {
    let mut m = get_map();
    m.insert("support", support);
    Light::from_fields(&m).unwrap()
}

fn full_light() -> Light {
    light_supporting("get_prop set_ct_abx set_rgb set_hsv set_bright set_power toggle adjust_bright")
}

#[test]
fn send_correct_req() {}

#[test]
fn get_correct_location() {
    // given
    let map = get_map();
    let expected_addr = SocketAddrV4::new(Ipv4Addr::new(127, 0, 0, 1), 13454);

    // when
    let light = Light::from_fields(&map).unwrap();

    // then
    assert_eq!(*light.location(), expected_addr);
}

#[test]
fn get_parse_id() {
    let light = Light::from_fields(&get_map()).unwrap();
    assert_eq!(value_of("id"), light.id().to_string());
}

#[test]
fn get_parse_model() {
    let light = Light::from_fields(&get_map()).unwrap();
    assert_eq!(value_of("model"), light.model().to_string());
}

#[test]
fn get_parse_fw_ver() {
    let light = Light::from_fields(&get_map()).unwrap();
    assert_eq!(value_of("fw_ver"), light.fw_ver().to_string());
    assert_eq!(light.fw_ver(), 40);
}

#[test]
fn get_parse_power() {
    let light = Light::from_fields(&get_map()).unwrap();
    assert_eq!(value_of("power"), light.power().to_string());
    assert_eq!(*light.power(), PowerStatus::On);
}

#[test]
fn get_parse_bright() {
    let light = Light::from_fields(&get_map()).unwrap();
    assert_eq!(value_of("bright"), light.bright().to_string());
    assert_eq!(light.bright(), 34);
}

#[test]
fn get_parse_color_mode() {
    let light = Light::from_fields(&get_map()).unwrap();
    assert_eq!(&ColorMode::ColorTemperature, light.color_mode());
}

#[test]
fn get_parse_ct() {
    let light = Light::from_fields(&get_map()).unwrap();
    assert_eq!(value_of("ct"), light.ct().to_string());
    assert_eq!(light.ct(), 0);
}

#[test]
fn get_parse_rgb() {
    let light = Light::from_fields(&get_map()).unwrap();
    assert_eq!(&Rgb { red: 10, green: 10, blue: 10 }, light.rgb());
}

#[test]
fn get_parse_hue() {
    let light = Light::from_fields(&get_map()).unwrap();
    assert_eq!(value_of("hue"), light.hue().to_string());
    assert_eq!(light.hue(), 314);
}

#[test]
fn get_parse_sat() {
    let light = Light::from_fields(&get_map()).unwrap();
    assert_eq!(value_of("sat"), light.sat().to_string());
    assert_eq!(light.sat(), 12);
}

#[test]
fn get_parse_name() {
    let light = Light::from_fields(&get_map()).unwrap();
    assert_eq!(value_of("name"), light.name().to_string());
}

fn fails_without(field: &str) {
    // given
    let mut map = get_map();
    assert!(map.get(field).is_some());
    map.remove(field);

    // when
    let fail = Light::from_fields(&map);

    // then
    assert!(fail.is_err());
    match fail.err().unwrap() {
        YeeError::FieldNotFound { field_name } => assert_eq!(field_name, field),
        other => panic!("{:?}", other),
    }
}

#[test]
fn parse_fail_id() {
    fails_without("id");
}

#[test]
fn parse_fail_model() {
    fails_without("model");
}

#[test]
fn parse_fail_fw_ver() {
    fails_without("fw_ver");
}

#[test]
fn parse_fail_support() {
    fails_without("support");
}

#[test]
fn parse_fail_power() {
    fails_without("power");
}

#[test]
fn parse_fail_bright() {
    fails_without("bright");
}

#[test]
fn parse_fail_color_mode() {
    fails_without("color_mode");
}

#[test]
fn parse_fail_ct() {
    fails_without("ct");
}

#[test]
fn parse_fail_rgb() {
    fails_without("rgb");
}

#[test]
fn parse_fail_hue() {
    fails_without("hue");
}

#[test]
fn parse_fail_sat() {
    fails_without("sat");
}

#[test]
fn parse_fail_name() {
    fails_without("name");
}

#[test]
fn parse_fail_location() {
    fails_without("Location");
}

#[test]
fn first_missing_field_in_order_is_reported() {
    let mut map = get_map();
    map.remove("sat");
    map.remove("model");
    map.remove("Location");
    match Light::from_fields(&map).err().unwrap() {
        YeeError::FieldNotFound { field_name } => assert_eq!(field_name, "model"),
        other => panic!("{:?}", other),
    }
}

fn parse_failure(field: &str, value: &str) -> (String, bool) {
    let mut map = get_map();
    map.insert(field, value);
    match Light::from_fields(&map).err().unwrap() {
        YeeError::ParseFieldFailed { field_name, source } => (field_name.to_string(), source.is_some()),
        other => panic!("{:?}", other),
    }
}

#[test]
fn bad_values_name_their_field() {
    assert_eq!(parse_failure("fw_ver", "256"), ("fw_ver".to_string(), true));
    assert_eq!(parse_failure("fw_ver", "x"), ("fw_ver".to_string(), true));
    assert_eq!(parse_failure("bright", "-1"), ("bright".to_string(), true));
    assert_eq!(parse_failure("bright", ""), ("bright".to_string(), true));
    assert_eq!(parse_failure("ct", "65536"), ("ct".to_string(), true));
    assert_eq!(parse_failure("hue", "3 14"), ("hue".to_string(), true));
    assert_eq!(parse_failure("sat", "1e2"), ("sat".to_string(), true));
    assert_eq!(parse_failure("power", "ofon"), ("power".to_string(), false));
    assert_eq!(parse_failure("power", ""), ("power".to_string(), false));
    assert_eq!(parse_failure("power", "On"), ("power".to_string(), false));
    assert_eq!(parse_failure("color_mode", "55"), ("color_mode".to_string(), false));
    assert_eq!(parse_failure("rgb", "16777216"), ("rgb".to_string(), false));
    assert_eq!(parse_failure("rgb", "fsdkl"), ("rgb".to_string(), true));
}

#[test]
fn numbers_are_unsigned_decimals() {
    let mut map = get_map();
    map.insert("fw_ver", "+5");
    map.insert("bright", "007");
    map.insert("ct", "+0065535");
    map.insert("hue", "0");
    map.insert("sat", "000000000000000000000000000255");
    let light = Light::from_fields(&map).unwrap();
    assert_eq!(light.fw_ver(), 5);
    assert_eq!(light.bright(), 7);
    assert_eq!(light.ct(), 65535);
    assert_eq!(light.hue(), 0);
    assert_eq!(light.sat(), 255);

    for bad in ["", "+", "-", "++5", "+-5", "5+", "-0", "0x5", "5 ", " 5", "5.0", "\u{663}", "1_0"] {
        assert_eq!(parse_failure("fw_ver", bad), ("fw_ver".to_string(), true), "{:?}", bad);
        assert_eq!(parse_failure("hue", bad), ("hue".to_string(), true), "{:?}", bad);
    }
    assert_eq!(parse_failure("sat", "256"), ("sat".to_string(), true));
    assert_eq!(parse_failure("hue", "65536"), ("hue".to_string(), true));
    assert_eq!(parse_failure("hue", "99999999999999999999999"), ("hue".to_string(), true));
}

#[test]
fn values_at_the_edge_of_their_type_parse() {
    let mut map = get_map();
    map.insert("fw_ver", "255");
    map.insert("bright", "0");
    map.insert("ct", "65535");
    map.insert("hue", "65535");
    map.insert("sat", "255");
    map.insert("rgb", "16777215");
    let light = Light::from_fields(&map).unwrap();
    assert_eq!(light.fw_ver(), 255);
    assert_eq!(light.bright(), 0);
    assert_eq!(light.ct(), 65535);
    assert_eq!(light.hue(), 65535);
    assert_eq!(light.sat(), 255);
    assert_eq!(*light.rgb(), Rgb::new(255, 255, 255));
}

#[test]
fn location_must_be_an_ipv4_socket_address() {
    let mut map = get_map();
    for bad in [
        "http://127.0.0.1:13454",
        "127.0.0.1:13454",
        "",
        "Yeelight://127.0.0.1:13454",
        "yeelight:/127.0.0.1:13454",
        "yeelight://",
        "yeelight://127.0.0.1",
        "yeelight://127.0.0.1:",
        "yeelight://127.0.0.1:65536",
        "yeelight://127.0.0.256:80",
        "yeelight://127.0.1:80",
        "yeelight://[::1]:55443",
        "yeelight://localhost:55443",
        "yeelight://127.0.0.1:80 ",
    ] {
        assert_eq!(parse_failure("Location", bad), ("Location".to_string(), false), "{}", bad);
    }
    map.insert("Location", "see yeelight://192.168.2.24:55443");
    let light = Light::from_fields(&map).unwrap();
    assert_eq!(*light.location(), SocketAddrV4::new(Ipv4Addr::new(192, 168, 2, 24), 55443));
}

#[test]
fn with_location_takes_what_the_pattern_found() {
    let map = get_map();
    let light = Light::with_location(&map, Some("10.0.0.7:55443".to_string())).unwrap();
    assert_eq!(*light.location(), SocketAddrV4::new(Ipv4Addr::new(10, 0, 0, 7), 55443));
    assert_eq!(light.id(), "0x1234");

    // the field is there, but the pattern found nothing in it
    match Light::with_location(&map, None).err().unwrap() {
        YeeError::ParseFieldFailed { field_name, source } => {
            assert_eq!(field_name, "Location");
            assert!(source.is_none());
        }
        other => panic!("{:?}", other),
    }
    // the field is not there, whatever is handed in as found
    let mut without = get_map();
    without.remove("Location");
    for found in [None, Some("10.0.0.7:55443".to_string())] {
        match Light::with_location(&without, found).err().unwrap() {
            YeeError::FieldNotFound { field_name } => assert_eq!(field_name, "Location"),
            other => panic!("{:?}", other),
        }
    }
    match Light::with_location(&map, Some("10.0.0.7".to_string())).err().unwrap() {
        YeeError::ParseFieldFailed { field_name, source } => {
            assert_eq!(field_name, "Location");
            assert!(source.is_none());
        }
        other => panic!("{:?}", other),
    }
    // an earlier field that fails is reported before the location
    let mut map = get_map();
    map.remove("name");
    match Light::with_location(&map, None).err().unwrap() {
        YeeError::FieldNotFound { field_name } => assert_eq!(field_name, "name"),
        other => panic!("{:?}", other),
    }
}

#[test]
fn get_correct_support() {
    // given
    let map = get_map();
    let expected_fields: HashSet<String> =
        map.get("support").unwrap().split_whitespace().map(|s| s.to_string()).collect();

    // when
    let light = Light::from_fields(&map).unwrap();

    // then
    let support = light.support();
    assert_eq!(expected_fields.len(), support.len());
    for field in &expected_fields {
        assert!(support.contains(field));
    }
    assert!(!support.contains("toggle"));
    assert!(!support.contains(""));
    assert!(!support.contains(SUPPORT));
}

#[test]
fn support_is_split_at_any_white_space() {
    let light = light_supporting("  toggle\tset_rgb \u{a0} set_power\r\n toggle ");
    assert_eq!(light.support().len(), 3);
    assert!(light.supports("toggle"));
    assert!(light.supports("set_rgb"));
    assert!(light.supports("set_power"));
    assert!(!light.supports("set_bright"));

    let light = light_supporting("");
    assert_eq!(light.support().len(), 0);
    assert!(!light.supports("toggle"));
}

#[test]
fn correctly_connects() {
    // given
    let map = get_map();
    let addr = SocketAddrV4::new(Ipv4Addr::new(127, 0, 0, 1), 13454);

    // when
    let mut light = Light::from_fields(&map).unwrap();
    assert!(!light.is_ready());
    assert_eq!(light.init(), Some(addr));
    light.attach();

    // then
    assert!(light.is_ready());
    assert_eq!(light.init(), None);
    assert_eq!(*light.location(), addr);
    assert_eq!(light.id(), "0x1234");
}

#[test]
fn lights_are_equal_by_id() {
    let a = Light::from_fields(&get_map()).unwrap();
    let mut other = get_map();
    other.insert("model", "ceiling");
    other.insert("Location", "yeelight://10.1.1.1:1");
    let b = Light::from_fields(&other).unwrap();
    assert!(a == b);
    other.insert("id", "0x1235");
    let c = Light::from_fields(&other).unwrap();
    assert!(a != c);
}

fn method_not_supported(r: Result<Exchange, YeeError>) -> String {
    match r {
        Err(YeeError::MethodNotSupported { method_name }) => method_name.to_string(),
        other => panic!("{:?}", other),
    }
}

#[test]
fn every_command_is_gated_by_support() {
    let light = light_supporting("get_prop adjust_ct");
    let sudden = Transition::sudden();
    assert_eq!(method_not_supported(light.set_ct_abx(3500, sudden)), "set_ct_abx");
    assert_eq!(method_not_supported(light.set_rgb(Rgb::new(1, 2, 3), sudden)), "set_rgb");
    assert_eq!(method_not_supported(light.set_bright(50, sudden)), "set_bright");
    assert_eq!(method_not_supported(light.set_hsv(10, 10, sudden)), "set_hsv");
    assert_eq!(method_not_supported(light.set_power(PowerStatus::Off, sudden)), "set_power");
    assert_eq!(method_not_supported(light.toggle()), "toggle");
    match light.adjust_bright() {
        Err(YeeError::MethodNotSupported { method_name }) => assert_eq!(method_name, "adjust_bright"),
        other => panic!("{:?}", other),
    }
    // support is looked at before the ranges
    assert_eq!(method_not_supported(light.set_ct_abx(1, sudden)), "set_ct_abx");
    assert_eq!(method_not_supported(light.set_hsv(400, 200, sudden)), "set_hsv");
    // a name that only contains the method's name does not count
    let light = light_supporting("set_bright_now xtoggle set_rgb2");
    assert_eq!(method_not_supported(light.set_bright(50, sudden)), "set_bright");
    assert_eq!(method_not_supported(light.toggle()), "toggle");
    assert_eq!(method_not_supported(light.set_rgb(Rgb::empty(), sudden)), "set_rgb");
}

#[test]
fn adjust_bright_only_checks_support() {
    let light = full_light();
    assert!(light.adjust_bright().is_ok());
    assert_eq!(light.bright(), 34);
}

fn invalid_value(r: Result<Exchange, YeeError>) -> (String, String) {
    match r {
        Err(YeeError::InvalidValue { field_name, value }) => (field_name.to_string(), value),
        other => panic!("{:?}", other),
    }
}

#[test]
fn set_ct_out_of_range() {
    let light = light_supporting("set_ct_abx");
    let r = light.set_ct_abx(2699, Transition::Sudden);
    assert_eq!(invalid_value(r), ("ct".to_string(), "2699".to_string()));
    assert_eq!(light.ct(), 0);
}

#[test]
fn values_are_checked_against_the_protocol_ranges() {
    let light = full_light();
    let s = Transition::sudden();
    assert!(light.set_ct_abx(2700, s).is_ok());
    assert!(light.set_ct_abx(6500, s).is_ok());
    assert_eq!(invalid_value(light.set_ct_abx(6501, s)), ("ct".to_string(), "6501".to_string()));
    assert_eq!(invalid_value(light.set_ct_abx(0, s)), ("ct".to_string(), "0".to_string()));
    assert_eq!(invalid_value(light.set_ct_abx(1700, s)), ("ct".to_string(), "1700".to_string()));

    assert!(light.set_bright(1, s).is_ok());
    assert!(light.set_bright(100, s).is_ok());
    assert_eq!(invalid_value(light.set_bright(0, s)), ("bright".to_string(), "0".to_string()));
    assert_eq!(invalid_value(light.set_bright(101, s)), ("bright".to_string(), "101".to_string()));

    assert!(light.set_hsv(0, 0, s).is_ok());
    assert!(light.set_hsv(359, 100, s).is_ok());
    assert_eq!(invalid_value(light.set_hsv(360, 100, s)), ("hue".to_string(), "360".to_string()));
    assert_eq!(invalid_value(light.set_hsv(359, 101, s)), ("sat".to_string(), "101".to_string()));
    // the hue is checked first
    assert_eq!(invalid_value(light.set_hsv(400, 200, s)), ("hue".to_string(), "400".to_string()));

    assert!(light.set_rgb(Rgb::new(255, 255, 255), s).is_ok());
    assert!(light.set_power(PowerStatus::On, s).is_ok());
    assert!(light.toggle().is_ok());
}

#[test]
fn commands_go_on_the_wire_as_json_lines() {
    let light = full_light();
    let smooth = Transition::smooth(Duration::from_millis(500)).unwrap();
    let sudden = Transition::sudden();

    let ex = light.issue(Command::SetCtAbx { temperature: 3500, transition: sudden }, 1).unwrap();
    assert_eq!(ex.wire(), "{\"id\":1,\"method\":\"set_ct_abx\",\"params\":[3500,\"sudden\",0]}\r\n");

    let ex = light
        .issue(Command::SetRgb { rgb: Rgb::new(23, 42, 124), transition: smooth }, 23)
        .unwrap();
    assert_eq!(ex.wire(), "{\"id\":23,\"method\":\"set_rgb\",\"params\":[1518204,\"smooth\",500]}\r\n");

    let ex = light.issue(Command::SetBright { brightness: 100, transition: smooth }, 65535).unwrap();
    assert_eq!(
        ex.wire(),
        "{\"id\":65535,\"method\":\"set_bright\",\"params\":[100,\"smooth\",500]}\r\n"
    );

    let ex = light.issue(Command::SetHsv { hue: 359, sat: 100, transition: sudden }, 0).unwrap();
    assert_eq!(ex.wire(), "{\"id\":0,\"method\":\"set_hsv\",\"params\":[359,100,\"sudden\",0]}\r\n");

    let ex = light
        .issue(Command::SetPower { power: PowerStatus::Off, transition: smooth }, 9)
        .unwrap();
    assert_eq!(ex.wire(), "{\"id\":9,\"method\":\"set_power\",\"params\":[\"off\",\"smooth\",500]}\r\n");

    let ex = light.issue(Command::Toggle, 77).unwrap();
    assert_eq!(ex.wire(), "{\"id\":77,\"method\":\"toggle\",\"params\":[]}\r\n");
}

#[test]
fn command_requests() {
    let smooth = Transition::smooth(Duration::from_millis(40)).unwrap();
    let cmd = Command::SetHsv { hue: 12, sat: 34, transition: smooth };
    assert_eq!(cmd.method_name(), "set_hsv");
    assert!(cmd.validate().is_ok());
    let req = cmd.to_req(5);
    assert_eq!(req.id, 5);
    assert_eq!(req.method, "set_hsv");
    assert_eq!(
        req.params,
        vec![Param::Int(12), Param::Int(34), Param::Text("smooth".to_string()), Param::Int(40)]
    );

    let cmd = Command::SetPower { power: PowerStatus::On, transition: Transition::Sudden };
    assert_eq!(
        cmd.to_req(6).params,
        vec![Param::Text("on".to_string()), Param::Text("sudden".to_string()), Param::Int(0)]
    );
    assert_eq!(Command::Toggle.to_req(7).params, vec![]);
    assert_eq!(Command::Toggle.method_name(), "toggle");
}

#[test]
fn the_argument_methods_open_the_same_exchange_as_issue() {
    let light = full_light();
    let t = Transition::smooth(Duration::from_secs(1)).unwrap();
    let ex = light.set_bright(50, t).unwrap();
    assert_eq!(ex.command(), Command::SetBright { brightness: 50, transition: t });
    assert_eq!(ex.scratch(), "");
    assert!(!ex.answered());
    let again =
        light.issue(Command::SetBright { brightness: 50, transition: t }, ex.request().id).unwrap();
    assert_eq!(ex.wire(), again.wire());
    assert_eq!(ex.request(), again.request());

    let ex = light.toggle().unwrap();
    assert_eq!(ex.command(), Command::Toggle);
    assert_eq!(ex.request().method, "toggle");
    let ex = light.dispatch(Command::Toggle).unwrap();
    assert_eq!(ex.request().params.len(), 0);
}

fn done(step: Step) -> Result<(), YeeError> {
    match step {
        Step::Done(r) => r,
        Step::Pending(ex) => panic!("still pending: {:?}", ex),
    }
}

fn pending(step: Step) -> Exchange {
    match step {
        Step::Pending(ex) => ex,
        Step::Done(r) => panic!("done: {:?}", r),
    }
}

#[test]
fn a_reply_with_the_id_ends_the_command_and_updates_the_shadow() {
    let mut light = full_light();
    let ex = light.issue(Command::SetBright { brightness: 50, transition: Transition::Sudden }, 4321).unwrap();
    assert_eq!(light.bright(), 34);
    let r = done(light.receive(ex, "{\"id\":4321,\"result\":[\"ok\"]}\r\n"));
    assert!(r.is_ok());
    assert_eq!(light.bright(), 50);

    let ex = light.issue(Command::SetCtAbx { temperature: 2700, transition: Transition::Sudden }, 4).unwrap();
    assert!(done(light.receive(ex, "{\"id\":4,\"result\":[\"ok\"]}\r\n")).is_ok());
    assert_eq!(light.ct(), 2700);

    let ex = light.issue(Command::SetRgb { rgb: Rgb::new(9, 8, 7), transition: Transition::Sudden }, 5).unwrap();
    assert!(done(light.receive(ex, "{\"id\":5,\"result\":[\"ok\"]}\r\n")).is_ok());
    assert_eq!(*light.rgb(), Rgb::new(9, 8, 7));

    let ex = light.issue(Command::SetHsv { hue: 200, sat: 90, transition: Transition::Sudden }, 6).unwrap();
    assert!(done(light.receive(ex, "{\"id\":6,\"result\":[\"ok\"]}\r\n")).is_ok());
    assert_eq!((light.hue(), light.sat()), (200, 90));

    let ex = light.issue(Command::SetPower { power: PowerStatus::Off, transition: Transition::Sudden }, 7).unwrap();
    assert!(done(light.receive(ex, "{\"id\":7,\"result\":[\"ok\"]}\r\n")).is_ok());
    assert_eq!(*light.power(), PowerStatus::Off);

    let ex = light.issue(Command::Toggle, 8).unwrap();
    assert!(done(light.receive(ex, "{\"id\":8,\"result\":[\"ok\"]}\r\n")).is_ok());
    assert_eq!(*light.power(), PowerStatus::On);
    let ex = light.issue(Command::Toggle, 8).unwrap();
    assert!(done(light.receive(ex, "{\"id\":8,\"result\":[\"ok\"]}\r\n")).is_ok());
    assert_eq!(*light.power(), PowerStatus::Off);

    // everything that no command set is as the advertisement gave it
    assert_eq!(light.id(), "0x1234");
    assert_eq!(light.fw_ver(), 40);
    assert_eq!(*light.color_mode(), ColorMode::ColorTemperature);
    assert_eq!(light.bright(), 50);
}

#[test]
fn an_error_in_an_earlier_line_does_not_fail_the_command() {
    let mut light = full_light();
    let ex = light.issue(Command::Toggle, 30000).unwrap();
    let note = "{\"method\":\"props\",\"params\":{\"name\":\"error\",\"message\":\"x\"}}\r\n";
    let ex = pending(light.receive(ex, note));
    let r = done(light.receive(ex, "{\"id\":30000,\"result\":[\"ok\"]}\r\n"));
    assert!(r.is_ok());
    assert_eq!(*light.power(), PowerStatus::Off);

    // the message is taken from the reply, not from what came before it
    let ex = light.issue(Command::Toggle, 30001).unwrap();
    let ex = pending(light.receive(ex, "{\"method\":\"props\",\"params\":{\"message\":\"earlier\"}}\r\n"));
    match done(light.receive(ex, "{\"id\":30001,\"error\":{\"code\":-1,\"message\":\"later\"}}\r\n")) {
        Err(YeeError::ChangeFailed { message }) => assert_eq!(message, "\"message\":\"later\""),
        other => panic!("{:?}", other),
    }
    assert_eq!(*light.power(), PowerStatus::Off);
}

#[test]
fn notifications_are_skipped_but_kept() {
    let mut light = full_light();
    let ex = light.issue(Command::Toggle, 30000).unwrap();
    let note = "{\"method\":\"props\",\"params\":{\"power\":\"off\"}}\r\n";
    let ex = pending(light.receive(ex, note));
    assert_eq!(ex.scratch(), note);
    assert!(!ex.answered());
    assert_eq!(*light.power(), PowerStatus::On);
    let ex = pending(light.receive(ex, ""));
    let ex = pending(light.receive(ex, "{\"method\":\"props\",\"params\":{\"bright\":3000}}\r\n"));
    assert_eq!(*light.power(), PowerStatus::On);
    let r = done(light.receive(ex, "{\"id\":30000,\"result\":[\"ok\"]}\r\n"));
    assert!(r.is_ok());
    assert_eq!(*light.power(), PowerStatus::Off);
}

#[test]
fn the_id_may_arrive_in_pieces() {
    let mut light = full_light();
    let ex = light.issue(Command::SetBright { brightness: 7, transition: Transition::Sudden }, 123).unwrap();
    let ex = pending(light.receive(ex, "{\"id\":12"));
    assert_eq!(light.bright(), 34);
    assert!(done(light.receive(ex, "3,\"result\":[\"ok\"]}")).is_ok());
    assert_eq!(light.bright(), 7);
}

#[test]
fn error_reply_propagation() {
    let mut light = full_light();
    let ex = light.set_bright(50, Transition::Sudden).unwrap();
    let id = ex.request().id;
    let reply =
        format!("{{\"id\":{},\"error\":{{\"code\":-1,\"message\":\"client quota exceeded\"}}}}\r\n", id);
    match done(light.receive(ex, &reply)) {
        Err(YeeError::ChangeFailed { message }) => {
            assert!(message.contains("\"message\":\"client quota exceeded\""));
            assert_eq!(message, "\"message\":\"client quota exceeded\"");
        }
        other => panic!("{:?}", other),
    }
    assert_eq!(light.bright(), 34);
}

#[test]
fn a_failed_command_leaves_every_field() {
    let mut light = full_light();
    for (n, command) in [
        Command::SetCtAbx { temperature: 3000, transition: Transition::Sudden },
        Command::SetRgb { rgb: Rgb::new(1, 1, 1), transition: Transition::Sudden },
        Command::SetBright { brightness: 99, transition: Transition::Sudden },
        Command::SetHsv { hue: 1, sat: 1, transition: Transition::Sudden },
        Command::SetPower { power: PowerStatus::Off, transition: Transition::Sudden },
        Command::Toggle,
    ]
    .into_iter()
    .enumerate()
    {
        let ex = light.issue(command, 500 + n as u16).unwrap();
        let reply = format!("{{\"id\":{},\"error\":{{\"code\":-1}}}}\r\n", 500 + n);
        match done(light.receive(ex, &reply)) {
            Err(YeeError::ChangeFailed { message }) => assert_eq!(message, ""),
            other => panic!("{:?}", other),
        }
        assert_eq!(light.ct(), 0);
        assert_eq!(*light.rgb(), Rgb::new(10, 10, 10));
        assert_eq!(light.bright(), 34);
        assert_eq!((light.hue(), light.sat()), (314, 12));
        assert_eq!(*light.power(), PowerStatus::On);
        assert_eq!(*light.color_mode(), ColorMode::ColorTemperature);
        assert_eq!(light.name(), "room_light");
    }
}

#[test]
fn the_reply_decides_how_the_command_ended() {
    match reply_outcome("an error occurred", Some("boom".to_string())) {
        Err(YeeError::ChangeFailed { message }) => assert_eq!(message, "boom"),
        other => panic!("{:?}", other),
    }
    match reply_outcome("error", None) {
        Err(YeeError::ChangeFailed { message }) => assert_eq!(message, ""),
        other => panic!("{:?}", other),
    }
    // without the word, what the pattern found counts for nothing
    assert!(reply_outcome("{\"id\":1,\"result\":[\"ok\"]}", Some("boom".to_string())).is_ok());
    assert!(reply_outcome("", None).is_ok());
    assert!(reply_outcome("Error", None).is_ok());
}

#[test]
fn exchange_accumulates_lines() {
    let mut ex = full_light().issue(Command::Toggle, 42).unwrap();
    assert_eq!(ex.scratch(), "");
    assert!(!ex.answered());
    ex.push_line("abc\r\n");
    ex.push_line("4");
    assert_eq!(ex.scratch(), "abc\r\n4");
    assert!(!ex.answered());
    ex.push_line("2");
    assert!(ex.answered());
    assert_eq!(ex.request().id, 42);
    assert_eq!(ex.command(), Command::Toggle);
}
