use noise_cymk::govee::capabilities::Capabilities;
use noise_cymk::govee::device::{
    brightness_request, color_request, power_request, ControlError, CONTROL_PORT,
};
use noise_cymk::govee::protocol::{cmd, Payload, RequestMessage};

#[test]
fn brightness_clamps_to_100() {
    let m = RequestMessage::brightness("ABC", 250);
    match m.msg {
        Payload::Brightness(b) => assert_eq!(b.value, 100),
        _ => panic!(),
    }
}

#[test]
fn brightness_in_range_is_kept() {
    let m = RequestMessage::brightness("ABC", 42);
    match m.msg {
        Payload::Brightness(b) => {
            assert_eq!(b.value, 42);
            assert_eq!(b.id, "ABC");
        }
        _ => panic!(),
    }
    match RequestMessage::brightness("ABC", 100).msg {
        Payload::Brightness(b) => assert_eq!(b.value, 100),
        _ => panic!(),
    }
}

#[test]
fn constructors_fill_fields() {
    assert!(matches!(RequestMessage::scan().msg, Payload::Scan(_)));
    match RequestMessage::dev_status("DEV1").msg {
        Payload::DevStatus(d) => assert_eq!(d.id, "DEV1"),
        _ => panic!(),
    }
    match RequestMessage::turn("ABC123", true).msg {
        Payload::Turn(t) => {
            assert_eq!(t.id, "ABC123");
            assert_eq!(t.value, 1);
        }
        _ => panic!(),
    }
    match RequestMessage::turn("ABC123", false).msg {
        Payload::Turn(t) => assert_eq!(t.value, 0),
        _ => panic!(),
    }
    assert!(matches!(RequestMessage::turn_off("ABC").msg, Payload::TurnOff));
    match RequestMessage::color("ABC", 255, 128, 0).msg {
        Payload::Color(c) => {
            assert_eq!(c.id, "ABC");
            assert_eq!((c.r, c.g, c.b), (255, 128, 0));
        }
        _ => panic!(),
    }
    match RequestMessage::color_wc("ABC", 10, 20, 30, 6500).msg {
        Payload::ColorWc(c) => {
            assert_eq!((c.r, c.g, c.b), (10, 20, 30));
            assert_eq!(c.colorTemInKelvin, 6500);
        }
        _ => panic!(),
    }
}

#[test]
fn command_names_match_the_lan_spec() {
    assert_eq!(cmd::SCAN, "scan");
    assert_eq!(cmd::DEVS_STATUS, "devStatus");
    assert_eq!(cmd::TURN, "turn");
    assert_eq!(cmd::TURN_OFF, "turnOff");
    assert_eq!(cmd::BRIGHTNESS, "brightness");
    assert_eq!(cmd::COLOR, "color");
    assert_eq!(cmd::COLOR_WC, "colorwc");
    assert_eq!(CONTROL_PORT, 4003);
}

#[test]
fn known_skus_resolve() {
    let c = Capabilities::for_sku("H6046");
    assert!(c.color_rgb);
    assert!(!c.color_wc);
    assert!(!c.segments_via_lan);
}

#[test]
fn unknown_sku_falls_back_safely() {
    let c = Capabilities::for_sku("H9999");
    // Conservative defaults: basic stuff yes, fancier features no.
    assert!(c.power);
    assert!(c.brightness);
    assert!(c.color_rgb);
    assert!(!c.color_wc);
    assert!(!c.segments_via_lan);
}

#[test]
fn h610a_supports_colorwc() {
    let c = Capabilities::for_sku("H610A");
    assert!(c.color_wc);
}

#[test]
fn sku_descriptions_and_colorwc() {
    let bars = Capabilities::for_sku("H6046");
    assert_eq!(bars.sku, "H6046");
    assert_eq!(bars.description, "Govee RGBIC LED Light Bars");
    let strip = Capabilities::for_sku("H610A");
    assert_eq!(strip.description, "Govee RGBIC LED Strip");
    let tv = Capabilities::for_sku("H6609");
    assert!(tv.color_wc);
    assert_eq!(tv.description, "Govee TV Backlight 3 Lite");
    let other = Capabilities::for_sku("h6046");
    assert_eq!(other.sku, "h6046");
    assert!(!other.color_wc);
    assert_eq!(other.description, "Unknown Govee SKU (conservative defaults)");
    let empty = Capabilities::for_sku("");
    assert_eq!(empty.description, "Unknown Govee SKU (conservative defaults)");
}

fn no_caps(sku: &str) -> Capabilities {
    let mut c = Capabilities::for_sku(sku);
    c.power = false;
    c.brightness = false;
    c.color_rgb = false;
    c.color_wc = false;
    c
}

#[test]
fn power_requests_follow_capabilities() {
    let caps = Capabilities::for_sku("H6046");
    match power_request("192.168.1.50", true, &caps).unwrap().msg {
        Payload::Turn(t) => {
            assert_eq!(t.id, "192.168.1.50");
            assert_eq!(t.value, 1);
        }
        _ => panic!(),
    }
    assert!(matches!(
        power_request("192.168.1.50", false, &caps).unwrap().msg,
        Payload::TurnOff
    ));
    let err = power_request("192.168.1.50", true, &no_caps("H9999")).unwrap_err();
    assert!(matches!(err, ControlError::PowerUnsupported { .. }));
    assert_eq!(err.message(), "SKU H9999 does not support power over LAN");
}

#[test]
fn brightness_requests_follow_capabilities() {
    let caps = Capabilities::for_sku("H610A");
    match brightness_request("10.0.0.2", 180, &caps).unwrap().msg {
        Payload::Brightness(b) => {
            assert_eq!(b.id, "10.0.0.2");
            assert_eq!(b.value, 100);
        }
        _ => panic!(),
    }
    let err = brightness_request("10.0.0.2", 50, &no_caps("H1")).unwrap_err();
    assert_eq!(err.message(), "SKU H1 does not support brightness over LAN");
}

#[test]
fn color_requests_pick_colorwc_only_with_kelvin() {
    let strip = Capabilities::for_sku("H610A");
    match color_request("ip", 1, 2, 3, &strip, Some(2700)).unwrap().msg {
        Payload::ColorWc(c) => {
            assert_eq!(c.colorTemInKelvin, 2700);
            assert_eq!((c.r, c.g, c.b), (1, 2, 3));
        }
        _ => panic!(),
    }
    assert!(matches!(
        color_request("ip", 1, 2, 3, &strip, None).unwrap().msg,
        Payload::Color(_)
    ));
    let bars = Capabilities::for_sku("H6046");
    assert!(matches!(
        color_request("ip", 1, 2, 3, &bars, Some(2700)).unwrap().msg,
        Payload::Color(_)
    ));
    let mut wc_only = no_caps("HX");
    wc_only.color_wc = true;
    assert!(matches!(
        color_request("ip", 1, 2, 3, &wc_only, Some(5000)).unwrap().msg,
        Payload::ColorWc(_)
    ));
    let err = color_request("ip", 1, 2, 3, &wc_only, None).unwrap_err();
    assert_eq!(err.message(), "SKU HX has neither color nor colorwc capability");
}
