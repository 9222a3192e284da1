use noise_cymk::capture::CaptureError;
use noise_cymk::effects::cmyk::channel_for_device;
use noise_cymk::effects::scheduler::{frame_interval_ms, next_action, FrameAction, FrameEvent};
use noise_cymk::effects::screen_sync::{apply, is_screen_sync, ScreenSyncState, ZoneMapping};
use noise_cymk::effects::solid::step;
use noise_cymk::effects::{ColorZone, Effect, Rgb};

#[test]
fn channel_routing_is_deterministic() {
    assert_eq!(channel_for_device(0), 'C');
    assert_eq!(channel_for_device(1), 'M');
    assert_eq!(channel_for_device(2), 'Y');
    assert_eq!(channel_for_device(3), 'K');
    assert_eq!(channel_for_device(4), 'C'); // wraps
}

#[test]
fn channel_routing_cycles_every_four_devices() {
    for i in 0..64usize {
        assert_eq!(channel_for_device(i), channel_for_device(i + 4));
    }
    assert_eq!(channel_for_device(usize::MAX), 'K');
}

#[test]
fn applies_zones_to_devices() {
    let zones = vec![
        ColorZone { r: 255, g: 0, b: 0 },
        ColorZone { r: 0, g: 255, b: 0 },
    ];
    let mappings = vec![
        ZoneMapping {
            device_id: "A".into(),
            zone_index: 0,
        },
        ZoneMapping {
            device_id: "B".into(),
            zone_index: 1,
        },
    ];
    let out = apply(&zones, &mappings);
    assert_eq!(out.len(), 2);
    assert_eq!(out[0].0, "A");
    assert_eq!(out[0].1.r, 255);
    assert_eq!(out[1].1.g, 255);
}

#[test]
fn missing_zone_is_skipped() {
    let zones = vec![ColorZone { r: 1, g: 2, b: 3 }];
    let mappings = vec![ZoneMapping {
        device_id: "A".into(),
        zone_index: 99,
    }];
    let out = apply(&zones, &mappings);
    assert!(out.is_empty());
}

#[test]
fn apply_keeps_mapping_order_and_shares_zones() {
    let zones = vec![ColorZone { r: 9, g: 8, b: 7 }];
    let mappings = vec![
        ZoneMapping { device_id: "X".into(), zone_index: 3 },
        ZoneMapping { device_id: "Y".into(), zone_index: 0 },
        ZoneMapping { device_id: "Z".into(), zone_index: 0 },
    ];
    let out = apply(&zones, &mappings);
    assert_eq!(out.len(), 2);
    assert_eq!(out[0].0, "Y");
    assert_eq!(out[1].0, "Z");
    assert_eq!(out[1].1.b, 7);
    let state = ScreenSyncState::default();
    assert!(state.mappings.is_empty() && state.zones.is_empty());
}

#[test]
fn detects_screen_sync() {
    assert!(is_screen_sync(&Effect::ScreenSync));
    assert!(!is_screen_sync(&Effect::Solid {
        color: Rgb(1, 2, 3)
    }));
    assert!(!is_screen_sync(&Effect::Rainbow { period_ms: 10 }));
}

#[test]
fn solid_returns_input() {
    let e = Effect::Solid { color: Rgb(10, 20, 30) };
    assert_eq!(step(&e, 0), Some(Rgb(10, 20, 30)));
    assert_eq!(step(&e, 999_999), Some(Rgb(10, 20, 30)));
}

#[test]
fn non_solid_returns_none() {
    assert_eq!(step(&Effect::ScreenSync, 0), None);
    assert_eq!(
        step(&Effect::Breathing { color: Rgb(1, 1, 1), period_ms: 5 }, 0),
        None
    );
}

#[test]
fn frame_interval_follows_fps() {
    assert_eq!(frame_interval_ms(30), 33);
    assert_eq!(frame_interval_ms(60), 16);
    assert_eq!(frame_interval_ms(1), 1000);
    assert_eq!(frame_interval_ms(0), 1000);
    assert_eq!(frame_interval_ms(5000), 0);
}

#[test]
fn loop_decisions() {
    let zones = vec![ColorZone { r: 1, g: 2, b: 3 }, ColorZone { r: 4, g: 5, b: 6 }];
    match next_action(&FrameEvent::Zones(zones)) {
        FrameAction::Push(z) => assert_eq!((z.r, z.g, z.b), (1, 2, 3)),
        other => panic!("{:?}", other),
    }
    match next_action(&FrameEvent::Zones(vec![])) {
        FrameAction::Push(z) => assert_eq!((z.r, z.g, z.b), (0, 0, 0)),
        other => panic!("{:?}", other),
    }
    assert!(matches!(
        next_action(&FrameEvent::CaptureFailed(CaptureError::Timeout)),
        FrameAction::SkipFrame
    ));
    assert!(matches!(
        next_action(&FrameEvent::CaptureFailed(CaptureError::DxgiLost)),
        FrameAction::Backoff { ms: 100 }
    ));
    assert!(matches!(
        next_action(&FrameEvent::StopRequested),
        FrameAction::Exit
    ));
}
