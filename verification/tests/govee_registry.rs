use noise_cymk::commands::{list_devices, lookup, preview_sample};
use noise_cymk::govee::diagnostics::assemble_report;
use noise_cymk::govee::discovery::{apply_scan_event, ScanEvent};
use noise_cymk::govee::{DeviceRegistry, LanDevice, LanDeviceDto};

fn reply(device: &str, sku: &str, ip: &str, seen_ns: u64) -> ScanEvent {
    ScanEvent::Reply {
        device: device.to_string(),
        sku: sku.to_string(),
        ip: ip.to_string(),
        seen_ns,
    }
}

#[test]
fn scan_replies_fill_the_registry() {
    let mut reg = DeviceRegistry::new();
    assert!(apply_scan_event(&mut reg, reply("AA:BB", "H6046", "192.168.1.50", 5)));
    assert!(apply_scan_event(&mut reg, ScanEvent::Unparseable));
    assert!(apply_scan_event(&mut reg, reply("CC:DD", "H610A", "192.168.1.51", 6)));
    assert_eq!(reg.len(), 2);
    let d = reg.get("AA:BB").unwrap();
    assert_eq!(d.sku, "H6046");
    assert_eq!(d.ip, "192.168.1.50");
    assert_eq!(d.last_seen_ns, 5);
    assert_eq!(d.friendly_name, "");
    assert!(d.power.is_none() && d.brightness.is_none() && d.color.is_none());
    assert!(!d.capabilities.color_wc);
    assert!(reg.get("CC:DD").unwrap().capabilities.color_wc);
    assert!(reg.get("EE:FF").is_none());
    assert!(!apply_scan_event(&mut reg, ScanEvent::TimedOut));
    assert!(!apply_scan_event(&mut reg, ScanEvent::ReceiveFailed));
    assert_eq!(reg.len(), 2);
}

#[test]
fn reinserting_an_id_replaces_its_record() {
    let mut reg = DeviceRegistry::default();
    let first = LanDevice::from_scan("ID1".into(), "H6046".into(), "10.0.0.1".into(), 1);
    assert!(reg.insert(first).is_none());
    let second = LanDevice::from_scan("ID1".into(), "H610A".into(), "10.0.0.9".into(), 2);
    let old = reg.insert(second).unwrap();
    assert_eq!(old.ip, "10.0.0.1");
    assert_eq!(reg.len(), 1);
    assert_eq!(reg.get("ID1").unwrap().ip, "10.0.0.9");
    assert_eq!(reg.get("ID1").unwrap().sku, "H610A");
    let other = LanDevice::from_scan("ID2".into(), "H6609".into(), "10.0.0.3".into(), 3);
    assert!(reg.insert(other).is_none());
    assert_eq!(reg.len(), 2);
    assert_eq!(reg.devices()[0].id, "ID1");
    assert_eq!(reg.devices()[1].id, "ID2");
}

#[test]
fn device_list_has_one_online_row_per_device() {
    let mut reg = DeviceRegistry::new();
    apply_scan_event(&mut reg, reply("A", "H6046", "1.2.3.4", 0));
    apply_scan_event(&mut reg, reply("B", "H9999", "1.2.3.5", 0));
    let rows = list_devices(&reg);
    assert_eq!(rows.len(), 2);
    assert_eq!(rows[0].id, "A");
    assert_eq!(rows[0].ip, "1.2.3.4");
    assert!(rows[0].online);
    assert_eq!(rows[0].description, "Govee RGBIC LED Light Bars");
    assert_eq!(rows[1].description, "Unknown Govee SKU (conservative defaults)");
}

#[test]
fn lookup_reports_unknown_ids() {
    let mut reg = DeviceRegistry::new();
    apply_scan_event(&mut reg, reply("A", "H610A", "1.2.3.4", 0));
    let (ip, caps) = lookup(&reg, "A").unwrap();
    assert_eq!(ip, "1.2.3.4");
    assert!(caps.color_wc);
    assert_eq!(lookup(&reg, "Z").unwrap_err(), "unknown device id: Z");
}

#[test]
fn dto_is_online_within_a_minute() {
    let d = LanDevice::from_scan("A".into(), "H6046".into(), "1.2.3.4".into(), 1_000_000_000);
    let fresh = LanDeviceDto::from_device(&d, 1_000_000_000 + 59_999_999_999);
    assert_eq!(fresh.last_seen_ms_ago, 59_999);
    assert!(fresh.online);
    let stale = LanDeviceDto::from_device(&d, 1_000_000_000 + 60_000_000_000);
    assert_eq!(stale.last_seen_ms_ago, 60_000);
    assert!(!stale.online);
    let clock_behind = LanDeviceDto::from_device(&d, 0);
    assert_eq!(clock_behind.last_seen_ms_ago, 0);
    assert!(clock_behind.online);
}

#[test]
fn preview_sample_is_fixed_purple() {
    let z = preview_sample(vec![[0, 0, 10, 10], [5, 5, 1, 1]]);
    assert_eq!(z.len(), 1);
    assert_eq!((z[0].r, z[0].g, z[0].b), (128, 64, 192));
}

#[test]
fn silent_device_report() {
    let r = assemble_report("127.0.0.1".to_string(), None, None, None);
    assert_eq!(r.ip, "127.0.0.1");
    assert!(r.arp_visible);
    assert!(!r.scan_multicast_received);
    assert!(!r.unicast_4001_received);
    assert!(!r.unicast_4003_received);
    assert!(r.raw_responses.is_empty());
    assert!(r.verdict.contains("No reply"));
    assert!(r.verdict.contains("Firewall on the PC"));
}

#[test]
fn answering_device_report() {
    let r = assemble_report(
        "192.168.1.50".to_string(),
        None,
        Some("{\"msg\":{\"cmd\":\"scan\"}}".to_string()),
        Some("ok".to_string()),
    );
    assert!(!r.scan_multicast_received);
    assert!(r.unicast_4001_received);
    assert!(r.unicast_4003_received);
    assert_eq!(
        r.raw_responses,
        vec![
            "4001/scan: {\"msg\":{\"cmd\":\"scan\"}}".to_string(),
            "4003/devStatus: ok".to_string()
        ]
    );
    assert_eq!(r.verdict, "Govee LAN listener is open — discovery should work.");
}
