use cablescope::devices::{db_stats, lookup, lookup_cable, power_role};

#[test]
fn lookup_known_specific_device() {
    // Xbox Series controller (USB-C)
    let d = lookup(0x045E, 0x0B12);
    assert_eq!(d.name, "Xbox Series Controller (USB-C)");
    assert_eq!(d.manufacturer, "Microsoft");
}

#[test]
fn lookup_known_vendor_fallback() {
    // Logitech mouse — no specific PID entry, falls back to vendor
    let d = lookup(0x046D, 0xC08B);
    assert_eq!(d.manufacturer, "Logitech");
    assert!(!d.category.is_empty());
}

#[test]
fn lookup_apple_cable_has_cable_category() {
    let d = lookup(0x05AC, 0x1238);
    assert_eq!(d.category, "Cable");
    assert_eq!(d.name, "Apple Thunderbolt 4 Pro (1m)");
}

#[test]
fn chargers_are_power_sources_and_poco_cable_resolves() {
    assert_eq!(lookup(0x291A, 0x4021).category, "Charger");
    assert_eq!(power_role(0x291A, 0x4021, 0x00), "source");
    assert_eq!(lookup(0x2717, 0xFF15).category, "Charger");
    // Xiaomi/POCO cables resolve as Cable and carry the POCO user cable.
    assert_eq!(lookup(0x2717, 0x0003).name, "POCO X7 USB-C Cable");
    assert_eq!(lookup(0x2717, 0x0003).category, "Cable");
}

#[test]
fn looking_up_real_machine_devices() {
    assert_eq!(lookup(0x2717, 0xFF08).name, "Xiaomi POCO X7");
    assert_eq!(lookup(0x041E, 0x40A1).name, "Creative Live! Cam Sync 1080p V2");
    assert_eq!(lookup(0x13D3, 0x3571).name, "Realtek Bluetooth Adapter");
    assert_eq!(lookup(0x046D, 0xC08B).name, "Logitech G502 HERO");
    assert_eq!(power_role(0x2717, 0xFF08, 0xFF), "charging");
}

#[test]
fn power_role_classification() {
    // 2717 = Xiaomi (mobile → charging), 291A = Anker (charger → source),
    // 046D = Logitech (mouse → no power role).
    assert_eq!(lookup(0x2717, 0x0000).category, "Mobile");
    assert_eq!(power_role(0x2717, 0x0000, 0xFF), "charging");
    assert_eq!(power_role(0x291A, 0x0000, 0x00), "source");
    assert_eq!(power_role(0x046D, 0x0000, 0x00), "");
    // Real USB class: a hub (class 0x09) is treated as a power/port source.
    assert_eq!(power_role(0x0000, 0x0000, 0x09), "hub");
    // Webcam/camera category is recognized as a consumer device.
    assert_eq!(power_role(0x041E, 0x40A1, 0x00), "camera");
}

#[test]
fn lookup_unknown_returns_vidpid() {
    let d = lookup(0xDEAD, 0xBEEF);
    assert_eq!(d.name, "USB Device DEAD:BEEF");
    assert_eq!(d.category, "Unknown");
    assert_eq!(d.manufacturer, "");
}

#[test]
fn lookup_cable_returns_details() {
    let c = lookup_cable(0x291A, 0x0003).expect("Anker 240W EPR cable");
    assert_eq!(c.max_watts, 240);
    assert!(c.speed.contains("20 Gbps"), "speed: {}", c.speed);
    assert_eq!(c.cable_type, "Passive");
    assert!(lookup_cable(0xDEAD, 0xBEEF).is_none());
}

#[test]
fn db_stats_meet_targets() {
    let (v, d, c, total) = db_stats();
    assert!(v >= 160, "vendors >= 160, got {}", v);
    assert!(d >= 200, "devices >= 200, got {}", d);
    assert!(c >= 50, "cables >= 50, got {}", c);
    assert_eq!(total, v + d + c);
}

#[test]
fn vendor_names_prefer_canonical_entries() {
    // First entry "QinHeng (CH340)", later canonical "CH340/CH341": canonical wins.
    assert_eq!(lookup(0x1A86, 0xFFFE).manufacturer, "CH340/CH341");
    // Every entry carries a suffix: the first stays.
    assert_eq!(lookup(0x0A5C, 0xFFFE).manufacturer, "Apple (Broadcom)");
    // Two canonical entries: the first stays.
    assert_eq!(lookup(0x2D95, 0xFFFE).manufacturer, "Realme");
    assert_eq!(lookup(0x1A86, 0xFFFE).name, "CH340/CH341 Device (1A86:FFFE)");
}

#[test]
fn hub_class_is_always_a_hub_role() {
    assert_eq!(power_role(0x291A, 0x4021, 0x09), "hub");
    assert_eq!(power_role(0xDEAD, 0xBEEF, 0x09), "hub");
    assert_eq!(power_role(0xDEAD, 0xBEEF, 0x00), "");
}

#[test]
fn every_cable_is_well_formed() {
    use_cable_table();
}

fn use_cable_table() {
    let (_, _, cables, _) = db_stats();
    assert_eq!(cables, 68);
    for e in cablescope::device_db::CABLE_TABLE.iter() {
        let c = lookup_cable(e.0, e.1).expect("listed cable");
        assert!(!c.name.is_empty() && !c.speed.is_empty());
        assert!(["Passive", "Active", "Hub"].contains(&c.cable_type));
        assert!((15..=240).contains(&c.max_watts));
    }
}

#[test]
fn lookup_categories_and_manufacturers() {
    for (vid, pid) in [(0x05AC, 0x1234), (0x05AC, 0x12AB), (0x045E, 0x0B12), (0x046D, 0xFFFE), (0xDEAD, 0xBEEF), (0x2717, 0x0003)] {
        let r = lookup(vid, pid);
        assert_eq!(r.category == "Cable", lookup_cable(vid, pid).is_some(), "{:04X}:{:04X}", vid, pid);
        assert_eq!(r.manufacturer.is_empty(), r.category == "Unknown");
        assert!(!r.name.is_empty() && !r.category.is_empty());
    }
}
