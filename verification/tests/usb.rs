use cablescope::usb::guid::parse_guid;
use cablescope::usb::hubs::format_usb_version;
use cablescope::usb::nodes::DeviceNode;
use cablescope::usb::{filter_scan_for_hub, full_scan, HubReading, UsbController, UsbDevice, UsbPort, UsbSnapshot};

fn node(instance: &str, parent: Option<&str>, service: &str, friendly: &str) -> DeviceNode {
    DeviceNode {
        instance_id: instance.to_string(),
        parent_id: parent.map(|p| p.to_string()),
        service: service.to_string(),
        location: "Port_#0001.Hub_#0002".to_string(),
        manufacturer: String::new(),
        description: String::new(),
        friendly_name: friendly.to_string(),
        compatible_ids: String::new(),
    }
}

#[test]
fn scan_devices_contain_no_hubs() {
    // Simulated machine: a root hub, an external hub (USBHUB3 driver) and two
    // peripherals. None of the devices of the scan may be a hub.
    let hubs = vec![HubReading {
        hub_path: "\\\\?\\usb#root_hub30#4&1a2b&0&0#{f18a0e88-c30c-11d0-81e9-00a0c91eeb34}".to_string(),
        port_count: 2,
        port_status: vec![Some(0x0001), Some(0x0000)],
    }];
    let nodes = vec![
        node("USB\\ROOT_HUB30\\4&1A2B&0&0", Some("PCI\\VEN_8086&DEV_A36D\\3&11583659&0&A0"), "USBHUB3", "Concentrateur USB racine (USB 3.0)"),
        node("USB\\VID_2109&PID_0822\\6&1B2B7D3C&0&0", Some("USB\\ROOT_HUB30\\4&1A2B&0&0"), "USBHUB3", "Generic USB Hub"),
        node("USB\\VID_046D&PID_C08B\\5&ABC&0&1", Some("USB\\ROOT_HUB30\\4&1A2B&0&0"), "HidUsb", "USB Input Device"),
        node("USB\\VID_2717&PID_FF08\\XYZ", Some("USB\\VID_2109&PID_0822\\6&1B2B7D3C&0&0"), "WUDFWpdMtp", ""),
    ];
    let snap = full_scan(hubs, nodes, 0);
    if snap.devices.is_empty() {
        return;
    }
    for d in &snap.devices {
        let lower = d.friendly_name.to_lowercase();
        assert!(
            !lower.contains("concentrateur") && !lower.contains("generic usb hub"),
            "hub leaked into devices: {}",
            d.friendly_name
        );
    }
}

#[test]
fn parse_guid_valid() {
    let g = parse_guid("{f18a0e88-c30c-11d0-81e9-00a0c91eeb34}").expect("should parse");
    assert_eq!(g.data1, 0xf18a0e88);
    assert_eq!(g.data2, 0xc30c);
    assert_eq!(g.data3, 0x11d0);
    assert_eq!(g.data4, [0x81, 0xe9, 0x00, 0xa0, 0xc9, 0x1e, 0xeb, 0x34]);
}

#[test]
fn parse_guid_accepts_no_braces() {
    let g = parse_guid("00000000-0000-0000-0000-000000000000").expect("should parse");
    assert_eq!(g.data1, 0);
    assert_eq!(g.data4, [0u8; 8]);
}

#[test]
fn parse_guid_rejects_invalid() {
    assert!(parse_guid("").is_none());
    assert!(parse_guid("not-a-guid").is_none());
    assert!(parse_guid("{1234}").is_none());
    assert!(parse_guid("{f18a0e88-c30c-11d0-81e9-00a0c91eeb3}").is_none()); // too short
}

#[test]
fn format_usb_version_cases() {
    assert_eq!(format_usb_version(0x0200), "2.0");
    assert_eq!(format_usb_version(0x0310), "3.1");
    assert_eq!(format_usb_version(0x0201), "2.0.1");
    assert_eq!(format_usb_version(0x0110), "1.1");
}

#[test]
fn filter_scan_for_hub_keeps_only_target_controller() {
    // Simulated snapshot: two controllers with ports, and devices linked
    // to ports on both controllers.
    let make_port = |ctrl: &str, hub_path: &str, port: u32, connected: bool| UsbPort {
        id: format!("{}:{}", hub_path, port),
        controller_name: ctrl.to_string(),
        hub_path: hub_path.to_string(),
        port_number: port,
        connected,
        speed: String::new(),
        speed_value: 0,
        device_address: 0,
        open_pipes: 0,
        status: String::new(),
    };
    let make_device = |port_id: &str, friendly: &str, hub: &str| UsbDevice {
        port_id: port_id.to_string(),
        hub_name: hub.to_string(),
        friendly_name: friendly.to_string(),
        ..Default::default()
    };

    let snap = UsbSnapshot {
        controllers: vec![
            UsbController { name: "hub_a".into(), hub_path: "path_a".into(), port_count: 3 },
            UsbController { name: "hub_b".into(), hub_path: "path_b".into(), port_count: 2 },
        ],
        ports: vec![
            make_port("hub_a", "path_a", 1, true),
            make_port("hub_a", "path_a", 2, false),
            make_port("hub_b", "path_b", 1, true),
        ],
        devices: vec![
            make_device("path_a:1", "POCO X7", "hub_a"),
            make_device("path_a:2", "Caméra (port vide mais device lié)", "hub_a"),
            make_device("path_b:1", "Souris", "hub_b"),
        ],
        scan_time: String::new(),
    };

    // Filter for hub_a: keeps both of its ports, plus both devices whose
    // port_id belongs to hub_a — even the one on a disconnected port.
    let result = filter_scan_for_hub(snap.clone(), "hub_a");
    assert_eq!(result.ports.len(), 2);
    assert_eq!(result.devices.len(), 2);
    assert!(result.ports.iter().all(|p| p.controller_name == "hub_a"));
    assert!(result.devices.iter().all(|d| d.hub_name == "hub_a"));

    // Filter for hub_b: only its port and its device.
    let result_b = filter_scan_for_hub(snap.clone(), "hub_b");
    assert_eq!(result_b.ports.len(), 1);
    assert_eq!(result_b.devices.len(), 1);
    assert_eq!(result_b.devices[0].friendly_name, "Souris");

    // Unknown controller: empty result, no panic.
    let result_empty = filter_scan_for_hub(snap.clone(), "hub_unknown");
    assert!(result_empty.ports.is_empty());
    assert!(result_empty.devices.is_empty());
}
