use cablescope::usb::guid::{default_hub_guid, hub_guids, parse_guid, parse_guid_panics};
use cablescope::usb::hubs::{
    controller_for, hub_key_from_dev_instance, hub_key_from_service_path, is_root_hub_interface,
    port_from_status, port_id, ports_in_node_info, unique_hub_paths,
};
use cablescope::usb::monitor::{window_proc, WindowAction};
use cablescope::usb::nodes::{collect_devices, device_location_port, parse_device_class, read_node, DeviceNode};
use cablescope::usb::{filter_scan_for_hub, full_scan, HubReading, UsbSnapshot};

const ROOT: &str = "\\\\?\\usb#root_hub30#4&1a2b&0&0#{f18a0e88-c30c-11d0-81e9-00a0c91eeb34}";
const EXT: &str = "\\\\?\\usb#vid_2109&pid_0822#6&1b2b7d3c&0&0#{f18a0e88-c30c-11d0-81e9-00a0c91eeb34}";

fn node(instance: &str, parent: Option<&str>, service: &str, location: &str) -> DeviceNode {
    DeviceNode {
        instance_id: instance.to_string(),
        parent_id: parent.map(|p| p.to_string()),
        service: service.to_string(),
        location: location.to_string(),
        manufacturer: "Maker".to_string(),
        description: String::new(),
        friendly_name: String::new(),
        compatible_ids: String::new(),
    }
}

#[test]
fn hub_paths_merge_in_order_without_repeats() {
    let raw = vec!["b".to_string(), "a".to_string(), String::new(), "b".to_string(), "c".to_string(), "a".to_string()];
    assert_eq!(unique_hub_paths(raw), vec!["b".to_string(), "a".to_string(), "c".to_string()]);
    assert!(unique_hub_paths(vec![]).is_empty());
}

#[test]
fn root_hub_interface_names() {
    assert!(is_root_hub_interface("##?#USB#ROOT_HUB30#4&1a2b&0&0#{f18a0e88-c30c-11d0-81e9-00a0c91eeb34}"));
    assert!(is_root_hub_interface("##?#usb#root_hub#4&1a2b"));
    assert!(!is_root_hub_interface("##?#USB#VID_046D&PID_C08B#5&abc"));
    assert!(!is_root_hub_interface("usb#Root_Hub"));
}

#[test]
fn controller_names_and_hubs_without_ports() {
    let c = controller_for(&"\\\\.\\usb#root_hub30#5&239a9e6d&0&0#{guid}".to_string(), 4).expect("has ports");
    assert_eq!(c.name, "root_hub30 (5&239a9e6d&0&0)");
    assert_eq!(c.port_count, 4);
    let short = controller_for(&"hub#only".to_string(), 2).expect("has ports");
    assert_eq!(short.name, "hub#only");
    assert!(controller_for(&"hub#a#b".to_string(), 0).is_none());
}

#[test]
fn port_speed_from_status_bits() {
    let path = "p".to_string();
    let name = "n".to_string();
    let cases: [(u32, u32, &str, bool); 7] = [
        (0x1001, 4, "SuperSpeed", true),
        (0x2000, 4, "SuperSpeed", false),
        (0x0401, 3, "High Speed", true),
        (0x0201, 1, "Low Speed", true),
        (0x0001, 2, "Full Speed", true),
        (0x0000, 0, "Unknown", false),
        (0x0600, 3, "High Speed", false),
    ];
    for (status, rank, label, connected) in cases {
        let p = port_from_status(&path, &name, 7, status);
        assert_eq!(p.speed_value, rank, "status {:#x}", status);
        assert_eq!(p.speed, label);
        assert_eq!(p.connected, connected);
        assert_eq!(p.status, if connected { "Connected" } else { "No Device" });
        assert_eq!(p.id, "p:7");
        assert_eq!(p.port_number, 7);
    }
    assert_eq!(port_id(&"x:y".to_string(), 12), "x:y:12");
}

#[test]
fn node_information_port_count() {
    let mut buf = [0u8; 16];
    buf[6] = 10;
    assert_eq!(ports_in_node_info(&buf), 10);
}

#[test]
fn hub_keys_of_path_and_instance_agree() {
    let from_path = hub_key_from_service_path(EXT).expect("has pieces");
    assert_eq!(from_path, "vid_2109&pid_0822#6&1b2b7d3c&0&0");
    assert_eq!(hub_key_from_dev_instance("USB\\VID_2109&PID_0822\\6&1B2B7D3C&0&0"), from_path);
    assert_eq!(hub_key_from_service_path(ROOT).as_deref(), Some("root_hub30#4&1a2b&0&0"));
    assert_eq!(hub_key_from_dev_instance("USB\\ROOT_HUB30\\4&1A2B&0&0"), "root_hub30#4&1a2b&0&0");
    assert_eq!(hub_key_from_service_path("\\\\?\\usb#{guid}"), None);
    assert_eq!(hub_key_from_service_path("nohash"), None);
    assert_eq!(hub_key_from_dev_instance("PCI\\VEN_8086"), "pci#ven_8086");
}

#[test]
fn location_port_is_last_marker() {
    assert_eq!(device_location_port("Port_#0004.Hub_#0010"), 4);
    assert_eq!(device_location_port("Port_#0001.Hub_#0002.Port_#0003"), 3);
    assert_eq!(device_location_port("Hub_#0010"), 0);
    assert_eq!(device_location_port(""), 0);
    // A marker without digits, or whose number does not fit, is skipped.
    assert_eq!(device_location_port("Port_#0002.Port_#"), 2);
    assert_eq!(device_location_port("Port_#0002.Port_#99999999999"), 2);
}

#[test]
fn device_class_from_compatible_ids() {
    assert_eq!(parse_device_class("USB\\Class_09&SubClass_00&Prot_00"), 9);
    assert_eq!(parse_device_class("USB\\DevClass_EF&SubClass_02"), 0xEF);
    assert_eq!(parse_device_class("USB\\ Class_FF &SubClass_00"), 0xFF);
    assert_eq!(parse_device_class("USB\\SubClass_00&Prot_00"), 0);
    assert_eq!(parse_device_class("USB\\Class_ZZ&Class_03"), 3);
    assert_eq!(parse_device_class(""), 0);
}

#[test]
fn reading_device_nodes() {
    let mouse = node("USB\\VID_046D&PID_C08B\\2019ABC", Some("USB\\ROOT_HUB30\\4&1A2B&0&0"), "HidUsb", "Port_#0002.Hub_#0001");
    let (d, hub, port, function) = read_node(&mouse).expect("a peripheral");
    assert_eq!((d.vid, d.pid), (0x046D, 0xC08B));
    assert_eq!(d.serial, "2019ABC");
    assert_eq!(d.friendly_name, "Logitech G502 HERO");
    assert_eq!(d.manufacturer, "Maker");
    assert_eq!(hub, "USB\\ROOT_HUB30\\4&1A2B&0&0");
    assert_eq!(port, 2);
    assert!(!function);
    assert!(d.port_id.is_empty());

    // More than two `&`-pieces, counting those of the serial, mark a function.
    let (d2, _, _, function_amp) = read_node(&node("USB\\VID_046D&PID_C08B\\5&ABC&0&1", None, "", "")).unwrap();
    assert_eq!(d2.serial, "5&ABC&0&1");
    assert!(function_amp);

    let function_node = node("USB\\VID_046D&PID_C08B&MI_01\\6&XYZ", None, "HidUsb", "");
    let (_, hub2, _, function2) = read_node(&function_node).expect("parent unknown: kept");
    assert!(function2);
    assert_eq!(hub2, "");

    // Not USB peripherals.
    assert!(read_node(&node("USB\\ROOT_HUB30\\4&1A2B", Some("PCI\\X"), "USBHUB3", "")).is_none());
    assert!(read_node(&node("USB\\VID_046D&PID_C08B\\1", Some("PCI\\VEN_8086"), "HidUsb", "")).is_none());
    assert!(read_node(&node("USB\\VID_2109&PID_0822\\1", Some("USB\\ROOT"), "usbhub3", "")).is_none());
    assert!(read_node(&node("USB\\VID_2109&PID_0822\\1", Some("USB\\ROOT"), "USBHub", "")).is_none());
    assert!(read_node(&node("USB\\VID_XYZ&PID_0822\\1", None, "", "")).is_none());
    assert!(read_node(&node("USB\\VID_046D&MI_00\\1", None, "", "")).is_none());
    assert!(read_node(&node("HID\\VID_046D&PID_C08B\\1", None, "", "")).is_none());
}

#[test]
fn display_name_choice() {
    let mut n = node("USB\\VID_DEAD&PID_BEEF\\1", None, "", "");
    n.description = "USB Composite Device".to_string();
    assert_eq!(read_node(&n).unwrap().0.friendly_name, "USB Device DEAD:BEEF");
    n.description = "Périphérique USB composite".to_string();
    assert_eq!(read_node(&n).unwrap().0.friendly_name, "USB Device DEAD:BEEF");
    n.description = "Gamepad".to_string();
    assert_eq!(read_node(&n).unwrap().0.friendly_name, "Gamepad");
    n.friendly_name = "My Pad".to_string();
    assert_eq!(read_node(&n).unwrap().0.friendly_name, "My Pad");
}

#[test]
fn composite_functions_collapse_into_parent() {
    let mut parent = node("USB\\VID_046D&PID_C08B\\P1", None, "", "Port_#0003.Hub_#0001");
    parent.friendly_name = "Parent".to_string();
    let mut function = node("USB\\VID_046D&PID_C08B&MI_00\\F1", None, "", "Port_#0009.Hub_#0001");
    function.friendly_name = "Function".to_string();
    let mut other = node("USB\\VID_2717&PID_FF08\\X", None, "", "");
    other.friendly_name = "Phone".to_string();

    // A function seen after its parent does not replace it.
    let list = collect_devices(&vec![parent.clone_node(), function.clone_node(), other.clone_node()]);
    assert_eq!(list.len(), 2);
    assert_eq!(list[0].0.friendly_name, "Parent");
    assert_eq!(list[0].2, 3);
    assert_eq!(list[1].0.friendly_name, "Phone");

    // A parent seen after a function replaces it, in the function's place.
    let list = collect_devices(&vec![function.clone_node(), other.clone_node(), parent.clone_node()]);
    assert_eq!(list.len(), 2);
    assert_eq!(list[0].0.friendly_name, "Parent");
    assert_eq!(list[1].0.friendly_name, "Phone");
}

trait CloneNode {
    fn clone_node(&self) -> DeviceNode;
}

impl CloneNode for DeviceNode {
    fn clone_node(&self) -> DeviceNode {
        DeviceNode {
            instance_id: self.instance_id.clone(),
            parent_id: self.parent_id.clone(),
            service: self.service.clone(),
            location: self.location.clone(),
            manufacturer: self.manufacturer.clone(),
            description: self.description.clone(),
            friendly_name: self.friendly_name.clone(),
            compatible_ids: self.compatible_ids.clone(),
        }
    }
}

#[test]
fn full_scan_links_devices_to_ports() {
    let hubs = vec![
        HubReading { hub_path: ROOT.to_string(), port_count: 2, port_status: vec![Some(0x0001), None] },
        HubReading { hub_path: "\\\\?\\usb#dead#0#{x}".to_string(), port_count: 0, port_status: vec![] },
        HubReading { hub_path: EXT.to_string(), port_count: 3, port_status: vec![Some(0x0000), Some(0x0401), Some(0x1001)] },
    ];
    let mut phone = node("USB\\VID_2717&PID_FF08\\X", Some("USB\\VID_2109&PID_0822\\6&1B2B7D3C&0&0"), "WUDFWpdMtp", "Port_#0003.Hub_#0005");
    phone.compatible_ids = "USB\\Class_FF&SubClass_42".to_string();
    let nodes = vec![
        node("USB\\VID_2109&PID_0822\\6&1B2B7D3C&0&0", Some("USB\\ROOT_HUB30\\4&1A2B&0&0"), "USBHUB3", "Port_#0001.Hub_#0001"),
        phone,
        node("USB\\VID_291A&PID_4021\\C", Some("USB\\VID_FFFF&PID_0001\\9"), "", "Port_#0001"),
    ];
    let snap = full_scan(hubs, nodes, 1_700_000_000);

    assert_eq!(snap.controllers.len(), 2);
    assert_eq!(snap.controllers[0].name, "root_hub30 (4&1a2b&0&0)");
    assert_eq!(snap.controllers[1].name, "vid_2109&pid_0822 (6&1b2b7d3c&0&0)");
    let ids: Vec<&str> = snap.ports.iter().map(|p| p.id.as_str()).collect();
    assert_eq!(ids, vec![format!("{}:1", ROOT), format!("{}:1", EXT), format!("{}:2", EXT), format!("{}:3", EXT)]);
    assert_eq!(snap.ports[3].speed, "SuperSpeed");
    assert_eq!(snap.ports[1].controller_name, snap.controllers[1].name);

    assert_eq!(snap.devices.len(), 2);
    let phone = &snap.devices[0];
    assert_eq!(phone.friendly_name, "Xiaomi POCO X7");
    assert_eq!(phone.hub_name, snap.controllers[1].name);
    assert_eq!(phone.port_number, 3);
    assert_eq!(phone.port_id, snap.ports[3].id);
    assert_eq!(phone.power_role, "charging");
    assert_eq!(phone.device_class, 0xFF);

    // The charger's hub is not one of the controllers: it stays unplaced.
    let charger = &snap.devices[1];
    assert_eq!(charger.port_id, "");
    assert_eq!(charger.hub_name, "");
    assert_eq!(charger.port_number, 0);
    assert_eq!(charger.power_role, "source");

    assert_eq!(snap.scan_time, "22:13:20 UTC");
}

#[test]
fn window_messages() {
    match window_proc(0x0219, 0x8000, 3661) {
        WindowAction::Handled(Some(e)) => {
            assert_eq!(e.event_type, "connected");
            assert_eq!(e.timestamp, "01:01:01");
        }
        _ => panic!("arrival must be reported"),
    }
    match window_proc(0x0219, 0x8004, 0) {
        WindowAction::Handled(Some(e)) => assert_eq!(e.event_type, "disconnected"),
        _ => panic!("removal must be reported"),
    }
    assert!(matches!(window_proc(0x0219, 0x0007, 0), WindowAction::Handled(None)));
    assert!(matches!(window_proc(0x0219, 0x1_0000_8000, 0), WindowAction::Handled(Some(_))));
    assert!(matches!(window_proc(0x0001, 0x8000, 0), WindowAction::PassOn));
}

#[test]
fn guid_reading_edges() {
    let g = default_hub_guid();
    assert_eq!(g.data1, 0xf18a0e88);
    let fallback = hub_guids(vec![]);
    assert_eq!(fallback.len(), 1);
    assert_eq!(fallback[0].data2, 0xc30c);
    let found = hub_guids(vec![parse_guid("00000000-0000-0000-0000-000000000001").unwrap()]);
    assert_eq!(found.len(), 1);
    assert_eq!(found[0].data4[7], 1);
    assert_eq!(g.data4, [0x81, 0xe9, 0x00, 0xa0, 0xc9, 0x1e, 0xeb, 0x34]);
    let braced = parse_guid("{f18a0e88-c30c-11d0-81e9-00a0c91eeb34}").unwrap();
    let bare = parse_guid("f18a0e88-c30c-11d0-81e9-00a0c91eeb34").unwrap();
    assert_eq!((braced.data1, braced.data2, braced.data3, braced.data4), (bare.data1, bare.data2, bare.data3, bare.data4));
    let spaced = parse_guid("  {{F18A0E88-C30C-11D0-81E9-00A0C91EEB34}}\n").unwrap();
    assert_eq!(spaced.data1, 0xf18a0e88);
    assert!(parse_guid("{f18a0e88-c30c-11d0-81e9-00a0c91eeb34-00}").is_none());
    assert!(parse_guid("{1f18a0e88-c30c-11d0-81e9-00a0c91eeb34}").is_none());
    assert!(parse_guid("{f18a0e88-c30c-11d0-81e9-00a0c91eebzz}").is_none());
    assert!(parse_guid("{+18a0e88-+30c-11d0-81e9-00a0c91eeb34}").is_some());
    // A two-byte character that a two-byte slice would cut in half.
    assert!(parse_guid_panics("00000000-0000-0000-0000-000000000é0"));
    assert!(!parse_guid_panics("00000000-0000-0000-0000-00000000000é"));
    assert!(parse_guid("00000000-0000-0000-0000-00000000000é").is_none());
    assert!(!parse_guid_panics("{f18a0e88-c30c-11d0-81e9-00a0c91eeb34}"));
}

#[test]
fn scan_structure_and_refiltering() {
    let hubs = vec![
        HubReading { hub_path: ROOT.to_string(), port_count: 2, port_status: vec![Some(0x0001), None] },
        HubReading { hub_path: EXT.to_string(), port_count: 3, port_status: vec![Some(0x0000), Some(0x0401), Some(0x1001)] },
    ];
    let phone = node("USB\\VID_2717&PID_FF08\\X", Some("USB\\VID_2109&PID_0822\\6&1B2B7D3C&0&0"), "", "Port_#0002.Hub_#0005");
    let snap = full_scan(hubs, vec![phone], 0);
    for p in &snap.ports {
        let c = snap.controllers.iter().find(|c| c.name == p.controller_name && c.hub_path == p.hub_path).expect("owner");
        assert!(1 <= p.port_number && p.port_number <= c.port_count);
        assert_eq!(p.id, format!("{}:{}", p.hub_path, p.port_number));
    }
    assert_ne!(snap.controllers[0].hub_path, snap.controllers[1].hub_path);

    let name = snap.controllers[1].name.clone();
    let first = filter_scan_for_hub(snap, &name);
    assert_eq!(first.ports.len(), 3);
    assert_eq!(first.devices.len(), 1);
    let again = |n: &str| {
        filter_scan_for_hub(
            UsbSnapshot { controllers: vec![], ports: first.ports.clone(), devices: first.devices.clone(), scan_time: String::new() },
            n,
        )
    };
    let same = again(&name);
    let ids = |v: &Vec<cablescope::usb::UsbPort>| v.iter().map(|p| p.id.clone()).collect::<Vec<_>>();
    assert_eq!(ids(&same.ports), ids(&first.ports));
    assert_eq!(same.devices.len(), 1);
    assert_eq!(same.devices[0].port_id, first.devices[0].port_id);
    let other = again("root_hub30 (4&1a2b&0&0)");
    assert!(other.ports.is_empty() && other.devices.is_empty());
}

#[test]
fn formatted_guids_read_back() {
    let data4 = [0x81u8, 0xe9, 0x00, 0xa0, 0xc9, 0x1e, 0xeb, 0x34];
    let s = format!(
        "{{{:08x}-{:04x}-{:04x}-{:02x}{:02x}-{:02x}{:02x}{:02x}{:02x}{:02x}{:02x}}}",
        0x0f18a0e8u32, 0x0c30u16, 0x11d0u16, data4[0], data4[1], data4[2], data4[3], data4[4], data4[5], data4[6], data4[7]
    );
    for text in [s.clone(), s.to_uppercase(), s[1..s.len() - 1].to_string()] {
        let g = parse_guid(&text).expect("formatted GUID");
        assert_eq!((g.data1, g.data2, g.data3, g.data4), (0x0f18a0e8, 0x0c30, 0x11d0, data4), "{}", text);
    }
}
