//! USB topology: controllers (hubs), their ports and the devices plugged into
//! them, and the pure steps that turn what the system reports into a snapshot.

use crate::devices::{power_role, power_role_spec};
use crate::logger::{chrono_free, clock_text};
use crate::text::{chars_eq, chars_of, push_str};
use hubs::{
    controller_for, controller_view, dev_instance_key, hub_display_name, hub_key_from_dev_instance,
    hub_key_from_service_path, port_from_status, port_id, port_id_text, port_view,
    service_path_key,
};
use nodes::{collect_devices, collected, entry_view, node_reading, DeviceNode, Entry, NodeView};

pub mod guid;
pub mod hubs;
pub mod monitor;
pub mod nodes;
use vstd::prelude::*;

verus! {

/// A USB hub interface that has at least one port.
#[derive(Debug, Clone)]
pub struct UsbController {
    pub name: String,
    pub hub_path: String,
    pub port_count: u32,
}

/// One port of a hub.
#[derive(Debug, Clone)]
pub struct UsbPort {
    pub id: String,
    pub controller_name: String,
    pub hub_path: String,
    pub port_number: u32,
    pub connected: bool,
    pub speed: String,
    pub speed_value: u32,
    pub device_address: u32,
    pub open_pipes: u32,
    pub status: String,
}

/// A USB peripheral (hubs excluded).
#[derive(Debug, Clone)]
pub struct UsbDevice {
    pub port_id: String,
    pub power_role: String,
    pub vid: u16,
    pub pid: u16,
    pub bcd_usb: u16,
    pub bcd_device: u16,
    pub device_class: u8,
    pub device_subclass: u8,
    pub device_protocol: u8,
    pub max_packet_size: u8,
    pub manufacturer: String,
    pub product: String,
    pub serial: String,
    pub hub_name: String,
    pub port_number: u32,
    pub driver_key: String,
    pub friendly_name: String,
    pub device_class_name: String,
    pub usb_version: String,
    pub speed: String,
}

/// Everything a full scan found.
#[derive(Debug, Clone)]
pub struct UsbSnapshot {
    pub controllers: Vec<UsbController>,
    pub ports: Vec<UsbPort>,
    pub devices: Vec<UsbDevice>,
    pub scan_time: String,
}

/// Subset of a snapshot limited to one controller (targeted re-scan).
#[derive(Debug, Clone)]
pub struct HubScan {
    pub ports: Vec<UsbPort>,
    pub devices: Vec<UsbDevice>,
}

/// Abstract value of a `UsbController`.
pub struct ControllerView {
    pub name: Seq<char>,
    pub hub_path: Seq<char>,
    pub port_count: u32,
}

/// Abstract value of a `UsbPort`.
pub struct PortView {
    pub id: Seq<char>,
    pub controller_name: Seq<char>,
    pub hub_path: Seq<char>,
    pub port_number: u32,
    pub connected: bool,
    pub speed: Seq<char>,
    pub speed_value: u32,
    pub device_address: u32,
    pub open_pipes: u32,
    pub status: Seq<char>,
}

/// Abstract value of a `UsbDevice`.
pub struct DeviceView {
    pub port_id: Seq<char>,
    pub power_role: Seq<char>,
    pub vid: u16,
    pub pid: u16,
    pub bcd_usb: u16,
    pub bcd_device: u16,
    pub device_class: u8,
    pub device_subclass: u8,
    pub device_protocol: u8,
    pub max_packet_size: u8,
    pub manufacturer: Seq<char>,
    pub product: Seq<char>,
    pub serial: Seq<char>,
    pub hub_name: Seq<char>,
    pub port_number: u32,
    pub driver_key: Seq<char>,
    pub friendly_name: Seq<char>,
    pub device_class_name: Seq<char>,
    pub usb_version: Seq<char>,
    pub speed: Seq<char>,
}

impl View for UsbController {
    type V = ControllerView;

    open spec fn view(&self) -> ControllerView {
        ControllerView { name: self.name@, hub_path: self.hub_path@, port_count: self.port_count }
    }
}

impl View for UsbPort {
    type V = PortView;

    open spec fn view(&self) -> PortView {
        PortView {
            id: self.id@,
            controller_name: self.controller_name@,
            hub_path: self.hub_path@,
            port_number: self.port_number,
            connected: self.connected,
            speed: self.speed@,
            speed_value: self.speed_value,
            device_address: self.device_address,
            open_pipes: self.open_pipes,
            status: self.status@,
        }
    }
}

impl View for UsbDevice {
    type V = DeviceView;

    open spec fn view(&self) -> DeviceView {
        DeviceView {
            port_id: self.port_id@,
            power_role: self.power_role@,
            vid: self.vid,
            pid: self.pid,
            bcd_usb: self.bcd_usb,
            bcd_device: self.bcd_device,
            device_class: self.device_class,
            device_subclass: self.device_subclass,
            device_protocol: self.device_protocol,
            max_packet_size: self.max_packet_size,
            manufacturer: self.manufacturer@,
            product: self.product@,
            serial: self.serial@,
            hub_name: self.hub_name@,
            port_number: self.port_number,
            driver_key: self.driver_key@,
            friendly_name: self.friendly_name@,
            device_class_name: self.device_class_name@,
            usb_version: self.usb_version@,
            speed: self.speed@,
        }
    }
}

/// The view of a device whose every field is empty or zero.
pub open spec fn empty_device_view() -> DeviceView {
    DeviceView {
        port_id: Seq::empty(),
        power_role: Seq::empty(),
        vid: 0,
        pid: 0,
        bcd_usb: 0,
        bcd_device: 0,
        device_class: 0,
        device_subclass: 0,
        device_protocol: 0,
        max_packet_size: 0,
        manufacturer: Seq::empty(),
        product: Seq::empty(),
        serial: Seq::empty(),
        hub_name: Seq::empty(),
        port_number: 0,
        driver_key: Seq::empty(),
        friendly_name: Seq::empty(),
        device_class_name: Seq::empty(),
        usb_version: Seq::empty(),
        speed: Seq::empty(),
    }
}

impl Default for UsbDevice {
    fn default() -> (d: UsbDevice)
        ensures
            d@ == empty_device_view(),
    {
        UsbDevice {
            port_id: String::new(),
            power_role: String::new(),
            vid: 0,
            pid: 0,
            bcd_usb: 0,
            bcd_device: 0,
            device_class: 0,
            device_subclass: 0,
            device_protocol: 0,
            max_packet_size: 0,
            manufacturer: String::new(),
            product: String::new(),
            serial: String::new(),
            hub_name: String::new(),
            port_number: 0,
            driver_key: String::new(),
            friendly_name: String::new(),
            device_class_name: String::new(),
            usb_version: String::new(),
            speed: String::new(),
        }
    }
}

impl Default for UsbPort {
    fn default() -> (p: UsbPort)
        ensures
            p@ == (PortView {
                id: Seq::empty(),
                controller_name: Seq::empty(),
                hub_path: Seq::empty(),
                port_number: 0,
                connected: false,
                speed: Seq::empty(),
                speed_value: 0,
                device_address: 0,
                open_pipes: 0,
                status: Seq::empty(),
            }),
    {
        UsbPort {
            id: String::new(),
            controller_name: String::new(),
            hub_path: String::new(),
            port_number: 0,
            connected: false,
            speed: String::new(),
            speed_value: 0,
            device_address: 0,
            open_pipes: 0,
            status: String::new(),
        }
    }
}

impl Default for UsbSnapshot {
    fn default() -> (s: UsbSnapshot)
        ensures
            s.controllers@.len() == 0,
            s.ports@.len() == 0,
            s.devices@.len() == 0,
            s.scan_time@.len() == 0,
    {
        UsbSnapshot {
            controllers: Vec::new(),
            ports: Vec::new(),
            devices: Vec::new(),
            scan_time: String::new(),
        }
    }
}

// ─── Targeted re-scan ──────────────────────────────────────────────

/// The device is plugged into one of `ports` (its port ID is one of theirs).
pub open spec fn linked_to_any(d: UsbDevice, ports: Seq<UsbPort>) -> bool {
    exists|j: int| 0 <= j < ports.len() && (#[trigger] ports[j]).id@ == d.port_id@
}

/// A filter that every element passes keeps the sequence as it is.
proof fn lemma_filter_keeps_all<A>(s: Seq<A>, p: spec_fn(A) -> bool)
    requires
        forall|i: int| 0 <= i < s.len() ==> p(#[trigger] s[i]),
    ensures
        s.filter(p) == s,
    decreases s.len(),
{
    reveal_with_fuel(Seq::<_>::filter, 1);
    if s.len() > 0 {
        assert forall|i: int| 0 <= i < s.drop_last().len() implies p(#[trigger] s.drop_last()[i]) by {
            assert(s.drop_last()[i] == s[i]);
        }
        lemma_filter_keeps_all(s.drop_last(), p);
        assert(p(s[s.len() - 1]));
        assert(s.drop_last().push(s.last()) =~= s);
    }
}

/// A filter that no element passes leaves nothing.
proof fn lemma_filter_keeps_none<A>(s: Seq<A>, p: spec_fn(A) -> bool)
    requires
        forall|i: int| 0 <= i < s.len() ==> !p(#[trigger] s[i]),
    ensures
        s.filter(p).len() == 0,
    decreases s.len(),
{
    reveal_with_fuel(Seq::<_>::filter, 1);
    if s.len() > 0 {
        assert forall|i: int| 0 <= i < s.drop_last().len() implies !p(#[trigger] s.drop_last()[i]) by {
            assert(s.drop_last()[i] == s[i]);
        }
        lemma_filter_keeps_none(s.drop_last(), p);
        assert(!p(s[s.len() - 1]));
    }
}

/// Re-filtering: the ports and devices that `filter_scan_for_hub` keeps for
/// `name`, filtered again for `name`, are kept whole; filtered for any other
/// name, nothing is kept, neither ports nor devices.
pub proof fn lemma_refilter(
    ports: Seq<UsbPort>,
    devices: Seq<UsbDevice>,
    name: Seq<char>,
    other: Seq<char>,
)
    ensures
        ({
            let kp = ports.filter(|p: UsbPort| p.controller_name@ == name);
            let kd = devices.filter(|d: UsbDevice| linked_to_any(d, kp));
            &&& kp.filter(|p: UsbPort| p.controller_name@ == name) == kp
            &&& kd.filter(
                |d: UsbDevice| linked_to_any(d, kp.filter(|p: UsbPort| p.controller_name@ == name)),
            ) == kd
            &&& other != name ==> kp.filter(|p: UsbPort| p.controller_name@ == other).len() == 0
            &&& other != name ==> kd.filter(
                |d: UsbDevice| linked_to_any(d, kp.filter(|p: UsbPort| p.controller_name@ == other)),
            ).len() == 0
        }),
{
    broadcast use vstd::seq_lib::group_filter_ensures;

    let pn = |p: UsbPort| p.controller_name@ == name;
    let po = |p: UsbPort| p.controller_name@ == other;
    let kp = ports.filter(pn);
    let dl = |d: UsbDevice| linked_to_any(d, kp);
    let kd = devices.filter(dl);
    assert forall|i: int| 0 <= i < kp.len() implies pn(#[trigger] kp[i]) by {
        ports.lemma_filter_pred(pn, i);
    }
    lemma_filter_keeps_all(kp, pn);
    assert(kp.filter(|p: UsbPort| p.controller_name@ == name) == kp);
    assert forall|i: int| 0 <= i < kd.len() implies dl(#[trigger] kd[i]) by {
        devices.lemma_filter_pred(dl, i);
    }
    assert(kd.filter(|d: UsbDevice| linked_to_any(d, kp.filter(|p: UsbPort| p.controller_name@ == name)))
        == kd.filter(dl));
    lemma_filter_keeps_all(kd, dl);
    if other != name {
        assert forall|i: int| 0 <= i < kp.len() implies !po(#[trigger] kp[i]) by {
            ports.lemma_filter_pred(pn, i);
        }
        lemma_filter_keeps_none(kp, po);
        let none = kp.filter(po);
        let dn = |d: UsbDevice| linked_to_any(d, none);
        assert forall|i: int| 0 <= i < kd.len() implies !dn(#[trigger] kd[i]) by {}
        lemma_filter_keeps_none(kd, dn);
        assert(kd.filter(|d: UsbDevice| linked_to_any(d, kp.filter(|p: UsbPort| p.controller_name@ == other)))
            == kd.filter(dn));
    }
}

/// Whether some port of `ports` has the ID `port_id`.
fn has_port_id(ports: &Vec<UsbPort>, port_id: &String) -> (r: bool)
    ensures
        r == exists|j: int| 0 <= j < ports@.len() && (#[trigger] ports@[j]).id@ == port_id@,
{
    let mut j: usize = 0;
    while j < ports.len()
        invariant
            j <= ports@.len(),
            forall|k: int| 0 <= k < j ==> (#[trigger] ports@[k]).id@ != port_id@,
        decreases ports.len() - j,
    {
        if ports[j].id == *port_id {
            return true;
        }
        j = j + 1;
    }
    false
}

/// Filters a snapshot down to one controller: its ports, plus the devices
/// linked to those ports (matched by port ID), both in snapshot order.
pub fn filter_scan_for_hub(snap: UsbSnapshot, name: &str) -> (r: HubScan)
    ensures
        r.ports@ == snap.ports@.filter(|p: UsbPort| p.controller_name@ == name@),
        r.devices@ == snap.devices@.filter(|d: UsbDevice| linked_to_any(d, r.ports@)),
{
    let UsbSnapshot { controllers: _, ports: all_ports, devices: all_devices, scan_time: _ } =
        snap;
    let ghost port_pred = |p: UsbPort| p.controller_name@ == name@;
    let target = chars_of(name);
    let n = all_ports.len();
    let mut rest = all_ports;
    let mut ports: Vec<UsbPort> = Vec::new();
    let mut i: usize = 0;
    while rest.len() > 0
        invariant
            i <= snap.ports@.len(),
            n == snap.ports@.len(),
            rest@ == snap.ports@.skip(i as int),
            ports@ == snap.ports@.take(i as int).filter(port_pred),
            target@ == name@,
            port_pred == (|p: UsbPort| p.controller_name@ == name@),
        decreases rest.len(),
    {
        let p = rest.remove(0);
        proof {
            reveal_with_fuel(Seq::<_>::filter, 1);
            assert(snap.ports@.take(i + 1).drop_last() =~= snap.ports@.take(i as int));
            assert(snap.ports@.skip(i + 1) =~= snap.ports@.skip(i as int).drop_first());
        }
        if chars_eq(&chars_of(p.controller_name.as_str()), &target) {
            ports.push(p);
        }
        i = i + 1;
    }
    proof {
        assert(snap.ports@.take(i as int) =~= snap.ports@);
    }
    let ghost dev_pred = |d: UsbDevice| linked_to_any(d, ports@);
    let m = all_devices.len();
    let mut rest_devices = all_devices;
    let mut devices: Vec<UsbDevice> = Vec::new();
    let mut i: usize = 0;
    while rest_devices.len() > 0
        invariant
            i <= snap.devices@.len(),
            m == snap.devices@.len(),
            rest_devices@ == snap.devices@.skip(i as int),
            devices@ == snap.devices@.take(i as int).filter(dev_pred),
            dev_pred == (|d: UsbDevice| linked_to_any(d, ports@)),
        decreases rest_devices.len(),
    {
        let d = rest_devices.remove(0);
        proof {
            reveal_with_fuel(Seq::<_>::filter, 1);
            assert(snap.devices@.take(i + 1).drop_last() =~= snap.devices@.take(i as int));
            assert(snap.devices@.skip(i + 1) =~= snap.devices@.skip(i as int).drop_first());
        }
        if has_port_id(&ports, &d.port_id) {
            devices.push(d);
        }
        i = i + 1;
    }
    proof {
        assert(snap.devices@.take(i as int) =~= snap.devices@);
    }
    HubScan { ports, devices }
}

// ─── Full scan ─────────────────────────────────────────────────────

/// What was read from one hub interface: its path, its number of ports, and
/// for ports 1, 2, ... in turn the port status word, `None` where the query
/// failed.
pub struct HubReading {
    pub hub_path: String,
    pub port_count: u32,
    pub port_status: Vec<Option<u32>>,
}

/// Abstract value of a `HubReading`.
pub struct HubReadingView {
    pub hub_path: Seq<char>,
    pub port_count: u32,
    pub port_status: Seq<Option<u32>>,
}

impl View for HubReading {
    type V = HubReadingView;

    open spec fn view(&self) -> HubReadingView {
        HubReadingView {
            hub_path: self.hub_path@,
            port_count: self.port_count,
            port_status: self.port_status@,
        }
    }
}

/// The controllers of a scan: the hubs that have ports, in order.
pub open spec fn scan_controllers(hs: Seq<HubReadingView>) -> Seq<ControllerView>
    decreases hs.len(),
{
    if hs.len() == 0 {
        Seq::empty()
    } else {
        let prev = scan_controllers(hs.drop_last());
        let h = hs.last();
        if h.port_count == 0 {
            prev
        } else {
            prev.push(controller_view(h.hub_path, h.port_count))
        }
    }
}

/// The ports of one hub whose status could be read, in port order.
pub open spec fn hub_ports(path: Seq<char>, name: Seq<char>, st: Seq<Option<u32>>) -> Seq<PortView>
    decreases st.len(),
{
    if st.len() == 0 {
        Seq::empty()
    } else {
        let prev = hub_ports(path, name, st.drop_last());
        match st.last() {
            Some(w) => prev.push(port_view(path, name, st.len() as u32, w)),
            None => prev,
        }
    }
}

/// The ports of a scan: those of each controller in turn.
pub open spec fn scan_ports(hs: Seq<HubReadingView>) -> Seq<PortView>
    decreases hs.len(),
{
    if hs.len() == 0 {
        Seq::empty()
    } else {
        let prev = scan_ports(hs.drop_last());
        let h = hs.last();
        if h.port_count == 0 {
            prev
        } else {
            prev + hub_ports(h.hub_path, hub_display_name(h.hub_path), h.port_status)
        }
    }
}

/// Index of the first controller whose interface path has the hub key `key`.
pub open spec fn hub_for_key(cs: Seq<ControllerView>, key: Seq<char>) -> Option<int>
    decreases cs.len(),
{
    if cs.len() == 0 {
        None
    } else {
        match hub_for_key(cs.drop_last(), key) {
            Some(i) => Some(i),
            None => if service_path_key(cs.last().hub_path) == Some(key) {
                Some(cs.len() - 1)
            } else {
                None
            },
        }
    }
}

/// A collected peripheral placed on the scan's topology: when its hub is one
/// of the controllers, the hub's name, the port number and the ID of that
/// port (`{hub_path}:{port}`, as the port itself has it); and its power role.
pub open spec fn linked_device(e: Entry, cs: Seq<ControllerView>) -> DeviceView {
    let d = e.0;
    let placed = match hub_for_key(cs, dev_instance_key(e.1)) {
        Some(i) => DeviceView {
            hub_name: cs[i].name,
            port_number: e.2,
            port_id: port_id_text(cs[i].hub_path, e.2),
            ..d
        },
        None => d,
    };
    DeviceView { power_role: power_role_spec(d.vid, d.pid, d.device_class), ..placed }
}

/// The devices of a scan.
pub open spec fn scan_devices(nodes: Seq<NodeView>, cs: Seq<ControllerView>) -> Seq<DeviceView> {
    collected(nodes).map_values(|e: Entry| linked_device(e, cs))
}

/// `HH:MM:SS UTC`.
pub open spec fn scan_time_text(secs: nat) -> Seq<char> {
    clock_text(secs) + " UTC"@
}

/// Every port of a scan has the ID `{hub_path}:{port_number}`.
pub open spec fn ids_follow_ports(ps: Seq<PortView>) -> bool {
    forall|j: int| 0 <= j < ps.len() ==> (#[trigger] ps[j]).id == port_id_text(ps[j].hub_path, ps[j].port_number)
}

proof fn lemma_hub_ports_ids(path: Seq<char>, name: Seq<char>, st: Seq<Option<u32>>)
    ensures
        ids_follow_ports(hub_ports(path, name, st)),
    decreases st.len(),
{
    if st.len() > 0 {
        lemma_hub_ports_ids(path, name, st.drop_last());
    }
}

proof fn lemma_scan_ports_ids(hs: Seq<HubReadingView>)
    ensures
        ids_follow_ports(scan_ports(hs)),
    decreases hs.len(),
{
    if hs.len() > 0 {
        lemma_scan_ports_ids(hs.drop_last());
        let h = hs.last();
        lemma_hub_ports_ids(h.hub_path, hub_display_name(h.hub_path), h.port_status);
        let a = scan_ports(hs.drop_last());
        let b = hub_ports(h.hub_path, hub_display_name(h.hub_path), h.port_status);
        assert forall|j: int| 0 <= j < (a + b).len() implies #[trigger] (a + b)[j].id == port_id_text(
            (a + b)[j].hub_path,
            (a + b)[j].port_number,
        ) by {
            if j < a.len() {
                assert((a + b)[j] == a[j]);
            } else {
                assert((a + b)[j] == b[j - a.len()]);
            }
        }
    }
}

/// Physical topology: a device of a scan that is placed on a port (its port
/// ID is not empty) sits on a controller of the scan whose name it carries,
/// and its port ID is the ID of that controller's port with its port number,
/// so the device pairs with that port whenever the port is listed.
pub proof fn lemma_devices_pair_with_ports(hs: Seq<HubReadingView>, nodes: Seq<NodeView>, i: int)
    requires
        0 <= i < scan_devices(nodes, scan_controllers(hs)).len(),
    ensures
        ({
            let cs = scan_controllers(hs);
            let d = scan_devices(nodes, cs)[i];
            let ps = scan_ports(hs);
            d.port_id.len() > 0 ==> exists|c: int|
                0 <= c < cs.len() && d.hub_name == (#[trigger] cs[c]).name && d.port_id
                    == port_id_text(cs[c].hub_path, d.port_number) && forall|j: int|
                    0 <= j < ps.len() && (#[trigger] ps[j]).hub_path == cs[c].hub_path
                        && ps[j].port_number == d.port_number ==> ps[j].id == d.port_id
        }),
{
    let cs = scan_controllers(hs);
    let e = collected(nodes)[i];
    let d = scan_devices(nodes, cs)[i];
    let ps = scan_ports(hs);
    lemma_scan_ports_ids(hs);
    lemma_hub_for_key(cs, dev_instance_key(e.1));
    lemma_collected_port_ids_empty(nodes);
    match hub_for_key(cs, dev_instance_key(e.1)) {
        Some(c) => {
            assert(d.hub_name == cs[c].name);
            assert(d.port_id == port_id_text(cs[c].hub_path, d.port_number));
        },
        None => {
            assert(d.port_id == e.0.port_id);
        },
    }
}

/// The node is a USB peripheral whose reading is the entry `e`.
pub open spec fn gives_entry(n: NodeView, e: Entry) -> bool {
    !nodes::runs_hub_driver(n.service) && nodes::parent_is_usb(n.parent_id) && match node_reading(
        n,
    ) {
        Some(r) => (r.0, r.1, r.2) == e,
        None => false,
    }
}

/// Every entry of the device list comes from a node that is a USB
/// peripheral: one attached to a USB device and not running a hub driver.
/// Hubs never show up among the devices of a scan.
pub proof fn lemma_collected_from_peripherals(nodes: Seq<NodeView>, i: int)
    requires
        0 <= i < collected(nodes).len(),
    ensures
        exists|j: int|
            0 <= j < nodes.len() && gives_entry(#[trigger] nodes[j], collected(nodes)[i]),
    decreases nodes.len(),
{
    let prev = nodes.drop_last();
    let acc = collected(prev);
    let next = collected(nodes);
    match node_reading(nodes.last()) {
        None => {
            lemma_collected_from_peripherals(prev, i);
            let j = choose|j: int|
                0 <= j < prev.len() && gives_entry(#[trigger] prev[j], acc[i]);
            assert(nodes[j] == prev[j]);
        },
        Some((d, h, p, f)) => {
            nodes::lemma_find_ids(acc, d.vid, d.pid);
            let last = nodes.len() - 1;
            assert(nodes[last] == nodes.last());
            if i < acc.len() && next[i] == acc[i] {
                lemma_collected_from_peripherals(prev, i);
                let j = choose|j: int|
                    0 <= j < prev.len() && gives_entry(#[trigger] prev[j], acc[i]);
                assert(nodes[j] == prev[j]);
            } else {
                assert(next[i] == (d, h, p));
                assert(!nodes::runs_hub_driver(nodes[last].service));
            }
        },
    }
}

/// Every device of a scan is the device of one of the nodes: it carries that
/// node's VID:PID, its manufacturer property and, as product, its
/// description property.
pub proof fn lemma_scan_devices_from_nodes(nodes: Seq<NodeView>, cs: Seq<ControllerView>, i: int)
    requires
        0 <= i < scan_devices(nodes, cs).len(),
    ensures
        exists|j: int|
            0 <= j < nodes.len() && {
                let d = scan_devices(nodes, cs)[i];
                let n = #[trigger] nodes[j];
                &&& nodes::instance_vid_pid(n.instance_id) == Some((d.vid, d.pid))
                &&& d.manufacturer == n.manufacturer
                &&& d.product == n.description
            },
{
    lemma_collected_from_peripherals(nodes, i);
    let j = choose|j: int| 0 <= j < nodes.len() && gives_entry(#[trigger] nodes[j], collected(nodes)[i]);
    nodes::lemma_node_reading_fields(nodes[j]);
}

/// `path:digits` with digits free of `:` determines `path`.
proof fn lemma_port_id_path(a: Seq<char>, da: Seq<char>, b: Seq<char>, db: Seq<char>)
    requires
        !da.contains(':'),
        !db.contains(':'),
        a + seq![':'] + da == b + seq![':'] + db,
    ensures
        a == b,
{
    let s = a + seq![':'] + da;
    if da.len() < db.len() {
        let k = s.len() - da.len() - 1;
        assert(s[k] == ':');
        assert((b + seq![':'] + db)[k] == db[k - b.len() - 1]);
        assert(db.contains(':'));
    } else if db.len() < da.len() {
        let k = s.len() - db.len() - 1;
        assert((b + seq![':'] + db)[k] == ':');
        assert(s[k] == da[k - a.len() - 1]);
        assert(da.contains(':'));
    } else {
        assert(s.len() == a.len() + 1 + da.len());
        assert((b + seq![':'] + db).len() == b.len() + 1 + db.len());
        assert(a.len() == b.len());
        assert(a =~= s.take(a.len() as int));
        assert(b =~= (b + seq![':'] + db).take(b.len() as int));
    }
}

/// Decimal digits hold no `:`.
proof fn lemma_decimal_no_colon(n: nat)
    ensures
        !crate::text::decimal(n).contains(':'),
    decreases n,
{
    if n >= 10 {
        lemma_decimal_no_colon(n / 10);
        let d = crate::text::decimal(n);
        assert forall|k: int| 0 <= k < d.len() implies d[k] != ':' by {
            if k < d.len() - 1 {
                assert(d[k] == crate::text::decimal(n / 10)[k]);
            }
        }
    } else {
        assert(crate::text::decimal(n)[0] != ':');
    }
}

/// Every port of a scan belongs to the controller named after its hub path.
proof fn lemma_scan_ports_names(hs: Seq<HubReadingView>)
    ensures
        forall|j: int|
            0 <= j < scan_ports(hs).len() ==> (#[trigger] scan_ports(hs)[j]).controller_name
                == hub_display_name(scan_ports(hs)[j].hub_path),
    decreases hs.len(),
{
    if hs.len() > 0 {
        lemma_scan_ports_names(hs.drop_last());
        let h = hs.last();
        lemma_hub_ports_names(h.hub_path, h.port_status);
        let a = scan_ports(hs.drop_last());
        let b = hub_ports(h.hub_path, hub_display_name(h.hub_path), h.port_status);
        if h.port_count != 0 {
            assert forall|j: int| 0 <= j < (a + b).len() implies #[trigger] (a + b)[j].controller_name
                == hub_display_name((a + b)[j].hub_path) by {
                if j < a.len() {
                    assert((a + b)[j] == a[j]);
                } else {
                    assert((a + b)[j] == b[j - a.len()]);
                }
            }
        }
    }
}

proof fn lemma_hub_ports_names(path: Seq<char>, st: Seq<Option<u32>>)
    ensures
        forall|j: int|
            0 <= j < hub_ports(path, hub_display_name(path), st).len() ==> (#[trigger] hub_ports(
                path,
                hub_display_name(path),
                st,
            )[j]).controller_name == hub_display_name(path) && hub_ports(
                path,
                hub_display_name(path),
                st,
            )[j].hub_path == path,
    decreases st.len(),
{
    if st.len() > 0 {
        lemma_hub_ports_names(path, st.drop_last());
        let name = hub_display_name(path);
        let prev = hub_ports(path, name, st.drop_last());
        let next = hub_ports(path, name, st);
        assert forall|j: int| 0 <= j < next.len() implies (#[trigger] next[j]).controller_name
            == name && next[j].hub_path == path by {
            if j < prev.len() {
                assert(next[j] == prev[j]);
            }
        }
    }
}

/// Every controller of a scan is named after its hub path.
proof fn lemma_scan_controllers_names(hs: Seq<HubReadingView>)
    ensures
        forall|c: int|
            0 <= c < scan_controllers(hs).len() ==> (#[trigger] scan_controllers(hs)[c]).name
                == hub_display_name(scan_controllers(hs)[c].hub_path),
    decreases hs.len(),
{
    if hs.len() > 0 {
        lemma_scan_controllers_names(hs.drop_last());
        let prev = scan_controllers(hs.drop_last());
        let next = scan_controllers(hs);
        assert forall|c: int| 0 <= c < next.len() implies (#[trigger] next[c]).name
            == hub_display_name(next[c].hub_path) by {
            if c < prev.len() {
                assert(next[c] == prev[c]);
            }
        }
    }
}

/// Targeted re-scan: in a scan, a device whose port ID is the ID of a port of
/// the controller named `name` is one of that controller's devices (it
/// carries the name `name`), so filtering a scan for one controller keeps
/// only that controller's devices.
pub proof fn lemma_rescan_keeps_own_devices(
    hs: Seq<HubReadingView>,
    nodes: Seq<NodeView>,
    name: Seq<char>,
    i: int,
    j: int,
)
    requires
        0 <= i < scan_devices(nodes, scan_controllers(hs)).len(),
        0 <= j < scan_ports(hs).len(),
        scan_ports(hs)[j].controller_name == name,
        scan_ports(hs)[j].id == scan_devices(nodes, scan_controllers(hs))[i].port_id,
    ensures
        scan_devices(nodes, scan_controllers(hs))[i].hub_name == name,
{
    let cs = scan_controllers(hs);
    let d = scan_devices(nodes, cs)[i];
    let p = scan_ports(hs)[j];
    lemma_scan_ports_ids(hs);
    lemma_scan_ports_names(hs);
    lemma_scan_controllers_names(hs);
    lemma_devices_pair_with_ports(hs, nodes, i);
    lemma_decimal_no_colon(p.port_number as nat);
    assert(p.id.len() > 0);
    let c = choose|c: int|
        0 <= c < cs.len() && d.hub_name == (#[trigger] cs[c]).name && d.port_id == port_id_text(
            cs[c].hub_path,
            d.port_number,
        ) && forall|k: int|
            0 <= k < scan_ports(hs).len() && (#[trigger] scan_ports(hs)[k]).hub_path == cs[c].hub_path
                && scan_ports(hs)[k].port_number == d.port_number ==> scan_ports(hs)[k].id == d.port_id;
    lemma_decimal_no_colon(d.port_number as nat);
    lemma_port_id_path(
        p.hub_path,
        crate::text::decimal(p.port_number as nat),
        cs[c].hub_path,
        crate::text::decimal(d.port_number as nat),
    );
}

/// Devices come out of the node list without a port ID.
proof fn lemma_collected_port_ids_empty(nodes: Seq<NodeView>)
    ensures
        forall|i: int| 0 <= i < collected(nodes).len() ==> (#[trigger] collected(nodes)[i]).0.port_id.len() == 0,
    decreases nodes.len(),
{
    if nodes.len() > 0 {
        lemma_collected_port_ids_empty(nodes.drop_last());
        let acc = collected(nodes.drop_last());
        let next = collected(nodes);
        match node_reading(nodes.last()) {
            None => {},
            Some((d, h, p, f)) => {
                assert(d.port_id.len() == 0);
                nodes::lemma_find_ids(acc, d.vid, d.pid);
                assert forall|i: int| 0 <= i < next.len() implies (#[trigger] next[i]).0.port_id.len()
                    == 0 by {
                    if i < acc.len() && next[i] != (d, h, p) {
                        assert(next[i] == acc[i]);
                    }
                }
            },
        }
    }
}

/// Readings as a scan gathers them: each hub reports the status of each of
/// its ports (one entry per port), and no hub path is read twice.
pub open spec fn readings_ok(hs: Seq<HubReadingView>) -> bool {
    &&& forall|i: int| 0 <= i < hs.len() ==> (#[trigger] hs[i]).port_status.len() == hs[i].port_count
    &&& forall|i: int, j: int|
        0 <= i < j < hs.len() ==> (#[trigger] hs[i]).hub_path != (#[trigger] hs[j]).hub_path
}

/// No two controllers share a hub path.
pub open spec fn distinct_controllers(cs: Seq<ControllerView>) -> bool {
    forall|a: int, b: int| 0 <= a < b < cs.len() ==> (#[trigger] cs[a]).hub_path != (#[trigger] cs[b]).hub_path
}

/// Port `p` is a port of controller `c`: named after it, on its hub path,
/// numbered within its port count, and with the ID `{hub_path}:{port_number}`.
pub open spec fn port_of(p: PortView, c: ControllerView) -> bool {
    &&& p.controller_name == c.name
    &&& p.hub_path == c.hub_path
    &&& 1 <= p.port_number <= c.port_count
    &&& p.id == port_id_text(p.hub_path, p.port_number)
}

/// Port `p` is a port of some controller of `cs`.
pub open spec fn has_controller(p: PortView, cs: Seq<ControllerView>) -> bool {
    exists|c: int| 0 <= c < cs.len() && port_of(p, #[trigger] cs[c])
}

/// Every port of `ps` is a port of some controller of `cs`.
pub open spec fn ports_belong(ps: Seq<PortView>, cs: Seq<ControllerView>) -> bool {
    forall|j: int| 0 <= j < ps.len() ==> has_controller(#[trigger] ps[j], cs)
}

proof fn lemma_hub_ports_shape(path: Seq<char>, name: Seq<char>, st: Seq<Option<u32>>)
    requires
        st.len() <= u32::MAX,
    ensures
        forall|j: int|
            0 <= j < hub_ports(path, name, st).len() ==> {
                let p = #[trigger] hub_ports(path, name, st)[j];
                &&& p.controller_name == name
                &&& p.hub_path == path
                &&& 1 <= p.port_number <= st.len()
                &&& p.id == port_id_text(p.hub_path, p.port_number)
            },
    decreases st.len(),
{
    if st.len() > 0 {
        lemma_hub_ports_shape(path, name, st.drop_last());
        let prev = hub_ports(path, name, st.drop_last());
        let next = hub_ports(path, name, st);
        assert forall|j: int| 0 <= j < next.len() implies {
            let p = #[trigger] next[j];
            &&& p.controller_name == name
            &&& p.hub_path == path
            &&& 1 <= p.port_number <= st.len()
            &&& p.id == port_id_text(p.hub_path, p.port_number)
        } by {
            if j < prev.len() {
                assert(next[j] == prev[j]);
            }
        }
    }
}

/// Each controller of a scan comes from one of the readings.
proof fn lemma_controllers_from_readings(hs: Seq<HubReadingView>)
    ensures
        forall|c: int|
            0 <= c < scan_controllers(hs).len() ==> exists|k: int|
                0 <= k < hs.len() && (#[trigger] scan_controllers(hs)[c]).hub_path == hs[k].hub_path,
    decreases hs.len(),
{
    if hs.len() > 0 {
        let prev_hs = hs.drop_last();
        lemma_controllers_from_readings(prev_hs);
        let prev = scan_controllers(prev_hs);
        let next = scan_controllers(hs);
        assert forall|c: int| 0 <= c < next.len() implies exists|k: int|
            0 <= k < hs.len() && (#[trigger] next[c]).hub_path == hs[k].hub_path by {
            if c < prev.len() {
                assert(next[c] == prev[c]);
                let k = choose|k: int| 0 <= k < prev_hs.len() && prev[c].hub_path == prev_hs[k].hub_path;
                assert(hs[k] == prev_hs[k]);
            } else {
                assert(next[c].hub_path == hs[hs.len() - 1].hub_path);
            }
        }
    }
}

/// The structure of a scan: controllers have distinct hub paths, and every
/// port belongs to a controller, numbered within that controller's port
/// count, with the ID `{hub_path}:{port_number}`.
pub proof fn lemma_scan_structure(hs: Seq<HubReadingView>)
    requires
        readings_ok(hs),
    ensures
        distinct_controllers(scan_controllers(hs)),
        ports_belong(scan_ports(hs), scan_controllers(hs)),
    decreases hs.len(),
{
    if hs.len() > 0 {
        let prev_hs = hs.drop_last();
        assert(readings_ok(prev_hs)) by {
            assert forall|i: int| 0 <= i < prev_hs.len() implies (#[trigger] prev_hs[i]).port_status.len()
                == prev_hs[i].port_count by {
                assert(prev_hs[i] == hs[i]);
            }
            assert forall|i: int, j: int| 0 <= i < j < prev_hs.len() implies (#[trigger] prev_hs[i]).hub_path
                != (#[trigger] prev_hs[j]).hub_path by {
                assert(prev_hs[i] == hs[i] && prev_hs[j] == hs[j]);
            }
        }
        lemma_scan_structure(prev_hs);
        lemma_controllers_from_readings(prev_hs);
        let h = hs.last();
        assert(h == hs[hs.len() - 1]);
        let pc = scan_controllers(prev_hs);
        let pp = scan_ports(prev_hs);
        let cs = scan_controllers(hs);
        let ps = scan_ports(hs);
        if h.port_count != 0 {
            let name = hub_display_name(h.hub_path);
            lemma_hub_ports_shape(h.hub_path, name, h.port_status);
            let added = hub_ports(h.hub_path, name, h.port_status);
            assert(cs == pc.push(controller_view(h.hub_path, h.port_count)));
            assert(ps == pp + added);
            assert forall|a: int, b: int| 0 <= a < b < cs.len() implies (#[trigger] cs[a]).hub_path
                != (#[trigger] cs[b]).hub_path by {
                assert(cs[a] == pc[a]);
                if b == cs.len() - 1 {
                    let k = choose|k: int| 0 <= k < prev_hs.len() && pc[a].hub_path == prev_hs[k].hub_path;
                    assert(prev_hs[k] == hs[k]);
                } else {
                    assert(cs[b] == pc[b]);
                }
            }
            assert forall|j: int| 0 <= j < ps.len() implies has_controller(#[trigger] ps[j], cs) by {
                if j < pp.len() {
                    assert(ps[j] == pp[j]);
                    assert(has_controller(pp[j], pc));
                    let c = choose|c: int| 0 <= c < pc.len() && port_of(pp[j], #[trigger] pc[c]);
                    assert(cs[c] == pc[c]);
                } else {
                    assert(ps[j] == added[j - pp.len()]);
                    assert(port_of(ps[j], cs[cs.len() - 1]));
                }
            }
            assert(ports_belong(ps, cs));
        } else {
            assert(cs == pc);
            assert(ps == pp);
            assert(ports_belong(ps, cs));
        }
    } else {
        assert(ports_belong(scan_ports(hs), scan_controllers(hs)));
    }
}

/// `hub_for_key` finds the first controller with the key.
proof fn lemma_hub_for_key(cs: Seq<ControllerView>, key: Seq<char>)
    ensures
        match hub_for_key(cs, key) {
            Some(i) => 0 <= i < cs.len() && service_path_key(cs[i].hub_path) == Some(key)
                && forall|k: int|
                0 <= k < i ==> service_path_key(#[trigger] cs[k].hub_path) != Some(key),
            None => forall|k: int|
                0 <= k < cs.len() ==> service_path_key(#[trigger] cs[k].hub_path) != Some(key),
        },
    decreases cs.len(),
{
    if cs.len() > 0 {
        lemma_hub_for_key(cs.drop_last(), key);
        assert forall|k: int| 0 <= k < cs.len() - 1 implies #[trigger] cs[k] == cs.drop_last()[k] by {}
    }
}

/// The ports of one hub whose status could be read.
fn hub_port_list(hub_path: &String, name: &String, statuses: &Vec<Option<u32>>) -> (r: Vec<UsbPort>)
    requires
        statuses@.len() <= u32::MAX,
    ensures
        r@.map_values(|p: UsbPort| p@) == hub_ports(hub_path@, name@, statuses@),
{
    let mut ports: Vec<UsbPort> = Vec::new();
    let mut i: usize = 0;
    while i < statuses.len()
        invariant
            i <= statuses@.len() <= u32::MAX,
            ports@.map_values(|p: UsbPort| p@) == hub_ports(
                hub_path@,
                name@,
                statuses@.take(i as int),
            ),
        decreases statuses.len() - i,
    {
        let ghost before = ports@;
        proof {
            assert(statuses@.take(i + 1).drop_last() =~= statuses@.take(i as int));
        }
        if let Some(w) = statuses[i] {
            let port = port_from_status(hub_path, name, (i + 1) as u32, w);
            ports.push(port);
            proof {
                assert(ports@.map_values(|p: UsbPort| p@) =~= before.map_values(|p: UsbPort| p@).push(
                    port_view(hub_path@, name@, (i + 1) as u32, w),
                ));
            }
        }
        i = i + 1;
    }
    proof {
        assert(statuses@.take(i as int) =~= statuses@);
    }
    ports
}

/// The key slot holds `key`.
pub open spec fn key_is(slot: Option<String>, key: Seq<char>) -> bool {
    match slot {
        Some(k) => k@ == key,
        None => false,
    }
}

/// Index of the first controller whose hub key is `key`.
fn find_hub(keys: &Vec<Option<String>>, key: &String) -> (r: Option<usize>)
    ensures
        match r {
            Some(i) => 0 <= i < keys@.len() && key_is(keys@[i as int], key@) && forall|j: int|
                0 <= j < i ==> !key_is(#[trigger] keys@[j], key@),
            None => forall|j: int| 0 <= j < keys@.len() ==> !key_is(#[trigger] keys@[j], key@),
        },
{
    let mut k: usize = 0;
    while k < keys.len()
        invariant
            k <= keys@.len(),
            forall|j: int| 0 <= j < k ==> !key_is(#[trigger] keys@[j], key@),
        decreases keys.len() - k,
    {
        if let Some(s) = &keys[k] {
            if *s == *key {
                return Some(k);
            }
        }
        k = k + 1;
    }
    None
}

/// Places one collected peripheral on the topology and sets its power role.
fn link_device(
    entry: (UsbDevice, String, u32),
    controllers: &Vec<UsbController>,
    keys: &Vec<Option<String>>,
) -> (d: UsbDevice)
    requires
        keys@.len() == controllers@.len(),
        forall|j: int|
            0 <= j < keys@.len() ==> match #[trigger] keys@[j] {
                Some(k) => service_path_key(controllers@[j].hub_path@) == Some(k@),
                None => service_path_key(controllers@[j].hub_path@) is None,
            },
    ensures
        d@ == linked_device(entry_view(entry), controllers@.map_values(|c: UsbController| c@)),
{
    let ghost cs = controllers@.map_values(|c: UsbController| c@);
    let (mut dev, hub_instance, port) = entry;
    let key = hub_key_from_dev_instance(hub_instance.as_str());
    proof {
        lemma_hub_for_key(cs, key@);
    }
    match find_hub(keys, &key) {
        Some(i) => {
            proof {
                assert(cs[i as int] == controllers@[i as int]@);
                assert(service_path_key(cs[i as int].hub_path) == Some(key@));
                match hub_for_key(cs, key@) {
                    Some(x) => {
                        if x < i {
                            assert(cs[x] == controllers@[x]@);
                            assert(key_is(keys@[x], key@));
                        }
                    },
                    None => {},
                }
            }
            dev.hub_name = controllers[i].name.clone();
            dev.port_number = port;
            dev.port_id = port_id(&controllers[i].hub_path, port);
        },
        None => {
            proof {
                match hub_for_key(cs, key@) {
                    Some(x) => {
                        assert(0 <= x < cs.len());
                        assert(cs[x] == controllers@[x]@);
                        assert(key_is(keys@[x], key@));
                    },
                    None => {},
                }
            }
        },
    }
    dev.power_role = power_role(dev.vid, dev.pid, dev.device_class).to_owned();
    dev
}

/// Assembles a snapshot from what was read from the system: the hub
/// interfaces (path, port count, port status words), the device nodes, and
/// the clock (seconds since the Unix epoch). Port numbers are `u32`, so a
/// hub reports at most `u32::MAX` port statuses.
///
/// Hubs without ports are not controllers. Each peripheral whose hub is one
/// of the controllers is linked to its port: the device's port ID is the ID
/// of that port, so that the two can be paired.
pub fn full_scan(hubs: Vec<HubReading>, nodes: Vec<DeviceNode>, now_secs: u64) -> (snap: UsbSnapshot)
    requires
        readings_ok(hubs@.map_values(|h: HubReading| h@)),
    ensures
        snap.controllers@.map_values(|c: UsbController| c@) == scan_controllers(
            hubs@.map_values(|h: HubReading| h@),
        ),
        snap.ports@.map_values(|p: UsbPort| p@) == scan_ports(hubs@.map_values(|h: HubReading| h@)),
        snap.devices@.map_values(|d: UsbDevice| d@) == scan_devices(
            nodes@.map_values(|n: DeviceNode| n@),
            scan_controllers(hubs@.map_values(|h: HubReading| h@)),
        ),
        snap.scan_time@ == scan_time_text(now_secs as nat),
        forall|a: int, b: int|
            0 <= a < b < snap.controllers@.len() ==> (#[trigger] snap.controllers@[a]).hub_path@
                != (#[trigger] snap.controllers@[b]).hub_path@,
        forall|j: int|
            0 <= j < snap.ports@.len() ==> has_controller(
                (#[trigger] snap.ports@[j])@,
                snap.controllers@.map_values(|c: UsbController| c@),
            ),
{
    let ghost hs = hubs@.map_values(|h: HubReading| h@);
    proof {
        assert forall|j: int| 0 <= j < hubs@.len() implies (#[trigger] hubs@[j]).port_status@.len()
            <= u32::MAX by {
            assert(hs[j] == hubs@[j]@);
        }
    }
    let mut controllers: Vec<UsbController> = Vec::new();
    let mut ports: Vec<UsbPort> = Vec::new();
    let mut i: usize = 0;
    while i < hubs.len()
        invariant
            i <= hubs@.len(),
            hs == hubs@.map_values(|h: HubReading| h@),
            forall|j: int| 0 <= j < hubs@.len() ==> (#[trigger] hubs@[j]).port_status@.len() <= u32::MAX,
            controllers@.map_values(|c: UsbController| c@) == scan_controllers(hs.take(i as int)),
            ports@.map_values(|p: UsbPort| p@) == scan_ports(hs.take(i as int)),
        decreases hubs.len() - i,
    {
        let h = &hubs[i];
        proof {
            assert(hs.take(i + 1).drop_last() =~= hs.take(i as int));
            assert(hs.take(i + 1).last() == h@);
        }
        let ghost cs_before = controllers@;
        let ghost ps_before = ports@;
        match controller_for(&h.hub_path, h.port_count) {
            Some(c) => {
                let mut hub_ports = hub_port_list(&h.hub_path, &c.name, &h.port_status);
                let ghost added = hub_ports@;
                ports.append(&mut hub_ports);
                controllers.push(c);
                proof {
                    assert(controllers@.map_values(|c: UsbController| c@) =~= cs_before.map_values(
                        |c: UsbController| c@,
                    ).push(c@));
                    assert(ports@.map_values(|p: UsbPort| p@) =~= ps_before.map_values(
                        |p: UsbPort| p@,
                    ) + added.map_values(|p: UsbPort| p@));
                }
            },
            None => {},
        }
        i = i + 1;
    }
    proof {
        assert(hs.take(i as int) =~= hs);
    }
    let ghost cs = controllers@.map_values(|c: UsbController| c@);
    let mut keys: Vec<Option<String>> = Vec::new();
    let mut j: usize = 0;
    while j < controllers.len()
        invariant
            j <= controllers@.len(),
            keys@.len() == j,
            forall|k: int|
                0 <= k < j ==> match #[trigger] keys@[k] {
                    Some(key) => service_path_key(controllers@[k].hub_path@) == Some(key@),
                    None => service_path_key(controllers@[k].hub_path@) is None,
                },
        decreases controllers.len() - j,
    {
        keys.push(hub_key_from_service_path(controllers[j].hub_path.as_str()));
        j = j + 1;
    }
    let entries = collect_devices(&nodes);
    let ghost es = entries@.map_values(|e| entry_view(e));
    let n = entries.len();
    let mut rest = entries;
    let mut devices: Vec<UsbDevice> = Vec::new();
    let mut k: usize = 0;
    while rest.len() > 0
        invariant
            k <= n,
            n == es.len(),
            es == collected(nodes@.map_values(|n: DeviceNode| n@)),
            rest@.map_values(|e| entry_view(e)) == es.skip(k as int),
            devices@.map_values(|d: UsbDevice| d@) == es.take(k as int).map_values(
                |e: Entry| linked_device(e, cs),
            ),
            cs == controllers@.map_values(|c: UsbController| c@),
            keys@.len() == controllers@.len(),
            forall|x: int|
                0 <= x < keys@.len() ==> match #[trigger] keys@[x] {
                    Some(key) => service_path_key(controllers@[x].hub_path@) == Some(key@),
                    None => service_path_key(controllers@[x].hub_path@) is None,
                },
        decreases rest.len(),
    {
        let ghost rest_before = rest@;
        let e = rest.remove(0);
        proof {
            assert(rest_before.map_values(|e| entry_view(e))[0] == entry_view(e));
            assert(rest_before.map_values(|e| entry_view(e)).len() > 0);
            assert(es.skip(k as int).len() > 0);
            assert(es.skip(k as int)[0] == es[k as int]);
            assert forall|x: int| 0 <= x < rest@.len() implies #[trigger] entry_view(rest@[x])
                == es.skip(k + 1)[x] by {
                assert(rest@[x] == rest_before[x + 1]);
                assert(rest_before.map_values(|e| entry_view(e))[x + 1] == es.skip(k as int)[x + 1]);
            }
            assert(rest@.map_values(|e| entry_view(e)) =~= es.skip(k + 1));
        }
        let ghost before = devices@;
        let d = link_device(e, &controllers, &keys);
        devices.push(d);
        proof {
            assert(entry_view(e) == es[k as int]);
            assert(es.take(k + 1) =~= es.take(k as int).push(es[k as int]));
            assert(es.take(k + 1).map_values(|e: Entry| linked_device(e, cs)) =~= es.take(
                k as int,
            ).map_values(|e: Entry| linked_device(e, cs)).push(linked_device(es[k as int], cs)));
            assert(devices@.map_values(|d: UsbDevice| d@) =~= before.map_values(|d: UsbDevice| d@).push(d@));
            assert(devices@.map_values(|d: UsbDevice| d@) =~= es.take(k + 1).map_values(
                |e: Entry| linked_device(e, cs),
            ));
        }
        k = k + 1;
    }
    proof {
        assert(es.skip(k as int).len() == 0);
        assert(es.take(k as int) =~= es);
    }
    let mut scan_time = chrono_free(now_secs);
    push_str(&mut scan_time, " UTC");
    proof {
        lemma_scan_structure(hs);
        let pvs = ports@.map_values(|p: UsbPort| p@);
        assert forall|a: int, b: int| 0 <= a < b < controllers@.len() implies (
        #[trigger] controllers@[a]).hub_path@ != (#[trigger] controllers@[b]).hub_path@ by {
            assert(cs[a] == controllers@[a]@ && cs[b] == controllers@[b]@);
        }
        assert forall|j: int| 0 <= j < ports@.len() implies has_controller(
            (#[trigger] ports@[j])@,
            cs,
        ) by {
            assert(pvs[j] == ports@[j]@);
            assert(has_controller(pvs[j], scan_controllers(hs)));
        }
    }
    UsbSnapshot { controllers, ports, devices, scan_time }
}

} // verus!
