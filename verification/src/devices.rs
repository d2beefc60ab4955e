//! USB device database lookups: VID:PID to a human-readable identity, and the
//! power role inferred from that identity.
//!
//! The three tables of `device_db` are folded into hash maps exactly as they
//! are listed: for devices and cables a later entry replaces an earlier one
//! with the same VID:PID; for vendors the canonical name (one without a
//! parenthetical suffix) is preferred, see `insert_vendor`.

use crate::device_db::{CABLE_TABLE, DEVICE_TABLE, VENDOR_TABLE};
use crate::text::{
    chars_eq, chars_of, contains_chars, has_substring, hex_fixed, push_hex_fixed, str_has_char,
    string_from_chars,
};
use std::collections::HashMap;
use vstd::prelude::*;

verus! {

broadcast use vstd::std_specs::hash::group_hash_axioms;

/// A vendor of the database.
#[derive(Debug, Clone, Copy)]
pub struct VendorInfo {
    pub name: &'static str,
    pub category: &'static str,
}

/// A specific device of the database.
#[derive(Debug, Clone, Copy)]
pub struct DeviceEntry {
    pub name: &'static str,
    pub category: &'static str,
}

/// A known cable, with its rated speed, power and construction.
#[derive(Debug, Clone, Copy)]
pub struct CableInfo {
    pub name: &'static str,
    pub speed: &'static str,
    pub max_watts: u32,
    pub cable_type: &'static str,
}

/// The identity reported for a VID:PID pair.
#[derive(Debug, Clone)]
pub struct DeviceInfo {
    pub name: String,
    pub category: String,
    pub manufacturer: String,
}

impl View for DeviceInfo {
    type V = (Seq<char>, Seq<char>, Seq<char>);

    /// (name, category, manufacturer)
    open spec fn view(&self) -> (Seq<char>, Seq<char>, Seq<char>) {
        (self.name@, self.category@, self.manufacturer@)
    }
}

impl Default for DeviceInfo {
    fn default() -> (r: DeviceInfo)
        ensures
            r@ == (Seq::<char>::empty(), Seq::<char>::empty(), Seq::<char>::empty()),
    {
        DeviceInfo { name: String::new(), category: String::new(), manufacturer: String::new() }
    }
}

// ─── Model of the database ─────────────────────────────────────────

/// The single integer key of a VID:PID pair.
pub open spec fn device_key(vid: u16, pid: u16) -> u32 {
    (vid as int * 65536 + pid as int) as u32
}

/// Whether a vendor name carries a parenthetical suffix such as "(Webcam)".
pub open spec fn has_suffix_mark(name: Seq<char>) -> bool {
    name.contains('(')
}

/// The vendor map after inserting `info` for `vid`: a new VID is always
/// added; an existing one is replaced only when the new name is canonical
/// (no parenthesis) and the stored one is not.
pub open spec fn vendor_step(m: Map<u16, VendorInfo>, vid: u16, info: VendorInfo) -> Map<
    u16,
    VendorInfo,
> {
    if !m.contains_key(vid) || (!has_suffix_mark(info.name@) && has_suffix_mark(m[vid].name@)) {
        m.insert(vid, info)
    } else {
        m
    }
}

/// The vendor map built from a list of vendor entries, in order.
pub open spec fn vendor_map(entries: Seq<(u16, &'static str, &'static str)>) -> Map<
    u16,
    VendorInfo,
>
    decreases entries.len(),
{
    if entries.len() == 0 {
        Map::empty()
    } else {
        let e = entries.last();
        vendor_step(vendor_map(entries.drop_last()), e.0, VendorInfo { name: e.1, category: e.2 })
    }
}

/// The device map built from a list of device entries: the last entry for a key wins.
pub open spec fn device_map(entries: Seq<(u16, u16, &'static str, &'static str)>) -> Map<
    u32,
    DeviceEntry,
>
    decreases entries.len(),
{
    if entries.len() == 0 {
        Map::empty()
    } else {
        let e = entries.last();
        device_map(entries.drop_last()).insert(
            device_key(e.0, e.1),
            DeviceEntry { name: e.2, category: e.3 },
        )
    }
}

/// The cable map built from a list of cable entries: the last entry for a key wins.
pub open spec fn cable_map(
    entries: Seq<(u16, u16, &'static str, &'static str, u32, &'static str)>,
) -> Map<u32, CableInfo>
    decreases entries.len(),
{
    if entries.len() == 0 {
        Map::empty()
    } else {
        let e = entries.last();
        cable_map(entries.drop_last()).insert(
            device_key(e.0, e.1),
            CableInfo { name: e.2, speed: e.3, max_watts: e.4, cable_type: e.5 },
        )
    }
}

/// All known vendors.
pub open spec fn known_vendors() -> Map<u16, VendorInfo> {
    vendor_map(VENDOR_TABLE@)
}

/// All known specific devices, keyed by `device_key`.
pub open spec fn known_devices() -> Map<u32, DeviceEntry> {
    device_map(DEVICE_TABLE@)
}

/// All known cables, keyed by `device_key`.
pub open spec fn known_cables() -> Map<u32, CableInfo> {
    cable_map(CABLE_TABLE@)
}

/// Manufacturer reported with a cable or specific device: the vendor's name, or "Unknown".
pub open spec fn manufacturer_of(vid: u16) -> Seq<char> {
    if known_vendors().contains_key(vid) {
        known_vendors()[vid].name@
    } else {
        "Unknown"@
    }
}

/// "VVVV:PPPP" in upper-case hexadecimal.
pub open spec fn vid_pid_text(vid: u16, pid: u16) -> Seq<char> {
    hex_fixed(vid as nat, 4) + seq![':'] + hex_fixed(pid as nat, 4)
}

/// (name, category, manufacturer) reported for a VID:PID pair: a known cable
/// first, then a specific device, then the vendor alone, then nothing known.
pub open spec fn lookup_spec(vid: u16, pid: u16) -> (Seq<char>, Seq<char>, Seq<char>) {
    let k = device_key(vid, pid);
    if known_cables().contains_key(k) {
        (known_cables()[k].name@, "Cable"@, manufacturer_of(vid))
    } else if known_devices().contains_key(k) {
        (known_devices()[k].name@, known_devices()[k].category@, manufacturer_of(vid))
    } else if known_vendors().contains_key(vid) {
        let v = known_vendors()[vid];
        (v.name@ + " Device ("@ + vid_pid_text(vid, pid) + seq![')'], v.category@, v.name@)
    } else {
        ("USB Device "@ + vid_pid_text(vid, pid), "Unknown"@, Seq::empty())
    }
}

/// ASCII upper-case letters to lower case; every other character unchanged.
pub open spec fn lower_ascii_char(c: char) -> char {
    if 'A' <= c <= 'Z' {
        ((c as int) + 32) as char
    } else {
        c
    }
}

/// `str::to_ascii_lowercase` on a character sequence.
pub open spec fn ascii_lowercase(s: Seq<char>) -> Seq<char> {
    Seq::new(s.len(), |i: int| lower_ascii_char(s[i]))
}

/// Power role of a lower-case category.
pub open spec fn role_of_category(c: Seq<char>) -> Seq<char> {
    if has_substring(c, "charger"@) || has_substring(c, "power"@) || has_substring(c, "dock"@) {
        "source"@
    } else if c == "mobile"@ || has_substring(c, "phone"@) {
        "charging"@
    } else if has_substring(c, "webcam"@) || has_substring(c, "camera"@) {
        "camera"@
    } else {
        ""@
    }
}

/// Power role of a device: "hub" for USB class 0x09, otherwise derived from
/// the category that `lookup` reports.
pub open spec fn power_role_spec(vid: u16, pid: u16, device_class: u8) -> Seq<char> {
    if device_class == 0x09 {
        "hub"@
    } else {
        role_of_category(ascii_lowercase(lookup_spec(vid, pid).1))
    }
}

// ─── Building the maps ─────────────────────────────────────────────

/// The integer key of a VID:PID pair.
pub fn key_of(vid: u16, pid: u16) -> (k: u32)
    ensures
        k == device_key(vid, pid),
{
    (vid as u32) * 65536 + (pid as u32)
}

/// Inserts a vendor, preferring the canonical name (no "(suffix)") on duplicates.
pub fn insert_vendor(m: &mut HashMap<u16, VendorInfo>, vid: u16, info: VendorInfo)
    ensures
        final(m)@ == vendor_step(old(m)@, vid, info),
{
    let replace = match m.get(&vid) {
        None => true,
        Some(existing) => {
            let existing_has_suffix = str_has_char(existing.name, '(');
            let new_has_suffix = str_has_char(info.name, '(');
            !new_has_suffix && existing_has_suffix
        },
    };
    if replace {
        m.insert(vid, info);
    }
}

/// The vendor map of the database.
pub fn vendors() -> (m: HashMap<u16, VendorInfo>)
    ensures
        m@ == known_vendors(),
{
    let mut m: HashMap<u16, VendorInfo> = HashMap::new();
    let n = VENDOR_TABLE.len();
    let mut i: usize = 0;
    while i < n
        invariant
            n == VENDOR_TABLE@.len(),
            i <= n,
            m@ == vendor_map(VENDOR_TABLE@.take(i as int)),
        decreases n - i,
    {
        let e = VENDOR_TABLE[i];
        insert_vendor(&mut m, e.0, VendorInfo { name: e.1, category: e.2 });
        proof {
            assert(VENDOR_TABLE@.take(i + 1).drop_last() =~= VENDOR_TABLE@.take(i as int));
        }
        i = i + 1;
    }
    proof {
        assert(VENDOR_TABLE@.take(n as int) =~= VENDOR_TABLE@);
    }
    m
}

/// The specific-device map of the database.
pub fn devices() -> (m: HashMap<u32, DeviceEntry>)
    ensures
        m@ == known_devices(),
{
    let mut m: HashMap<u32, DeviceEntry> = HashMap::new();
    let n = DEVICE_TABLE.len();
    let mut i: usize = 0;
    while i < n
        invariant
            n == DEVICE_TABLE@.len(),
            i <= n,
            m@ == device_map(DEVICE_TABLE@.take(i as int)),
        decreases n - i,
    {
        let e = DEVICE_TABLE[i];
        let k = key_of(e.0, e.1);
        m.insert(k, DeviceEntry { name: e.2, category: e.3 });
        proof {
            assert(DEVICE_TABLE@.take(i + 1).drop_last() =~= DEVICE_TABLE@.take(i as int));
        }
        i = i + 1;
    }
    proof {
        assert(DEVICE_TABLE@.take(n as int) =~= DEVICE_TABLE@);
    }
    m
}

/// The cable map of the database.
pub fn cables() -> (m: HashMap<u32, CableInfo>)
    ensures
        m@ == known_cables(),
{
    let mut m: HashMap<u32, CableInfo> = HashMap::new();
    let n = CABLE_TABLE.len();
    let mut i: usize = 0;
    while i < n
        invariant
            n == CABLE_TABLE@.len(),
            i <= n,
            m@ == cable_map(CABLE_TABLE@.take(i as int)),
        decreases n - i,
    {
        let e = CABLE_TABLE[i];
        let k = key_of(e.0, e.1);
        m.insert(k, CableInfo { name: e.2, speed: e.3, max_watts: e.4, cable_type: e.5 });
        proof {
            assert(CABLE_TABLE@.take(i + 1).drop_last() =~= CABLE_TABLE@.take(i as int));
        }
        i = i + 1;
    }
    proof {
        assert(CABLE_TABLE@.take(n as int) =~= CABLE_TABLE@);
    }
    m
}

// ─── Lookups ───────────────────────────────────────────────────────

/// The manufacturer name reported with a cable or specific device.
fn manufacturer_name(vendor_map: &HashMap<u16, VendorInfo>, vid: u16) -> (r: String)
    requires
        vendor_map@ == known_vendors(),
    ensures
        r@ == manufacturer_of(vid),
{
    match vendor_map.get(&vid) {
        Some(v) => v.name.to_owned(),
        None => "Unknown".to_owned(),
    }
}

/// Appends "VVVV:PPPP" to `v`.
fn push_vid_pid(v: &mut Vec<char>, vid: u16, pid: u16)
    ensures
        final(v)@ == old(v)@ + vid_pid_text(vid, pid),
{
    push_hex_fixed(v, vid as u64, 4);
    v.push(':');
    push_hex_fixed(v, pid as u64, 4);
    proof {
        assert(old(v)@ + vid_pid_text(vid, pid) =~= old(v)@ + hex_fixed(vid as nat, 4) + seq![
            ':',
        ] + hex_fixed(pid as nat, 4));
    }
}

/// Looks up a device by VID:PID: the cable table first, then the specific
/// device table, then the vendor alone; unknown devices are named after
/// their VID:PID.
pub fn lookup(vid: u16, pid: u16) -> (info: DeviceInfo)
    ensures
        info@ == lookup_spec(vid, pid),
{
    let vendor_map = vendors();
    let device_map = devices();
    let cable_map = cables();
    let k = key_of(vid, pid);
    if let Some(cable) = cable_map.get(&k) {
        return DeviceInfo {
            name: cable.name.to_owned(),
            category: "Cable".to_owned(),
            manufacturer: manufacturer_name(&vendor_map, vid),
        };
    }
    if let Some(device) = device_map.get(&k) {
        return DeviceInfo {
            name: device.name.to_owned(),
            category: device.category.to_owned(),
            manufacturer: manufacturer_name(&vendor_map, vid),
        };
    }
    if let Some(vendor) = vendor_map.get(&vid) {
        let mut name = chars_of(vendor.name);
        let tail = chars_of(" Device (");
        let mut i: usize = 0;
        let ghost start = name@;
        while i < tail.len()
            invariant
                i <= tail@.len(),
                name@ == start + tail@.take(i as int),
            decreases tail.len() - i,
        {
            name.push(tail[i]);
            i = i + 1;
            proof {
                assert(start + tail@.take(i as int) =~= (start + tail@.take(i - 1)).push(
                    tail@[i - 1],
                ));
            }
        }
        proof {
            assert(tail@.take(tail@.len() as int) =~= tail@);
        }
        push_vid_pid(&mut name, vid, pid);
        name.push(')');
        proof {
            assert(name@ =~= vendor.name@ + " Device ("@ + vid_pid_text(vid, pid) + seq![')']);
        }
        DeviceInfo {
            name: string_from_chars(&name),
            category: vendor.category.to_owned(),
            manufacturer: vendor.name.to_owned(),
        }
    } else {
        let mut name = chars_of("USB Device ");
        push_vid_pid(&mut name, vid, pid);
        DeviceInfo {
            name: string_from_chars(&name),
            category: "Unknown".to_owned(),
            manufacturer: String::new(),
        }
    }
}

/// Lower-cases the ASCII letters of `v`.
fn to_ascii_lowercase(v: &Vec<char>) -> (r: Vec<char>)
    ensures
        r@ == ascii_lowercase(v@),
{
    let mut r: Vec<char> = Vec::new();
    let mut i: usize = 0;
    while i < v.len()
        invariant
            i <= v@.len(),
            r@.len() == i,
            forall|k: int| 0 <= k < i ==> r@[k] == lower_ascii_char(v@[k]),
        decreases v.len() - i,
    {
        let c = v[i];
        if 'A' <= c && c <= 'Z' {
            r.push(((c as u8) + 32) as char);
        } else {
            r.push(c);
        }
        i = i + 1;
    }
    proof {
        assert(r@ =~= ascii_lowercase(v@));
    }
    r
}

/// Best-effort power role of a device, derived from its VID/PID category.
/// Not a live PD reading: a heuristic based on the known identity of the
/// device. A real USB hub class (0x09) is reported as "hub".
pub fn power_role(vid: u16, pid: u16, device_class: u8) -> (role: &'static str)
    ensures
        role@ == power_role_spec(vid, pid, device_class),
{
    if device_class == 0x09 {
        return "hub";
    }
    let info = lookup(vid, pid);
    let c = to_ascii_lowercase(&chars_of(info.category.as_str()));
    if contains_chars(&c, &chars_of("charger")) || contains_chars(&c, &chars_of("power"))
        || contains_chars(&c, &chars_of("dock")) {
        "source"
    } else if chars_eq(&c, &chars_of("mobile")) || contains_chars(&c, &chars_of("phone")) {
        "charging"
    } else if contains_chars(&c, &chars_of("webcam")) || contains_chars(&c, &chars_of("camera")) {
        "camera"
    } else {
        ""
    }
}

/// Looks up cable details specifically: `None` when the VID:PID is not a known cable.
pub fn lookup_cable(vid: u16, pid: u16) -> (r: Option<CableInfo>)
    ensures
        r == (if known_cables().contains_key(device_key(vid, pid)) {
            Some(known_cables()[device_key(vid, pid)])
        } else {
            None
        }),
{
    let cable_map = cables();
    match cable_map.get(&key_of(vid, pid)) {
        Some(c) => Some(*c),
        None => None,
    }
}

/// The vendor map holds at most one vendor per entry it was built from.
proof fn lemma_vendor_map_size(entries: Seq<(u16, &'static str, &'static str)>)
    ensures
        vendor_map(entries).dom().finite(),
        vendor_map(entries).len() <= entries.len(),
    decreases entries.len(),
{
    if entries.len() > 0 {
        lemma_vendor_map_size(entries.drop_last());
    }
}

/// The device map holds at most one device per entry it was built from.
proof fn lemma_device_map_size(entries: Seq<(u16, u16, &'static str, &'static str)>)
    ensures
        device_map(entries).dom().finite(),
        device_map(entries).len() <= entries.len(),
    decreases entries.len(),
{
    if entries.len() > 0 {
        lemma_device_map_size(entries.drop_last());
    }
}

/// The cable map holds at most one cable per entry it was built from.
proof fn lemma_cable_map_size(
    entries: Seq<(u16, u16, &'static str, &'static str, u32, &'static str)>,
)
    ensures
        cable_map(entries).dom().finite(),
        cable_map(entries).len() <= entries.len(),
    decreases entries.len(),
{
    if entries.len() > 0 {
        lemma_cable_map_size(entries.drop_last());
    }
}

/// Index of the first vendor entry for `vid`, keeping only canonical names
/// (without a parenthetical suffix) when `canonical` is set.
pub open spec fn first_vendor_entry(
    entries: Seq<(u16, &'static str, &'static str)>,
    vid: u16,
    canonical: bool,
) -> Option<int>
    decreases entries.len(),
{
    if entries.len() == 0 {
        None
    } else {
        match first_vendor_entry(entries.drop_last(), vid, canonical) {
            Some(i) => Some(i),
            None => {
                let e = entries.last();
                if e.0 == vid && (!canonical || !has_suffix_mark(e.1@)) {
                    Some(entries.len() - 1)
                } else {
                    None
                }
            },
        }
    }
}

/// What `first_vendor_entry` finds.
proof fn lemma_first_vendor_entry(
    entries: Seq<(u16, &'static str, &'static str)>,
    vid: u16,
    canonical: bool,
)
    ensures
        match first_vendor_entry(entries, vid, canonical) {
            Some(i) => 0 <= i < entries.len() && entries[i].0 == vid && (!canonical
                || !has_suffix_mark(entries[i].1@)),
            None => forall|k: int|
                0 <= k < entries.len() && (#[trigger] entries[k]).0 == vid ==> canonical
                    && has_suffix_mark(entries[k].1@),
        },
    decreases entries.len(),
{
    if entries.len() > 0 {
        lemma_first_vendor_entry(entries.drop_last(), vid, canonical);
        assert forall|k: int| 0 <= k < entries.len() - 1 implies #[trigger] entries[k]
            == entries.drop_last()[k] by {}
    }
}

/// Which vendor entry the vendor map keeps, whatever the order of the table:
/// a VID is known exactly when some entry has it, and its vendor is the
/// first entry for it with a canonical name (no parenthetical suffix), or,
/// when every entry for it has a suffix, the first entry for it.
pub proof fn lemma_vendor_map_prefers_canonical(
    entries: Seq<(u16, &'static str, &'static str)>,
    vid: u16,
)
    ensures
        vendor_map(entries).contains_key(vid) <==> first_vendor_entry(entries, vid, false) is Some,
        match first_vendor_entry(entries, vid, true) {
            Some(i) => vendor_map(entries)[vid] == VendorInfo {
                name: entries[i].1,
                category: entries[i].2,
            },
            None => match first_vendor_entry(entries, vid, false) {
                Some(i) => vendor_map(entries)[vid] == VendorInfo {
                    name: entries[i].1,
                    category: entries[i].2,
                },
                None => true,
            },
        },
    decreases entries.len(),
{
    if entries.len() > 0 {
        let prev = entries.drop_last();
        lemma_vendor_map_prefers_canonical(prev, vid);
        lemma_first_vendor_entry(prev, vid, true);
        lemma_first_vendor_entry(prev, vid, false);
        lemma_first_vendor_entry(entries, vid, true);
        lemma_first_vendor_entry(entries, vid, false);
        let e = entries.last();
        if e.0 == vid {
            match first_vendor_entry(prev, vid, false) {
                Some(i) => {
                    assert(prev[i] == entries[i]);
                    match first_vendor_entry(prev, vid, true) {
                        Some(j) => {
                            assert(prev[j] == entries[j]);
                        },
                        None => {
                            assert(has_suffix_mark(prev[i].1@));
                        },
                    }
                },
                None => {},
            }
        } else {
            match first_vendor_entry(prev, vid, false) {
                Some(i) => {
                    assert(prev[i] == entries[i]);
                },
                None => {},
            }
            match first_vendor_entry(prev, vid, true) {
                Some(j) => {
                    assert(prev[j] == entries[j]);
                },
                None => {},
            }
        }
    }
}

/// A well-formed cable: a name, a speed, a construction that is Passive,
/// Active or Hub, and a rated power of 15 to 240 W.
pub open spec fn cable_ok(c: CableInfo) -> bool {
    &&& c.name@.len() > 0
    &&& c.speed@.len() > 0
    &&& (c.cable_type@ == "Passive"@ || c.cable_type@ == "Active"@ || c.cable_type@ == "Hub"@)
    &&& 15 <= c.max_watts <= 240
}

/// Every device of the map comes from an entry with its key.
proof fn lemma_device_map_from_entries(entries: Seq<(u16, u16, &'static str, &'static str)>, k: u32)
    requires
        device_map(entries).contains_key(k),
    ensures
        exists|i: int|
            0 <= i < entries.len() && k == device_key((#[trigger] entries[i]).0, entries[i].1)
                && device_map(entries)[k] == (DeviceEntry { name: entries[i].2, category: entries[i].3 }),
    decreases entries.len(),
{
    let last = entries.len() - 1;
    let e = entries[last];
    if k != device_key(e.0, e.1) {
        lemma_device_map_from_entries(entries.drop_last(), k);
        let i = choose|i: int|
            0 <= i < entries.drop_last().len() && k == device_key(
                (#[trigger] entries.drop_last()[i]).0,
                entries.drop_last()[i].1,
            ) && device_map(entries.drop_last())[k] == (DeviceEntry {
                name: entries.drop_last()[i].2,
                category: entries.drop_last()[i].3,
            });
        assert(entries.drop_last()[i] == entries[i]);
    }
}

/// Every cable of the map comes from an entry with its key.
proof fn lemma_cable_map_from_entries(
    entries: Seq<(u16, u16, &'static str, &'static str, u32, &'static str)>,
    k: u32,
)
    requires
        cable_map(entries).contains_key(k),
    ensures
        exists|i: int|
            0 <= i < entries.len() && cable_map(entries)[k] == (CableInfo {
                name: (#[trigger] entries[i]).2,
                speed: entries[i].3,
                max_watts: entries[i].4,
                cable_type: entries[i].5,
            }),
    decreases entries.len(),
{
    let last = entries.len() - 1;
    let e = entries[last];
    if k != device_key(e.0, e.1) {
        lemma_cable_map_from_entries(entries.drop_last(), k);
        let i = choose|i: int|
            0 <= i < entries.drop_last().len() && cable_map(entries.drop_last())[k] == (CableInfo {
                name: (#[trigger] entries.drop_last()[i]).2,
                speed: entries.drop_last()[i].3,
                max_watts: entries.drop_last()[i].4,
                cable_type: entries.drop_last()[i].5,
            });
        assert(entries.drop_last()[i] == entries[i]);
    }
}

/// Cable entries with pairwise distinct keys give one cable each.
proof fn lemma_cable_map_len(entries: Seq<(u16, u16, &'static str, &'static str, u32, &'static str)>)
    requires
        forall|i: int, j: int|
            0 <= i < j < entries.len() ==> device_key((#[trigger] entries[i]).0, entries[i].1)
                != device_key((#[trigger] entries[j]).0, entries[j].1),
    ensures
        cable_map(entries).dom().finite(),
        cable_map(entries).len() == entries.len(),
    decreases entries.len(),
{
    if entries.len() > 0 {
        let prev = entries.drop_last();
        assert forall|i: int, j: int| 0 <= i < j < prev.len() implies device_key(
            (#[trigger] prev[i]).0,
            prev[i].1,
        ) != device_key((#[trigger] prev[j]).0, prev[j].1) by {
            assert(prev[i] == entries[i] && prev[j] == entries[j]);
        }
        lemma_cable_map_len(prev);
        let e = entries[entries.len() - 1];
        let k = device_key(e.0, e.1);
        if cable_map(prev).contains_key(k) {
            lemma_cable_map_key_from_entries(prev, k);
            let i = choose|i: int| 0 <= i < prev.len() && k == device_key((#[trigger] prev[i]).0, prev[i].1);
            assert(prev[i] == entries[i]);
        }
        assert(cable_map(entries).dom() =~= cable_map(prev).dom().insert(k));
    }
}

/// Every key of the cable map is the key of an entry.
proof fn lemma_cable_map_key_from_entries(
    entries: Seq<(u16, u16, &'static str, &'static str, u32, &'static str)>,
    k: u32,
)
    requires
        cable_map(entries).contains_key(k),
    ensures
        exists|i: int| 0 <= i < entries.len() && k == device_key((#[trigger] entries[i]).0, entries[i].1),
    decreases entries.len(),
{
    let last = entries.len() - 1;
    let e = entries[last];
    if k != device_key(e.0, e.1) {
        lemma_cable_map_key_from_entries(entries.drop_last(), k);
        let i = choose|i: int|
            0 <= i < entries.drop_last().len() && k == device_key(
                (#[trigger] entries.drop_last()[i]).0,
                entries.drop_last()[i].1,
            );
        assert(entries.drop_last()[i] == entries[i]);
    }
}

/// The cables of the database: 68 distinct cables, each with a name, a
/// speed, a construction that is Passive, Active or Hub, and a rated power
/// of 15 to 240 W.
pub proof fn lemma_known_cables_well_formed()
    ensures
        known_cables().len() == 68,
        forall|k: u32| #[trigger] known_cables().contains_key(k) ==> cable_ok(known_cables()[k]),
{
    crate::db_facts::lemma_cable_entries();
    crate::db_facts::lemma_cable_keys_distinct();
    assert forall|i: int, j: int| 0 <= i < j < CABLE_TABLE@.len() implies device_key(
        (#[trigger] CABLE_TABLE@[i]).0,
        CABLE_TABLE@[i].1,
    ) != device_key((#[trigger] CABLE_TABLE@[j]).0, CABLE_TABLE@[j].1) by {}
    lemma_cable_map_len(CABLE_TABLE@);
    assert forall|k: u32| #[trigger] known_cables().contains_key(k) implies cable_ok(known_cables()[k]) by {
        lemma_cable_map_from_entries(CABLE_TABLE@, k);
        let i = choose|i: int|
            0 <= i < CABLE_TABLE@.len() && known_cables()[k] == (CableInfo {
                name: (#[trigger] CABLE_TABLE@[i]).2,
                speed: CABLE_TABLE@[i].3,
                max_watts: CABLE_TABLE@[i].4,
                cable_type: CABLE_TABLE@[i].5,
            });
        assert(crate::db_facts::cable_entry_ok(CABLE_TABLE@[i]));
    }
}

/// What `lookup` reports, for every VID:PID: the category is "Cable" exactly
/// for known cables; the manufacturer is empty exactly when the category is
/// "Unknown"; the name and the category are never empty.
pub proof fn lemma_lookup_categories(vid: u16, pid: u16)
    ensures
        (lookup_spec(vid, pid).1 == "Cable"@) == known_cables().contains_key(device_key(vid, pid)),
        (lookup_spec(vid, pid).2.len() == 0) == (lookup_spec(vid, pid).1 == "Unknown"@),
        lookup_spec(vid, pid).0.len() > 0,
        lookup_spec(vid, pid).1.len() > 0,
{
    reveal_strlit("Cable");
    reveal_strlit("Unknown");
    reveal_strlit("USB Device ");
    assert("Cable"@.len() == 5);
    assert("Unknown"@.len() == 7);
    assert("USB Device "@.len() == 11);
    crate::db_facts::lemma_cable_entries();
    crate::db_facts::lemma_vendor_entries();
    crate::db_facts::lemma_device_entries();
    let k = device_key(vid, pid);
    if known_vendors().contains_key(vid) {
        lemma_vendor_map_prefers_canonical(VENDOR_TABLE@, vid);
        lemma_first_vendor_entry(VENDOR_TABLE@, vid, true);
        lemma_first_vendor_entry(VENDOR_TABLE@, vid, false);
        match first_vendor_entry(VENDOR_TABLE@, vid, true) {
            Some(i) => {
                assert(crate::db_facts::vendor_entry_ok(VENDOR_TABLE@[i]));
            },
            None => {
                let i = first_vendor_entry(VENDOR_TABLE@, vid, false)->0;
                assert(crate::db_facts::vendor_entry_ok(VENDOR_TABLE@[i]));
            },
        }
        assert(known_vendors()[vid].name@.len() > 0);
        assert(known_vendors()[vid].category@ != "Cable"@);
        assert(known_vendors()[vid].category@ != "Unknown"@);
    }
    assert(manufacturer_of(vid).len() > 0);
    if known_cables().contains_key(k) {
        lemma_known_cables_well_formed();
    } else if known_devices().contains_key(k) {
        lemma_device_map_from_entries(DEVICE_TABLE@, k);
        let i = choose|i: int|
            0 <= i < DEVICE_TABLE@.len() && k == device_key((#[trigger] DEVICE_TABLE@[i]).0, DEVICE_TABLE@[i].1)
                && known_devices()[k] == (DeviceEntry {
                name: DEVICE_TABLE@[i].2,
                category: DEVICE_TABLE@[i].3,
            });
        assert(crate::db_facts::device_entry_ok(DEVICE_TABLE@[i]));
    }
}

/// How the power role follows from the device class and the category that
/// `lookup` reports, lower-cased (`c` below):
/// - class 0x09 is a hub: "hub";
/// - otherwise `c` containing "charger", "power" or "dock" is a power source:
///   "source" (a power bank, a power monitor, a charger, a dock);
/// - otherwise `c` being "mobile" or containing "phone" is a device that
///   charges: "charging";
/// - otherwise `c` containing "webcam" or "camera": "camera";
/// - otherwise no role: "".
pub proof fn lemma_power_role_rules(vid: u16, pid: u16, device_class: u8)
    ensures
        ({
            let c = ascii_lowercase(lookup_spec(vid, pid).1);
            let role = power_role_spec(vid, pid, device_class);
            let source = has_substring(c, "charger"@) || has_substring(c, "power"@)
                || has_substring(c, "dock"@);
            let charging = c == "mobile"@ || has_substring(c, "phone"@);
            let camera = has_substring(c, "webcam"@) || has_substring(c, "camera"@);
            &&& device_class == 0x09 ==> role == "hub"@
            &&& device_class != 0x09 && source ==> role == "source"@
            &&& device_class != 0x09 && !source && charging ==> role == "charging"@
            &&& device_class != 0x09 && !source && !charging && camera ==> role == "camera"@
            &&& device_class != 0x09 && !source && !charging && !camera ==> role == ""@
        }),
{
}

/// The device the map keeps for a key is the last entry listed with that
/// key: a key is known exactly when some entry has it, and then its device
/// is that of the entry of greatest index with that key.
pub proof fn lemma_device_map_last_entry_wins(
    entries: Seq<(u16, u16, &'static str, &'static str)>,
    k: u32,
)
    ensures
        device_map(entries).contains_key(k) <==> exists|i: int|
            0 <= i < entries.len() && device_key((#[trigger] entries[i]).0, entries[i].1) == k,
        device_map(entries).contains_key(k) ==> exists|i: int|
            0 <= i < entries.len() && device_key((#[trigger] entries[i]).0, entries[i].1) == k
                && device_map(entries)[k] == (DeviceEntry {
                name: entries[i].2,
                category: entries[i].3,
            }) && forall|j: int|
                i < j < entries.len() ==> device_key((#[trigger] entries[j]).0, entries[j].1) != k,
    decreases entries.len(),
{
    if entries.len() > 0 {
        let prev = entries.drop_last();
        let last = entries.len() - 1;
        let e = entries[last];
        lemma_device_map_last_entry_wins(prev, k);
        if device_key(e.0, e.1) == k {
            assert(device_key(entries[last].0, entries[last].1) == k);
        } else {
            if exists|i: int| 0 <= i < entries.len() && device_key((#[trigger] entries[i]).0, entries[i].1) == k {
                let i = choose|i: int|
                    0 <= i < entries.len() && device_key((#[trigger] entries[i]).0, entries[i].1) == k;
                assert(i != last);
                assert(prev[i] == entries[i]);
            }
            if device_map(prev).contains_key(k) {
                let i = choose|i: int|
                    0 <= i < prev.len() && device_key((#[trigger] prev[i]).0, prev[i].1) == k
                        && device_map(prev)[k] == (DeviceEntry { name: prev[i].2, category: prev[i].3 })
                        && forall|j: int| i < j < prev.len() ==> device_key((#[trigger] prev[j]).0, prev[j].1) != k;
                assert(prev[i] == entries[i]);
                assert forall|j: int| i < j < entries.len() implies device_key(
                    (#[trigger] entries[j]).0,
                    entries[j].1,
                ) != k by {
                    if j < last {
                        assert(prev[j] == entries[j]);
                    }
                }
            }
        }
    }
}

/// The cable the map keeps for a key is the last entry listed with that key.
pub proof fn lemma_cable_map_last_entry_wins(
    entries: Seq<(u16, u16, &'static str, &'static str, u32, &'static str)>,
    k: u32,
)
    ensures
        cable_map(entries).contains_key(k) <==> exists|i: int|
            0 <= i < entries.len() && device_key((#[trigger] entries[i]).0, entries[i].1) == k,
        cable_map(entries).contains_key(k) ==> exists|i: int|
            0 <= i < entries.len() && device_key((#[trigger] entries[i]).0, entries[i].1) == k
                && cable_map(entries)[k] == (CableInfo {
                name: entries[i].2,
                speed: entries[i].3,
                max_watts: entries[i].4,
                cable_type: entries[i].5,
            }) && forall|j: int|
                i < j < entries.len() ==> device_key((#[trigger] entries[j]).0, entries[j].1) != k,
    decreases entries.len(),
{
    if entries.len() > 0 {
        let prev = entries.drop_last();
        let last = entries.len() - 1;
        let e = entries[last];
        lemma_cable_map_last_entry_wins(prev, k);
        if device_key(e.0, e.1) == k {
            assert(device_key(entries[last].0, entries[last].1) == k);
        } else {
            if exists|i: int| 0 <= i < entries.len() && device_key((#[trigger] entries[i]).0, entries[i].1) == k {
                let i = choose|i: int|
                    0 <= i < entries.len() && device_key((#[trigger] entries[i]).0, entries[i].1) == k;
                assert(i != last);
                assert(prev[i] == entries[i]);
            }
            if cable_map(prev).contains_key(k) {
                let i = choose|i: int|
                    0 <= i < prev.len() && device_key((#[trigger] prev[i]).0, prev[i].1) == k
                        && cable_map(prev)[k] == (CableInfo {
                        name: prev[i].2,
                        speed: prev[i].3,
                        max_watts: prev[i].4,
                        cable_type: prev[i].5,
                    }) && forall|j: int| i < j < prev.len() ==> device_key((#[trigger] prev[j]).0, prev[j].1) != k;
                assert(prev[i] == entries[i]);
                assert forall|j: int| i < j < entries.len() implies device_key(
                    (#[trigger] entries[j]).0,
                    entries[j].1,
                ) != k by {
                    if j < last {
                        assert(prev[j] == entries[j]);
                    }
                }
            }
        }
    }
}

/// Which table answers `lookup`: a known cable first (its name, category
/// "Cable"); else a specific device (its name and category); in both cases
/// the manufacturer is the vendor's name, or "Unknown" when the vendor is
/// not known. Else the vendor alone: `{vendor} Device (VVVV:PPPP)`, the
/// vendor's category and name. Else nothing is known:
/// `USB Device VVVV:PPPP`, "Unknown", and no manufacturer. VVVV and PPPP
/// are the IDs as four upper-case hexadecimal digits.
pub proof fn lemma_lookup_precedence(vid: u16, pid: u16)
    ensures
        ({
            let r = lookup_spec(vid, pid);
            let k = device_key(vid, pid);
            let ids = hex_fixed(vid as nat, 4) + seq![':'] + hex_fixed(pid as nat, 4);
            let maker = if known_vendors().contains_key(vid) {
                known_vendors()[vid].name@
            } else {
                "Unknown"@
            };
            &&& known_cables().contains_key(k) ==> r == (known_cables()[k].name@, "Cable"@, maker)
            &&& !known_cables().contains_key(k) && known_devices().contains_key(k) ==> r == (
                known_devices()[k].name@,
                known_devices()[k].category@,
                maker,
            )
            &&& !known_cables().contains_key(k) && !known_devices().contains_key(k)
                && known_vendors().contains_key(vid) ==> r == (
                known_vendors()[vid].name@ + " Device ("@ + ids + seq![')'],
                known_vendors()[vid].category@,
                known_vendors()[vid].name@,
            )
            &&& !known_cables().contains_key(k) && !known_devices().contains_key(k)
                && !known_vendors().contains_key(vid) ==> r == ("USB Device "@ + ids, "Unknown"@, Seq::<char>::empty())
        }),
{
}

/// Database sizes: (vendors, devices, cables, total), each counted once per
/// distinct key.
pub fn db_stats() -> (r: (usize, usize, usize, usize))
    ensures
        r.0 == known_vendors().len(),
        r.1 == known_devices().len(),
        r.2 == known_cables().len(),
        r.3 == r.0 + r.1 + r.2,
{
    proof {
        lemma_vendor_map_size(VENDOR_TABLE@);
        lemma_device_map_size(DEVICE_TABLE@);
        lemma_cable_map_size(CABLE_TABLE@);
    }
    let v = vendors().len();
    let d = devices().len();
    let c = cables().len();
    (v, d, c, v + d + c)
}

} // verus!
