//! Hubs and their ports: which interface paths are hubs, how a hub is named,
//! what a port status word means, and the canonical key that pairs a hub's
//! interface path with its device instance ID.

use super::{PortView, UsbController, UsbPort};
use crate::text::{
    chars_of, contains_chars, decimal, has_substring, join_with, lowercase, push_decimal,
    replace_char, replace_chars, split_by, split_chars, string_from_chars, to_lowercase,
    without_prefix, without_prefix_chars,
};
use vstd::prelude::*;

verus! {

/// The character sequences of a list of strings.
pub open spec fn texts(v: Seq<String>) -> Seq<Seq<char>> {
    v.map_values(|s: String| s@)
}

// ─── Hub interface paths ───────────────────────────────────────────

/// The hub interface paths of `raw`, in order of first appearance, each once,
/// empty paths left out.
pub open spec fn unique_paths(raw: Seq<Seq<char>>) -> Seq<Seq<char>>
    decreases raw.len(),
{
    if raw.len() == 0 {
        Seq::empty()
    } else {
        let kept = unique_paths(raw.drop_last());
        let p = raw.last();
        if p.len() > 0 && !kept.contains(p) {
            kept.push(p)
        } else {
            kept
        }
    }
}

/// The merged paths hold each non-empty path of `raw` exactly once and
/// nothing else.
pub proof fn lemma_unique_paths(raw: Seq<Seq<char>>)
    ensures
        forall|i: int, j: int|
            0 <= i < j < unique_paths(raw).len() ==> #[trigger] unique_paths(raw)[i]
                != #[trigger] unique_paths(raw)[j],
        forall|p: Seq<char>| #[trigger]
            unique_paths(raw).contains(p) <==> p.len() > 0 && raw.contains(p),
    decreases raw.len(),
{
    if raw.len() > 0 {
        let prev = raw.drop_last();
        lemma_unique_paths(prev);
        let kept = unique_paths(prev);
        let last = raw.last();
        assert forall|p: Seq<char>| raw.contains(p) <==> prev.contains(p) || p == last by {
            if raw.contains(p) {
                let k = choose|k: int| 0 <= k < raw.len() && raw[k] == p;
                if k < raw.len() - 1 {
                    assert(prev[k] == p);
                }
            }
            if prev.contains(p) {
                let k = choose|k: int| 0 <= k < prev.len() && prev[k] == p;
                assert(raw[k] == p);
            }
            if p == last {
                assert(raw[raw.len() - 1] == p);
            }
        }
        if last.len() > 0 && !kept.contains(last) {
            let next = kept.push(last);
            assert forall|p: Seq<char>| next.contains(p) <==> kept.contains(p) || p == last by {
                if next.contains(p) {
                    let k = choose|k: int| 0 <= k < next.len() && next[k] == p;
                    if k < kept.len() {
                        assert(kept[k] == p);
                    }
                }
                if kept.contains(p) {
                    let k = choose|k: int| 0 <= k < kept.len() && kept[k] == p;
                    assert(next[k] == p);
                }
                if p == last {
                    assert(next[next.len() - 1] == p);
                }
            }
            assert forall|i: int, j: int| 0 <= i < j < next.len() implies #[trigger] next[i]
                != #[trigger] next[j] by {
                if j == next.len() - 1 {
                    assert(next[i] == kept[i]);
                    assert(kept.contains(kept[i]));
                } else {
                    assert(next[i] == kept[i] && next[j] == kept[j]);
                }
            }
        }
    }
}

/// Whether `p` is one of `v`.
fn contains_string(v: &Vec<String>, p: &String) -> (r: bool)
    ensures
        r == texts(v@).contains(p@),
{
    let mut i: usize = 0;
    while i < v.len()
        invariant
            i <= v@.len(),
            forall|k: int| 0 <= k < i ==> v@[k]@ != p@,
        decreases v.len() - i,
    {
        if v[i] == *p {
            proof {
                assert(texts(v@)[i as int] == p@);
            }
            return true;
        }
        i = i + 1;
    }
    proof {
        if texts(v@).contains(p@) {
            let k = choose|k: int| 0 <= k < texts(v@).len() && texts(v@)[k] == p@;
            assert(v@[k]@ == p@);
        }
    }
    false
}

/// The hub interface paths found under every hub interface class, merged in
/// the order they were found: empty paths dropped, each path kept once.
pub fn unique_hub_paths(raw: Vec<String>) -> (r: Vec<String>)
    ensures
        texts(r@) == unique_paths(texts(raw@)),
        forall|i: int, j: int| 0 <= i < j < r@.len() ==> #[trigger] r@[i]@ != #[trigger] r@[j]@,
        forall|p: Seq<char>| #[trigger]
            texts(r@).contains(p) <==> p.len() > 0 && texts(raw@).contains(p),
{
    let mut r: Vec<String> = Vec::new();
    let mut i: usize = 0;
    while i < raw.len()
        invariant
            i <= raw@.len(),
            texts(r@) == unique_paths(texts(raw@.take(i as int))),
        decreases raw.len() - i,
    {
        let p = &raw[i];
        proof {
            assert(texts(raw@.take(i + 1)).drop_last() =~= texts(raw@.take(i as int)));
            assert(texts(raw@.take(i + 1)).last() == p@);
        }
        if p.as_str().unicode_len() > 0 && !contains_string(&r, p) {
            let ghost before = r@;
            r.push(p.clone());
            proof {
                assert(texts(r@) =~= texts(before).push(p@));
            }
        }
        i = i + 1;
    }
    proof {
        assert(raw@.take(i as int) =~= raw@);
        lemma_unique_paths(texts(raw@));
        assert forall|i: int, j: int| 0 <= i < j < r@.len() implies #[trigger] r@[i]@
            != #[trigger] r@[j]@ by {
            assert(texts(r@)[i] == r@[i]@ && texts(r@)[j] == r@[j]@);
        }
    }
    r
}

/// An interface key name that belongs to a USB root hub.
pub open spec fn names_root_hub(name: Seq<char>) -> bool {
    has_substring(name, "USB#ROOT_HUB"@) || has_substring(name, "usb#root_hub"@)
}

/// Whether a device interface key name belongs to a USB root hub; an
/// interface class holding such a key is a hub interface class.
pub fn is_root_hub_interface(name: &str) -> (r: bool)
    ensures
        r == names_root_hub(name@),
{
    let s = chars_of(name);
    contains_chars(&s, &chars_of("USB#ROOT_HUB")) || contains_chars(&s, &chars_of("usb#root_hub"))
}

/// Number of ports of a hub from its node information: the hub descriptor's
/// `bNumberOfPorts`, at byte 6 (a 4-byte header, then the descriptor).
pub fn ports_in_node_info(node_info: &[u8]) -> (n: u32)
    requires
        node_info@.len() > 6,
    ensures
        n == node_info@[6],
{
    node_info[6] as u32
}

// ─── Controllers ───────────────────────────────────────────────────

/// Display name of a hub from its interface path
/// `\\.\usb#root_hub30#5&239a9e6d&0&0#{guid}`: the second and third
/// `#`-separated parts as `second (third)`, or the whole path when it has
/// fewer than three parts.
pub open spec fn hub_display_name(path: Seq<char>) -> Seq<char> {
    let parts = split_by(path, seq!['#']);
    if parts.len() >= 3 {
        parts[1] + seq![' ', '('] + parts[2] + seq![')']
    } else {
        path
    }
}

/// A hub is named after the second and third `#`-separated parts of its
/// path: `p0#p1#p2` and `p0#p1#p2#rest` are named `p1 (p2)`; a path with no
/// `#` is named after itself.
pub proof fn lemma_hub_display_name_parts(
    p0: Seq<char>,
    p1: Seq<char>,
    p2: Seq<char>,
    rest: Seq<char>,
)
    requires
        !p0.contains('#'),
        !p1.contains('#'),
        !p2.contains('#'),
    ensures
        hub_display_name(p0 + seq!['#'] + p1 + seq!['#'] + p2) == p1 + seq![' ', '('] + p2 + seq![')'],
        hub_display_name(p0 + seq!['#'] + p1 + seq!['#'] + p2 + seq!['#'] + rest) == p1 + seq![' ', '(']
            + p2 + seq![')'],
        hub_display_name(p0) == p0,
{
    let h = seq!['#'];
    assert(h.contains('#')) by {
        assert(h[0] == '#');
    }
    assert forall|x: Seq<char>| !x.contains('#') implies split_by(x, h) == seq![x] by {
        assert forall|i: int| 0 <= i < x.len() implies !h.contains(#[trigger] x[i]) by {
            if h.contains(x[i]) {
                let j = choose|j: int| 0 <= j < 1 && h[j] == x[i];
                assert(h[j] == '#');
                assert(x.contains('#'));
            }
        }
        crate::text::lemma_split_by_plain(x, h);
    }
    let a = p0 + h + p1 + h + p2;
    assert(a =~= p0 + h + (p1 + h + p2));
    crate::text::lemma_split_by_concat(p0, p1 + h + p2, h, '#');
    crate::text::lemma_split_by_concat(p1, p2, h, '#');
    assert(split_by(a, h) =~= seq![p0, p1, p2]);
    let b = p0 + h + p1 + h + p2 + h + rest;
    assert(b =~= p0 + h + (p1 + h + (p2 + h + rest)));
    crate::text::lemma_split_by_concat(p0, p1 + h + (p2 + h + rest), h, '#');
    crate::text::lemma_split_by_concat(p1, p2 + h + rest, h, '#');
    crate::text::lemma_split_by_concat(p2, rest, h, '#');
    let sb = split_by(b, h);
    assert(sb[1] == p1);
    assert(sb[2] == p2);
    assert(sb.len() >= 3) by {
        crate::text::lemma_split_by_nonempty(rest, h);
    }
}

/// Abstract value of the controller for a hub path with `port_count` ports.
pub open spec fn controller_view(path: Seq<char>, port_count: u32) -> super::ControllerView {
    super::ControllerView { name: hub_display_name(path), hub_path: path, port_count }
}

/// The controller for a hub interface path, `None` when the hub has no port.
pub fn controller_for(hub_path: &String, port_count: u32) -> (r: Option<UsbController>)
    ensures
        port_count == 0 <==> r is None,
        r matches Some(c) ==> c@ == controller_view(hub_path@, port_count),
{
    if port_count == 0 {
        return None;
    }
    let path = chars_of(hub_path.as_str());
    let mut hash: Vec<char> = Vec::new();
    hash.push('#');
    let parts = split_chars(&path, &hash);
    proof {
        assert(hash@ =~= seq!['#']);
    }
    let name = if parts.len() >= 3 {
        let mut v = parts[1].clone();
        v.push(' ');
        v.push('(');
        let mut third = parts[2].clone();
        v.append(&mut third);
        v.push(')');
        proof {
            assert(v@ =~= parts@[1]@ + seq![' ', '('] + parts@[2]@ + seq![')']);
        }
        string_from_chars(&v)
    } else {
        hub_path.clone()
    };
    Some(UsbController { name, hub_path: hub_path.clone(), port_count })
}

// ─── Ports ─────────────────────────────────────────────────────────

/// Speed rank and label of a port from its status word: SuperSpeed bits
/// first, then high speed, then low speed; a connected port with none of
/// them runs at full speed.
pub open spec fn port_speed(status: u32) -> (u32, Seq<char>) {
    if status & 0x1000 != 0 || status & 0x2000 != 0 {
        (4, "SuperSpeed"@)
    } else if status & 0x0400 != 0 {
        (3, "High Speed"@)
    } else if status & 0x0200 != 0 {
        (1, "Low Speed"@)
    } else if status & 0x0001 != 0 {
        (2, "Full Speed"@)
    } else {
        (0, "Unknown"@)
    }
}

/// A port with a device on it always has a known speed: its rank is at
/// least 1 and its label is not `Unknown`.
pub proof fn lemma_connected_port_has_speed(status: u32)
    ensures
        status & 0x0001 != 0 ==> port_speed(status).0 >= 1 && port_speed(status).1 != "Unknown"@,
{
    reveal_strlit("Unknown");
    reveal_strlit("SuperSpeed");
    reveal_strlit("High Speed");
    reveal_strlit("Low Speed");
    reveal_strlit("Full Speed");
    assert("Unknown"@.len() == 7);
    assert(port_speed(status).1.len() != 7 || status & 0x0001 == 0);
}

/// How a port record follows from its status word: the port is connected
/// exactly when bit 0 is set, and then reads "Connected", else "No Device";
/// its speed is SuperSpeed (rank 4) when bit 12 or 13 is set, else High Speed
/// (rank 3) when bit 10 is set, else Low Speed (rank 1) when bit 9 is set,
/// else Full Speed (rank 2) when connected, else Unknown (rank 0); its ID is
/// `{hub_path}:{port}`.
pub proof fn lemma_port_status_rules(hub_path: Seq<char>, name: Seq<char>, port: u32, status: u32)
    ensures
        ({
            let p = port_view(hub_path, name, port, status);
            let sup = status & 0x1000 != 0 || status & 0x2000 != 0;
            let high = status & 0x0400 != 0;
            let low = status & 0x0200 != 0;
            let conn = status & 0x0001 != 0;
            &&& p.connected == conn
            &&& p.status == (if conn { "Connected"@ } else { "No Device"@ })
            &&& sup ==> p.speed_value == 4 && p.speed == "SuperSpeed"@
            &&& !sup && high ==> p.speed_value == 3 && p.speed == "High Speed"@
            &&& !sup && !high && low ==> p.speed_value == 1 && p.speed == "Low Speed"@
            &&& !sup && !high && !low && conn ==> p.speed_value == 2 && p.speed == "Full Speed"@
            &&& !sup && !high && !low && !conn ==> p.speed_value == 0 && p.speed == "Unknown"@
            &&& p.id == hub_path + seq![':'] + decimal(port as nat)
            &&& p.hub_path == hub_path && p.controller_name == name && p.port_number == port
        }),
{
}

/// The USB version text of a binary-coded version `major.minor.patch`
/// (`0xJJNP`): the decimal major, a dot, the minor digit, and, when the patch
/// digit is not zero, a dot and the patch digit.
pub proof fn lemma_usb_version_parts(major: nat, minor: nat, patch: nat)
    requires
        major < 256,
        minor < 16,
        patch < 16,
    ensures
        usb_version_text((major * 256 + minor * 16 + patch) as u16) == decimal(major) + seq!['.']
            + decimal(minor) + (if patch > 0 {
            seq!['.'] + decimal(patch)
        } else {
            Seq::empty()
        }),
{
    let bcd = (major * 256 + minor * 16 + patch) as u16;
    assert(bcd as int == major * 256 + minor * 16 + patch);
    assert(bcd / 256 == major) by (nonlinear_arith)
        requires
            bcd as int == major * 256 + minor * 16 + patch,
            minor < 16,
            patch < 16,
    ;
    assert((bcd / 16) % 16 == minor) by (nonlinear_arith)
        requires
            bcd as int == major * 256 + minor * 16 + patch,
            minor < 16,
            patch < 16,
    ;
    assert(bcd % 16 == patch) by (nonlinear_arith)
        requires
            bcd as int == major * 256 + minor * 16 + patch,
            patch < 16,
    ;
    if patch > 0 {
        assert(decimal(major) + seq!['.'] + decimal(minor) + seq!['.'] + decimal(patch) =~= decimal(major)
            + seq!['.'] + decimal(minor) + (seq!['.'] + decimal(patch)));
    } else {
        assert(decimal(major) + seq!['.'] + decimal(minor) =~= decimal(major) + seq!['.'] + decimal(
            minor,
        ) + Seq::<char>::empty());
    }
}

/// The ID of port `port` of the hub at `hub_path`: `{hub_path}:{port}`.
pub open spec fn port_id_text(hub_path: Seq<char>, port: u32) -> Seq<char> {
    hub_path + seq![':'] + decimal(port as nat)
}

/// Abstract value of port `port` of a hub, given its status word.
pub open spec fn port_view(
    hub_path: Seq<char>,
    controller_name: Seq<char>,
    port: u32,
    status: u32,
) -> PortView {
    let connected = status & 0x0001 != 0;
    PortView {
        id: port_id_text(hub_path, port),
        controller_name,
        hub_path,
        port_number: port,
        connected,
        speed: port_speed(status).1,
        speed_value: port_speed(status).0,
        device_address: 0,
        open_pipes: 0,
        status: if connected {
            "Connected"@
        } else {
            "No Device"@
        },
    }
}

/// `{hub_path}:{port}`.
pub fn port_id(hub_path: &String, port: u32) -> (r: String)
    ensures
        r@ == port_id_text(hub_path@, port),
{
    let mut v = chars_of(hub_path.as_str());
    v.push(':');
    push_decimal(&mut v, port as u64);
    string_from_chars(&v)
}

/// The port record for port `port` of a hub whose status word is `status`.
pub fn port_from_status(hub_path: &String, controller_name: &String, port: u32, status: u32) -> (r:
    UsbPort)
    ensures
        r@ == port_view(hub_path@, controller_name@, port, status),
{
    let connected = (status & 0x0001) != 0;
    let (speed_value, speed) = if (status & 0x1000) != 0 || (status & 0x2000) != 0 {
        (4u32, "SuperSpeed".to_owned())
    } else if (status & 0x0400) != 0 {
        (3u32, "High Speed".to_owned())
    } else if (status & 0x0200) != 0 {
        (1u32, "Low Speed".to_owned())
    } else if connected {
        (2u32, "Full Speed".to_owned())
    } else {
        (0u32, "Unknown".to_owned())
    };
    let status_text = if connected {
        "Connected".to_owned()
    } else {
        "No Device".to_owned()
    };
    UsbPort {
        id: port_id(hub_path, port),
        controller_name: controller_name.clone(),
        hub_path: hub_path.clone(),
        port_number: port,
        connected,
        speed,
        speed_value,
        device_address: 0,
        open_pipes: 0,
        status: status_text,
    }
}

// ─── Hub keys ──────────────────────────────────────────────────────

/// The leading pieces of `parts` up to the first that starts with `{`.
pub open spec fn until_brace(parts: Seq<Seq<char>>) -> Seq<Seq<char>>
    decreases parts.len(),
{
    if parts.len() == 0 || (parts[0].len() > 0 && parts[0][0] == '{') {
        Seq::empty()
    } else {
        seq![parts[0]] + until_brace(parts.skip(1))
    }
}

/// Canonical key of a hub from its interface path
/// (`\\?\usb#vid_2109&pid_0822#6&1b2b7d3c&0&0#{guid}` gives
/// `vid_2109&pid_0822#6&1b2b7d3c&0&0`): the `#`-separated pieces after the
/// first, up to the one that opens the class GUID, joined again and
/// lower-cased; `None` when there is no such piece.
pub open spec fn service_path_key(path: Seq<char>) -> Option<Seq<char>> {
    let inner = until_brace(split_by(path, seq!['#']).skip(1));
    if inner.len() == 0 {
        None
    } else {
        Some(lowercase(join_with(inner, seq!['#'])))
    }
}

/// Canonical key of a hub from its device instance ID
/// (`USB\VID_2109&PID_0822\6&1B2B7D3C&0&0` gives
/// `vid_2109&pid_0822#6&1b2b7d3c&0&0`): without a leading `USB\`, every
/// `\` turned into `#`, lower-cased.
pub open spec fn dev_instance_key(instance: Seq<char>) -> Seq<char> {
    lowercase(replace_char(without_prefix(instance, "USB\\"@), '\\', '#'))
}

/// `until_brace` of a suffix, once the pieces before `k` are known.
proof fn lemma_until_brace_prefix(ps: Seq<Seq<char>>, i: int, k: int)
    requires
        0 <= i <= k <= ps.len(),
        forall|j: int| i <= j < k ==> !(ps[j].len() > 0 && #[trigger] ps[j][0] == '{'),
    ensures
        until_brace(ps.skip(i)) == ps.subrange(i, k) + until_brace(ps.skip(k)),
    decreases k - i,
{
    if i < k {
        lemma_until_brace_prefix(ps, i + 1, k);
        assert(ps.skip(i).skip(1) =~= ps.skip(i + 1));
        assert(ps.skip(i)[0] == ps[i]);
        assert(ps.subrange(i, k) =~= seq![ps[i]] + ps.subrange(i + 1, k));
    } else {
        assert(ps.subrange(i, k) =~= Seq::<Seq<char>>::empty());
    }
}

/// A hub's interface path and its device instance ID name the hub by the
/// same pieces (`\\?\usb#vid_2109&pid_0822#6&1b2b7d3c&0&0#{guid}` and
/// `USB\vid_2109&pid_0822\6&1b2b7d3c&0&0`), so they give the same hub key:
/// this is what pairs a device's hub with a controller of the scan.
pub proof fn lemma_hub_keys_agree(prefix: Seq<char>, parts: Seq<Seq<char>>, guid: Seq<char>)
    requires
        parts.len() >= 1,
        !prefix.contains('#'),
        forall|i: int|
            0 <= i < parts.len() ==> !(#[trigger] parts[i]).contains('#') && !parts[i].contains(
                '\\',
            ) && !(parts[i].len() > 0 && parts[i][0] == '{'),
        guid.len() > 0 && guid[0] == '{',
    ensures
        service_path_key(prefix + seq!['#'] + join_with(parts, seq!['#']) + seq!['#'] + guid)
            == Some(dev_instance_key("USB\\"@ + join_with(parts, seq!['\\']))),
{
    let joined = join_with(parts, seq!['#']);
    let path = prefix + seq!['#'] + joined + seq!['#'] + guid;
    assert(seq!['#'].contains('#')) by {
        assert(seq!['#'][0] == '#');
    }
    // The path splits into the prefix, the pieces, then the GUID's pieces.
    assert(path == prefix + seq!['#'] + (joined + seq!['#'] + guid)) by {
        assert(path =~= prefix + seq!['#'] + (joined + seq!['#'] + guid));
    }
    crate::text::lemma_split_by_concat(prefix, joined + seq!['#'] + guid, seq!['#'], '#');
    crate::text::lemma_split_by_concat(joined, guid, seq!['#'], '#');
    assert forall|i: int| 0 <= i < prefix.len() implies !seq!['#'].contains(#[trigger] prefix[i]) by {
        if seq!['#'].contains(prefix[i]) {
            assert(prefix.contains('#'));
        }
    }
    crate::text::lemma_split_by_plain(prefix, seq!['#']);
    crate::text::lemma_split_join(parts, '#');
    let g = split_by(guid, seq!['#']);
    crate::text::lemma_split_by_nonempty(guid, seq!['#']);
    let all = split_by(path, seq!['#']);
    assert(all == seq![prefix] + parts + g);
    assert(all.skip(1) =~= parts + g);
    // The pieces stop at the one that opens the GUID.
    let rest = parts + g;
    lemma_until_brace_prefix(rest, 0, parts.len() as int);
    assert(rest.skip(0) =~= rest);
    assert(rest.subrange(0, parts.len() as int) =~= parts);
    assert(rest.skip(parts.len() as int) =~= g);
    assert(g[0].len() > 0 && g[0][0] == '{') by {
        lemma_first_piece(guid, seq!['#']);
    }
    assert(until_brace(g) =~= Seq::<Seq<char>>::empty());
    assert(until_brace(all.skip(1)) =~= parts);
    // The instance ID, once its `USB\` is dropped, is the pieces joined by `\`.
    let inst = "USB\\"@ + join_with(parts, seq!['\\']);
    assert(without_prefix(inst, "USB\\"@) == join_with(parts, seq!['\\'])) by {
        reveal_strlit("USB\\");
        assert(inst.take(4) =~= "USB\\"@);
        assert(inst.skip(4) =~= join_with(parts, seq!['\\']));
    }
    crate::text::lemma_replace_join(parts, '\\', '#');
}

/// The first piece of a split starts like the text, up to the first separator.
proof fn lemma_first_piece(s: Seq<char>, seps: Seq<char>)
    requires
        s.len() > 0,
        !seps.contains(s[0]),
    ensures
        split_by(s, seps).len() >= 1,
        split_by(s, seps)[0].len() > 0 && split_by(s, seps)[0][0] == s[0],
    decreases s.len(),
{
    crate::text::lemma_split_by_nonempty(s, seps);
    if s.len() == 1 {
        assert(s.drop_last() =~= Seq::<char>::empty());
    } else {
        lemma_first_piece(s.drop_last(), seps);
        crate::text::lemma_split_by_nonempty(s.drop_last(), seps);
    }
}

/// Canonical hub key from a hub interface path.
pub fn hub_key_from_service_path(path: &str) -> (r: Option<String>)
    ensures
        r matches Some(k) ==> service_path_key(path@) == Some(k@),
        r is None ==> service_path_key(path@) is None,
{
    let chars = chars_of(path);
    let mut hash: Vec<char> = Vec::new();
    hash.push('#');
    let tokens = split_chars(&chars, &hash);
    let ghost ps = split_by(path@, seq!['#']);
    proof {
        assert(hash@ =~= seq!['#']);
        crate::text::lemma_split_by_nonempty(path@, seq!['#']);
    }
    let mut joined: Vec<char> = Vec::new();
    let mut k: usize = 1;
    while k < tokens.len() && !(tokens[k].len() > 0 && tokens[k][0] == '{')
        invariant
            1 <= k <= tokens@.len(),
            tokens@.len() == ps.len(),
            forall|j: int| 0 <= j < ps.len() ==> #[trigger] tokens@[j]@ == ps[j],
            forall|j: int| 1 <= j < k ==> !(ps[j].len() > 0 && #[trigger] ps[j][0] == '{'),
            joined@ == join_with(ps.subrange(1, k as int), seq!['#']),
        decreases tokens.len() - k,
    {
        let ghost before = joined@;
        if k > 1 {
            joined.push('#');
        }
        let mut piece = tokens[k].clone();
        joined.append(&mut piece);
        proof {
            let sub = ps.subrange(1, k + 1);
            assert(sub.drop_last() =~= ps.subrange(1, k as int));
            if k > 1 {
                assert(joined@ =~= before + seq!['#'] + ps[k as int]);
            } else {
                assert(sub =~= seq![ps[1]]);
                assert(joined@ =~= ps[1]);
            }
        }
        k = k + 1;
    }
    proof {
        lemma_until_brace_prefix(ps, 1, k as int);
        if k < ps.len() {
            assert(ps.skip(k as int)[0] == ps[k as int]);
        }
        assert(until_brace(ps.skip(k as int)) =~= Seq::<Seq<char>>::empty());
        assert(until_brace(ps.skip(1)) =~= ps.subrange(1, k as int));
    }
    if k == 1 {
        None
    } else {
        let s = string_from_chars(&joined);
        Some(to_lowercase(s.as_str()))
    }
}

/// Canonical hub key from a hub device instance ID.
pub fn hub_key_from_dev_instance(instance: &str) -> (r: String)
    ensures
        r@ == dev_instance_key(instance@),
{
    let stripped = without_prefix_chars(&chars_of(instance), &chars_of("USB\\"));
    let replaced = replace_chars(&stripped, '\\', '#');
    let s = string_from_chars(&replaced);
    to_lowercase(s.as_str())
}

// ─── Text of a scan ────────────────────────────────────────────────

/// `major.minor`, or `major.minor.patch` when the patch digit is not zero,
/// from a binary-coded USB version (`0x0310` is 3.1).
pub open spec fn usb_version_text(bcd: u16) -> Seq<char> {
    let major = (bcd / 256) as nat;
    let minor = ((bcd / 16) % 16) as nat;
    let patch = (bcd % 16) as nat;
    if patch > 0 {
        decimal(major) + seq!['.'] + decimal(minor) + seq!['.'] + decimal(patch)
    } else {
        decimal(major) + seq!['.'] + decimal(minor)
    }
}

/// Formats a binary-coded USB version number.
pub fn format_usb_version(bcd: u16) -> (r: String)
    ensures
        r@ == usb_version_text(bcd),
{
    let major = (bcd / 256) as u64;
    let minor = ((bcd / 16) % 16) as u64;
    let patch = (bcd % 16) as u64;
    let mut v: Vec<char> = Vec::new();
    push_decimal(&mut v, major);
    v.push('.');
    push_decimal(&mut v, minor);
    if patch > 0 {
        v.push('.');
        push_decimal(&mut v, patch);
    }
    proof {
        assert(v@ =~= usb_version_text(bcd));
    }
    string_from_chars(&v)
}

} // verus!
