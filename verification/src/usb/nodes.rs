//! USB device nodes as the device manager lists them, and the rules that turn
//! them into the peripherals of a snapshot: which nodes are USB peripherals,
//! what their VID:PID, class, name, serial and hub port are, and how the
//! several nodes of one composite device collapse into one entry.

use super::{empty_device_view, DeviceView, UsbDevice};
use crate::devices::{lookup, lookup_spec};
use crate::text::{
    chars_eq, chars_of, is_prefix, lowercase, matches_at, occurs_at, parse_unsigned,
    parse_unsigned_chars, split_by, split_chars, starts_with_chars, sub_chars, to_lowercase, trim,
    trim_chars,
};
use vstd::prelude::*;

verus! {

// ─── Hub port of a device ──────────────────────────────────────────

/// `0`-`9`.
pub open spec fn is_ascii_digit(c: char) -> bool {
    '0' <= c <= '9'
}

/// End of the run of ASCII digits of `s` that starts at `k`.
pub open spec fn digits_end(s: Seq<char>, k: int) -> int
    decreases s.len() - k,
{
    if 0 <= k < s.len() && is_ascii_digit(s[k]) {
        digits_end(s, k + 1)
    } else {
        k
    }
}

/// The port number written after a `Port_#` marker at `i`, when there is a
/// marker there and its digits read as a `u32`.
pub open spec fn port_at(s: Seq<char>, i: int) -> Option<nat> {
    if occurs_at(s, "Port_#"@, i) {
        parse_unsigned(s.subrange(i + 6, digits_end(s, i + 6)), 10, 0xffff_ffff)
    } else {
        None
    }
}

/// The port number of the last marker before position `n` whose digits read
/// as a `u32`.
pub open spec fn last_port_before(s: Seq<char>, n: int) -> Option<nat>
    decreases n,
{
    if n <= 0 {
        None
    } else {
        match port_at(s, n - 1) {
            Some(v) => Some(v),
            None => last_port_before(s, n - 1),
        }
    }
}

/// Physical port on the immediate hub from a location string such as
/// `Port_#0004.Hub_#0010`: the number after the last `Port_#` marker whose
/// digits read as a `u32` (the direct parent hub in nested topologies),
/// or 0 when there is none.
pub open spec fn location_port(s: Seq<char>) -> u32 {
    match last_port_before(s, s.len() as int) {
        Some(v) => v as u32,
        None => 0,
    }
}

/// Positions without a readable marker do not change the last one.
proof fn lemma_last_port_skip(s: Seq<char>, a: int, b: int)
    requires
        0 <= a <= b,
        forall|j: int| a <= j < b ==> #[trigger] port_at(s, j) is None,
    ensures
        last_port_before(s, b) == last_port_before(s, a),
    decreases b - a,
{
    if a < b {
        lemma_last_port_skip(s, a, b - 1);
    }
}

/// The digit run starting at `k` ends at `e` when `[k, e)` are digits and
/// `e` is not.
proof fn lemma_digits_end(s: Seq<char>, k: int, e: int)
    requires
        0 <= k <= e <= s.len(),
        forall|j: int| k <= j < e ==> is_ascii_digit(#[trigger] s[j]),
        e == s.len() || !is_ascii_digit(s[e]),
    ensures
        digits_end(s, k) == e,
    decreases e - k,
{
    if k < e {
        lemma_digits_end(s, k + 1, e);
    }
}

/// A location whose last `Port_#` marker is followed by the decimal port
/// number (and then by anything that does not continue the number) gives
/// that port, whatever precedes the marker.
pub proof fn lemma_location_port_marker(a: Seq<char>, p: u32, b: Seq<char>)
    requires
        b.len() > 0 ==> !is_ascii_digit(b[0]),
        forall|j: int| !occurs_at(b, "Port_#"@, j),
    ensures
        location_port(a + "Port_#"@ + crate::text::decimal(p as nat) + b) == p,
{
    reveal_strlit("Port_#");
    let m = "Port_#"@;
    let d = crate::text::decimal(p as nat);
    crate::text::lemma_decimal_reads_back(p as nat);
    let s = a + m + d + b;
    let i0 = a.len() as int;
    let bs = i0 + 6 + d.len();
    assert(s.subrange(i0, i0 + 6) =~= m);
    assert forall|j: int| i0 + 6 <= j < bs implies is_ascii_digit(#[trigger] s[j]) by {
        assert(s[j] == d[j - i0 - 6]);
    }
    if bs < s.len() {
        assert(s[bs] == b[0]);
    }
    lemma_digits_end(s, i0 + 6, bs);
    assert(s.subrange(i0 + 6, bs) =~= d);
    assert(d[0] != '+');
    assert(crate::text::all_digits(d, 10)) by {
        assert forall|i: int| 0 <= i < d.len() implies crate::text::char_digit(#[trigger] d[i]) < 10 by {
            assert('0' <= d[i] <= '9');
        }
    }
    assert(port_at(s, i0) == Some(p as nat));
    assert forall|j: int| i0 + 1 <= j < s.len() implies #[trigger] port_at(s, j) is None by {
        if occurs_at(s, m, j) {
            assert(s.subrange(j, j + 6)[0] == s[j]);
            assert(m[0] == 'P');
            if j < i0 + 6 {
                assert(s[j] == m[j - i0]);
            } else if j < bs {
                assert(is_ascii_digit(s[j]));
            } else {
                assert(s.subrange(j, j + 6) =~= b.subrange(j - bs, j - bs + 6));
                assert(occurs_at(b, m, j - bs));
            }
        }
    }
    lemma_last_port_skip(s, i0 + 1, s.len() as int);
}

/// The hub port a device is plugged into, from its location string.
pub fn device_location_port(location: &str) -> (port: u32)
    ensures
        port == location_port(location@),
{
    let s = chars_of(location);
    let marker = chars_of("Port_#");
    proof {
        reveal_strlit("Port_#");
        assert(marker@.len() == 6);
    }
    let mut port: u32 = 0;
    let mut i: usize = 0;
    while i < s.len()
        invariant
            s@ == location@,
            marker@ == "Port_#"@,
            marker@.len() == 6,
            i <= s@.len(),
            match last_port_before(s@, i as int) {
                Some(v) => port == v,
                None => port == 0,
            },
        decreases s.len() - i,
    {
        if matches_at(&s, &marker, i) {
            let start = i + 6;
            let mut end = start;
            while end < s.len() && '0' <= s[end] && s[end] <= '9'
                invariant
                    start <= end <= s@.len(),
                    forall|j: int| start <= j < end ==> is_ascii_digit(#[trigger] s@[j]),
                decreases s.len() - end,
            {
                end = end + 1;
            }
            proof {
                lemma_digits_end(s@, start as int, end as int);
            }
            let digits = sub_chars(&s, start, end);
            let found = parse_unsigned_chars(&digits, 10, 0xffff_ffff);
            if let Some(p) = found {
                port = p as u32;
            }
            proof {
                reveal_strlit("Port_#");
                assert(s@.subrange(i as int, i + 6) == "Port_#"@);
                assert forall|j: int| i < j < end implies #[trigger] port_at(s@, j) is None by {
                    if occurs_at(s@, "Port_#"@, j) {
                        assert(s@.subrange(j, j + 6)[0] == s@[j]);
                        if j < i + 6 {
                            assert(s@[j] == s@.subrange(i as int, i + 6)[j - i]);
                        } else {
                            assert(is_ascii_digit(s@[j]));
                        }
                    }
                }
                lemma_last_port_skip(s@, i + 1, end as int);
            }
            i = end;
        } else {
            i = i + 1;
        }
    }
    port
}

// ─── Device class ──────────────────────────────────────────────────

/// The class code a compatible-ID piece names: `DevClass_xx` or `Class_xx`
/// around optional whitespace, `xx` read as a hexadecimal `u8`.
pub open spec fn class_in_piece(piece: Seq<char>) -> Option<nat> {
    let t = trim(piece);
    if is_prefix("DevClass_"@, t) {
        parse_unsigned(t.skip(9), 16, 255)
    } else if is_prefix("Class_"@, t) {
        parse_unsigned(t.skip(6), 16, 255)
    } else {
        None
    }
}

/// The class named by the first piece of `pieces` that names one, else 0.
pub open spec fn first_class(pieces: Seq<Seq<char>>) -> u8
    decreases pieces.len(),
{
    if pieces.len() == 0 {
        0
    } else {
        match class_in_piece(pieces[0]) {
            Some(v) => v as u8,
            None => first_class(pieces.skip(1)),
        }
    }
}

/// The USB device class (`bDeviceClass`) from a compatible ID such as
/// `USB\Class_09&SubClass_00&Prot_00`: the first `\`- or `&`-separated
/// piece that names a class, 0 when none does.
pub open spec fn compatible_class(ids: Seq<char>) -> u8 {
    first_class(split_by(ids, seq!['\\', '&']))
}

/// A compatible ID `USB\Class_XX` followed by `&...` or `\...` (or
/// nothing) names the class `XX`, two hexadecimal digits in either case;
/// so does `USB\DevClass_XX`.
pub proof fn lemma_compatible_class_of(c: u8, upper: bool, dev: bool, sep: char, tail: Seq<char>)
    requires
        sep == '&' || sep == '\\',
    ensures
        compatible_class(
            "USB"@ + seq!['\\'] + (if dev { "DevClass_"@ } else { "Class_"@ })
                + crate::usb::guid::hex_text(c as nat, 2, upper) + seq![sep] + tail,
        ) == c,
        compatible_class(
            "USB"@ + seq!['\\'] + (if dev { "DevClass_"@ } else { "Class_"@ })
                + crate::usb::guid::hex_text(c as nat, 2, upper),
        ) == c,
{
    reveal_strlit("USB");
    reveal_strlit("DevClass_");
    reveal_strlit("Class_");
    reveal_with_fuel(crate::usb::guid::pow16, 3);
    let seps = seq!['\\', '&'];
    let tag = if dev { "DevClass_"@ } else { "Class_"@ };
    let hx = crate::usb::guid::hex_text(c as nat, 2, upper);
    crate::usb::guid::lemma_hex_text(c as nat, 2, upper);
    let piece = tag + hx;
    let usb = "USB"@;
    assert(seps.contains('\\')) by {
        assert(seps[0] == '\\');
    }
    assert(seps.contains(sep)) by {
        if sep == '&' {
            assert(seps[1] == '&');
        } else {
            assert(seps[0] == sep);
        }
    }
    assert forall|i: int| 0 <= i < usb.len() implies !seps.contains(#[trigger] usb[i]) by {}
    assert forall|i: int| 0 <= i < piece.len() implies !seps.contains(#[trigger] piece[i]) by {
        if i >= tag.len() {
            assert(piece[i] == hx[i - tag.len()]);
            assert(crate::usb::guid::is_hex_char(hx[i - tag.len()]));
        }
    }
    crate::text::lemma_split_by_plain(usb, seps);
    crate::text::lemma_split_by_plain(piece, seps);
    let s1 = usb + seq!['\\'] + tag + hx + seq![sep] + tail;
    assert(s1 =~= usb + seq!['\\'] + (piece + seq![sep] + tail));
    crate::text::lemma_split_by_concat(usb, piece + seq![sep] + tail, seps, '\\');
    crate::text::lemma_split_by_concat(piece, tail, seps, sep);
    let s2 = usb + seq!['\\'] + tag + hx;
    assert(s2 =~= usb + seq!['\\'] + piece);
    crate::text::lemma_split_by_concat(usb, piece, seps, '\\');
    // The first piece names no class; the second names `c`.
    assert(trim(usb) == usb);
    assert(!crate::text::is_prefix("DevClass_"@, usb));
    assert(!crate::text::is_prefix("Class_"@, usb));
    assert(piece[0] == tag[0]);
    assert(!crate::text::is_whitespace(piece[0]));
    assert(piece.last() == hx[1]);
    assert(crate::usb::guid::is_hex_char(hx[1]));
    assert(trim(piece) == piece) by {
        assert(crate::text::trim_start(piece) == piece);
        assert(crate::text::trim_end(piece) == piece);
    }
    assert(piece.take(tag.len() as int) =~= tag);
    assert(piece.skip(tag.len() as int) =~= hx);
    if !dev {
        assert(!crate::text::is_prefix("DevClass_"@, piece)) by {
            assert(piece[0] != "DevClass_"@[0]);
        }
    }
    assert(hx[0] != '+');
    assert(crate::text::all_digits(hx, 16));
    assert(class_in_piece(piece) == Some(c as nat));
    assert(class_in_piece(usb) is None);
    let ps1 = split_by(s1, seps);
    let ps2 = split_by(s2, seps);
    assert(ps1[0] == usb && ps1[1] == piece);
    assert(ps1.skip(1)[0] == piece);
    assert(ps2 =~= seq![usb, piece]);
    assert(ps2.skip(1) =~= seq![piece]);
    assert(first_class(ps1.skip(1)) == c);
    assert(first_class(ps1) == first_class(ps1.skip(1)));
    assert(first_class(ps2.skip(1)) == c);
    assert(first_class(ps2) == first_class(ps2.skip(1)));
}

/// The class code one piece names.
fn class_of_piece(piece: &Vec<char>) -> (r: Option<u8>)
    ensures
        r matches Some(v) ==> class_in_piece(piece@) == Some(v as nat),
        r is None ==> class_in_piece(piece@) is None,
{
    let t = trim_chars(piece);
    let dev_class = chars_of("DevClass_");
    let class = chars_of("Class_");
    proof {
        reveal_strlit("DevClass_");
        reveal_strlit("Class_");
    }
    let rest = if starts_with_chars(&t, &dev_class) {
        sub_chars(&t, 9, t.len())
    } else if starts_with_chars(&t, &class) {
        sub_chars(&t, 6, t.len())
    } else {
        return None;
    };
    proof {
        assert(t@.skip(9) =~= t@.subrange(9, t@.len() as int));
        assert(t@.skip(6) =~= t@.subrange(6, t@.len() as int));
    }
    match parse_unsigned_chars(&rest, 16, 255) {
        Some(v) => Some(v as u8),
        None => None,
    }
}

/// The USB device class named by a device's compatible ID.
pub fn parse_device_class(ids: &str) -> (class: u8)
    ensures
        class == compatible_class(ids@),
{
    let mut seps: Vec<char> = Vec::new();
    seps.push('\\');
    seps.push('&');
    let pieces = split_chars(&chars_of(ids), &seps);
    let ghost ps = split_by(ids@, seq!['\\', '&']);
    proof {
        assert(seps@ =~= seq!['\\', '&']);
        assert(ps.skip(0) =~= ps);
    }
    let mut k: usize = 0;
    while k < pieces.len()
        invariant
            k <= pieces@.len(),
            pieces@.len() == ps.len(),
            forall|j: int| 0 <= j < ps.len() ==> #[trigger] pieces@[j]@ == ps[j],
            compatible_class(ids@) == first_class(ps.skip(k as int)),
        decreases pieces.len() - k,
    {
        proof {
            assert(ps.skip(k as int)[0] == ps[k as int]);
            assert(ps.skip(k as int).skip(1) =~= ps.skip(k + 1));
        }
        if let Some(v) = class_of_piece(&pieces[k]) {
            return v;
        }
        k = k + 1;
    }
    0
}

// ─── Instance IDs ──────────────────────────────────────────────────

/// The first piece of `parts` that starts with `PID_`.
pub open spec fn pid_piece(parts: Seq<Seq<char>>) -> Option<Seq<char>>
    decreases parts.len(),
{
    if parts.len() == 0 {
        None
    } else if is_prefix("PID_"@, parts[0]) {
        Some(parts[0])
    } else {
        pid_piece(parts.skip(1))
    }
}

/// The `&`-separated pieces of an instance ID after its `USB\VID_` prefix.
pub open spec fn instance_pieces(id: Seq<char>) -> Seq<Seq<char>> {
    split_by(id.skip(8), seq!['&'])
}

/// VID and PID of a USB device instance ID `USB\VID_xxxx&PID_xxxx[&MI_nn]\serial`:
/// the VID is the whole first piece, the PID the hexadecimal digits of the
/// first `PID_` piece up to any `&` or `\`. `None` for any other ID, or when
/// either does not read as a hexadecimal `u16`.
pub open spec fn instance_vid_pid(id: Seq<char>) -> Option<(u16, u16)> {
    if !is_prefix("USB\\VID_"@, id) {
        None
    } else {
        let parts = instance_pieces(id);
        match (parse_unsigned(parts[0], 16, 0xffff), pid_piece(parts)) {
            (Some(v), Some(p)) => match parse_unsigned(
                split_by(p.skip(4), seq!['&', '\\'])[0],
                16,
                0xffff,
            ) {
                Some(q) => Some((v as u16, q as u16)),
                None => None,
            },
            _ => None,
        }
    }
}

/// The VID and PID of an instance ID `USB\VID_vvvv&PID_pppp` followed by
/// `&...` or `\...`, with four hexadecimal digits each in either case, are
/// `vvvv` and `pppp`.
pub proof fn lemma_instance_ids(v: u16, p: u16, upper: bool, sep: char, tail: Seq<char>)
    requires
        sep == '&' || sep == '\\',
    ensures
        instance_vid_pid(
            "USB\\VID_"@ + crate::usb::guid::hex_text(v as nat, 4, upper) + "&PID_"@
                + crate::usb::guid::hex_text(p as nat, 4, upper) + seq![sep] + tail,
        ) == Some((v, p)),
{
    reveal_strlit("USB\\VID_");
    reveal_strlit("&PID_");
    reveal_strlit("PID_");
    reveal_with_fuel(crate::usb::guid::pow16, 5);
    let hv = crate::usb::guid::hex_text(v as nat, 4, upper);
    let hp = crate::usb::guid::hex_text(p as nat, 4, upper);
    crate::usb::guid::lemma_hex_text(v as nat, 4, upper);
    crate::usb::guid::lemma_hex_text(p as nat, 4, upper);
    let pre = "USB\\VID_"@;
    let amp = seq!['&'];
    let two = seq!['&', '\\'];
    assert(amp.contains('&')) by {
        assert(amp[0] == '&');
    }
    let tagp = "PID_"@;
    let id = pre + hv + "&PID_"@ + hp + seq![sep] + tail;
    let r = tagp + hp + seq![sep] + tail;
    assert(id.take(8) =~= pre);
    assert(id.skip(8) =~= hv + amp + r);
    assert forall|i: int| 0 <= i < hv.len() implies !amp.contains(#[trigger] hv[i]) by {
        assert(crate::usb::guid::is_hex_char(hv[i]));
    }
    crate::text::lemma_split_by_plain(hv, amp);
    crate::text::lemma_split_by_concat(hv, r, amp, '&');
    let parts = instance_pieces(id);
    let rp = split_by(r, amp);
    crate::text::lemma_split_by_nonempty(r, amp);
    assert(parts == seq![hv] + rp);
    assert(parts[0] == hv);
    assert(hv[0] != '+');
    assert(crate::text::all_digits(hv, 16));
    assert(!is_prefix(tagp, hv)) by {
        assert(crate::usb::guid::is_hex_char(hv[0]));
        assert(hv.take(4)[0] == hv[0]);
    }
    assert(parts.skip(1) =~= rp);
    assert(pid_piece(parts) == pid_piece(rp));
    let th = tagp + hp;
    assert forall|i: int| 0 <= i < th.len() implies !amp.contains(#[trigger] th[i]) by {
        if i >= 4 {
            assert(th[i] == hp[i - 4]);
            assert(crate::usb::guid::is_hex_char(hp[i - 4]));
        }
    }
    let piece = rp[0];
    if sep == '&' {
        assert(r =~= th + amp + tail);
        crate::text::lemma_split_by_plain(th, amp);
        crate::text::lemma_split_by_concat(th, tail, amp, '&');
        assert(piece == th);
        assert(piece.skip(4) =~= hp);
        assert(forall|i: int| 0 <= i < hp.len() ==> !two.contains(#[trigger] hp[i]));
        crate::text::lemma_split_by_plain(hp, two);
    } else {
        let x = th + seq!['\\'];
        assert(r =~= x + tail);
        assert forall|i: int| 0 <= i < x.len() implies !amp.contains(#[trigger] x[i]) by {
            if i < th.len() {
                assert(x[i] == th[i]);
            }
        }
        crate::text::lemma_split_first_piece(x, tail, amp);
        assert(piece == x + split_by(tail, amp)[0]);
        assert(piece.skip(4) =~= hp + seq!['\\'] + split_by(tail, amp)[0]);
        assert(two.contains('\\')) by {
            assert(two[1] == '\\');
        }
        assert(forall|i: int| 0 <= i < hp.len() ==> !two.contains(#[trigger] hp[i]));
        crate::text::lemma_split_by_plain(hp, two);
        crate::text::lemma_split_by_concat(hp, split_by(tail, amp)[0], two, '\\');
    }
    assert(piece.take(4) =~= tagp);
    assert(is_prefix(tagp, piece));
    assert(pid_piece(rp) == Some(piece));
    assert(split_by(piece.skip(4), two)[0] == hp);
    assert(hp[0] != '+');
    assert(crate::text::all_digits(hp, 16));
}

/// VID, PID and number of `&`-pieces of a USB device instance ID.
fn read_instance_id(id: &Vec<char>) -> (r: Option<(u16, u16, usize)>)
    ensures
        r matches Some((v, p, n)) ==> instance_vid_pid(id@) == Some((v, p))
            && n == instance_pieces(id@).len(),
        r is None ==> instance_vid_pid(id@) is None,
{
    let prefix = chars_of("USB\\VID_");
    proof {
        reveal_strlit("USB\\VID_");
    }
    if !starts_with_chars(id, &prefix) {
        return None;
    }
    let rest = sub_chars(id, 8, id.len());
    let mut amp: Vec<char> = Vec::new();
    amp.push('&');
    let parts = split_chars(&rest, &amp);
    let ghost ps = instance_pieces(id@);
    proof {
        assert(amp@ =~= seq!['&']);
        assert(rest@ =~= id@.skip(8));
        crate::text::lemma_split_by_nonempty(id@.skip(8), seq!['&']);
    }
    let vid = match parse_unsigned_chars(&parts[0], 16, 0xffff) {
        Some(v) => v as u16,
        None => {
            return None;
        },
    };
    let pid_tag = chars_of("PID_");
    proof {
        reveal_strlit("PID_");
        assert(ps.skip(0) =~= ps);
    }
    let mut k: usize = 0;
    while k < parts.len() && !starts_with_chars(&parts[k], &pid_tag)
        invariant
            k <= parts@.len(),
            parts@.len() == ps.len(),
            pid_tag@ == "PID_"@,
            forall|j: int| 0 <= j < ps.len() ==> #[trigger] parts@[j]@ == ps[j],
            pid_piece(ps) == pid_piece(ps.skip(k as int)),
        decreases parts.len() - k,
    {
        proof {
            assert(ps.skip(k as int)[0] == ps[k as int]);
            assert(ps.skip(k as int).skip(1) =~= ps.skip(k + 1));
        }
        k = k + 1;
    }
    if k == parts.len() {
        return None;
    }
    proof {
        assert(ps.skip(k as int)[0] == ps[k as int]);
    }
    let piece = &parts[k];
    let tail = sub_chars(piece, 4, piece.len());
    let mut seps: Vec<char> = Vec::new();
    seps.push('&');
    seps.push('\\');
    let hex = split_chars(&tail, &seps);
    proof {
        assert(seps@ =~= seq!['&', '\\']);
        assert(tail@ =~= ps[k as int].skip(4));
        crate::text::lemma_split_by_nonempty(ps[k as int].skip(4), seq!['&', '\\']);
    }
    match parse_unsigned_chars(&hex[0], 16, 0xffff) {
        Some(p) => Some((vid, p as u16, parts.len())),
        None => None,
    }
}

/// The serial part of an instance ID: what follows its last `\`.
pub open spec fn instance_serial(id: Seq<char>) -> Seq<char> {
    split_by(id, seq!['\\']).last()
}

// ─── Device nodes ──────────────────────────────────────────────────

/// A device node as the device manager reports it; the properties that
/// could not be read are empty.
pub struct DeviceNode {
    /// Device instance ID, such as `USB\VID_046D&PID_C08B\5&1A2B3C&0&4`.
    pub instance_id: String,
    /// Instance ID of the parent node; `None` when it could not be read.
    pub parent_id: Option<String>,
    /// Driver service name.
    pub service: String,
    /// Location information, such as `Port_#0004.Hub_#0010`.
    pub location: String,
    /// Manufacturer property.
    pub manufacturer: String,
    /// Device description property.
    pub description: String,
    /// Friendly name property.
    pub friendly_name: String,
    /// First compatible ID.
    pub compatible_ids: String,
}

/// Abstract value of a `DeviceNode`.
pub struct NodeView {
    pub instance_id: Seq<char>,
    pub parent_id: Option<Seq<char>>,
    pub service: Seq<char>,
    pub location: Seq<char>,
    pub manufacturer: Seq<char>,
    pub description: Seq<char>,
    pub friendly_name: Seq<char>,
    pub compatible_ids: Seq<char>,
}

impl View for DeviceNode {
    type V = NodeView;

    open spec fn view(&self) -> NodeView {
        NodeView {
            instance_id: self.instance_id@,
            parent_id: match self.parent_id {
                Some(p) => Some(p@),
                None => None,
            },
            service: self.service@,
            location: self.location@,
            manufacturer: self.manufacturer@,
            description: self.description@,
            friendly_name: self.friendly_name@,
            compatible_ids: self.compatible_ids@,
        }
    }
}

/// Whether the node hangs off another USB device (a hub or a composite
/// parent). Hubs hang off PCI/ACPI host controllers instead. When the parent
/// is unknown the node is kept.
pub open spec fn parent_is_usb(parent: Option<Seq<char>>) -> bool {
    match parent {
        Some(p) => is_prefix("USB\\"@, p),
        None => true,
    }
}

/// The node runs under a hub driver.
pub open spec fn runs_hub_driver(service: Seq<char>) -> bool {
    lowercase(service) == "usbhub3"@ || lowercase(service) == "usbhub"@
}

/// Name shown for a device: its friendly name; else its description, unless
/// that is the generic composite-device text; else the database name.
pub open spec fn display_name(n: NodeView, vid: u16, pid: u16) -> Seq<char> {
    if n.friendly_name.len() > 0 {
        n.friendly_name
    } else if n.description.len() > 0 && n.description != "USB Composite Device"@
        && n.description != "Périphérique USB composite"@ {
        n.description
    } else {
        lookup_spec(vid, pid).0
    }
}

/// What a node contributes: the peripheral, the instance ID of its hub, its
/// port on that hub, and whether it is one function of a composite device
/// (its ID has more than two `&`-pieces). `None` for nodes that are not
/// USB peripherals: no USB VID:PID, not attached to a USB device, or a hub.
pub open spec fn node_reading(n: NodeView) -> Option<(DeviceView, Seq<char>, u32, bool)> {
    match instance_vid_pid(n.instance_id) {
        None => None,
        Some((vid, pid)) => if !parent_is_usb(n.parent_id) || runs_hub_driver(n.service) {
            None
        } else {
            Some(
                (
                    DeviceView {
                        vid,
                        pid,
                        device_class: compatible_class(n.compatible_ids),
                        manufacturer: n.manufacturer,
                        product: n.description,
                        serial: instance_serial(n.instance_id),
                        friendly_name: display_name(n, vid, pid),
                        ..empty_device_view()
                    },
                    match n.parent_id {
                        Some(p) => p,
                        None => Seq::empty(),
                    },
                    location_port(n.location),
                    instance_pieces(n.instance_id).len() > 2,
                ),
            )
        },
    }
}

/// What a node contributes, field by field. It contributes a device exactly
/// when its instance ID carries a USB VID:PID, it hangs off a USB device (or
/// its parent is unknown) and it does not run a hub driver. The device then
/// carries:
/// - that VID:PID;
/// - the node's manufacturer property as manufacturer and its description
///   property as product;
/// - the part of the instance ID after its last `\` as serial;
/// - the class named by its compatible IDs;
/// - as name, the friendly name when there is one, else the description
///   unless it is the generic composite-device text, else the database name.
/// It is not placed yet: no port ID, hub name, port number or power role.
/// Its hub is the parent node (empty when unknown), its port the one in its
/// location, and it is a composite function when its ID has more than two
/// `&`-pieces.
pub proof fn lemma_node_reading_fields(n: NodeView)
    ensures
        node_reading(n) is Some <==> (instance_vid_pid(n.instance_id) is Some && parent_is_usb(
            n.parent_id,
        ) && !runs_hub_driver(n.service)),
        match node_reading(n) {
            Some(r) => {
                let d = r.0;
                &&& instance_vid_pid(n.instance_id) == Some((d.vid, d.pid))
                &&& d.manufacturer == n.manufacturer
                &&& d.product == n.description
                &&& d.serial == split_by(n.instance_id, seq!['\\']).last()
                &&& d.device_class == compatible_class(n.compatible_ids)
                &&& (n.friendly_name.len() > 0 ==> d.friendly_name == n.friendly_name)
                &&& (n.friendly_name.len() == 0 && n.description.len() > 0 && n.description
                    != "USB Composite Device"@ && n.description != "Périphérique USB composite"@
                    ==> d.friendly_name == n.description)
                &&& (n.friendly_name.len() == 0 && (n.description.len() == 0 || n.description
                    == "USB Composite Device"@ || n.description == "Périphérique USB composite"@)
                    ==> d.friendly_name == lookup_spec(d.vid, d.pid).0)
                &&& d.port_id.len() == 0 && d.hub_name.len() == 0 && d.power_role.len() == 0
                &&& d.port_number == 0
                &&& r.1 == (match n.parent_id {
                    Some(p) => p,
                    None => Seq::empty(),
                })
                &&& r.2 == location_port(n.location)
                &&& r.3 == (split_by(n.instance_id.skip(8), seq!['&']).len() > 2)
            },
            None => true,
        },
{
}

/// Whether the node's hub driver service is a hub's.
fn is_hub_service(service: &String) -> (r: bool)
    ensures
        r == runs_hub_driver(service@),
{
    let lower = chars_of(to_lowercase(service.as_str()).as_str());
    chars_eq(&lower, &chars_of("usbhub3")) || chars_eq(&lower, &chars_of("usbhub"))
}

/// The name shown for the node's device.
fn choose_display_name(node: &DeviceNode, vid: u16, pid: u16) -> (r: String)
    ensures
        r@ == display_name(node@, vid, pid),
{
    let desc = chars_of(node.description.as_str());
    if node.friendly_name.as_str().unicode_len() > 0 {
        node.friendly_name.clone()
    } else if desc.len() > 0 && !chars_eq(&desc, &chars_of("USB Composite Device")) && !chars_eq(
        &desc,
        &chars_of("Périphérique USB composite"),
    ) {
        node.description.clone()
    } else {
        lookup(vid, pid).name
    }
}

/// What a node contributes to the device list, if anything.
pub fn read_node(node: &DeviceNode) -> (r: Option<(UsbDevice, String, u32, bool)>)
    ensures
        r matches Some((d, h, p, i)) ==> node_reading(node@) == Some((d@, h@, p, i)),
        r is None ==> node_reading(node@) is None,
{
    let id = chars_of(node.instance_id.as_str());
    let (vid, pid, pieces) = match read_instance_id(&id) {
        Some(t) => t,
        None => {
            return None;
        },
    };
    let hub_instance = match &node.parent_id {
        Some(p) => {
            if !starts_with_chars(&chars_of(p.as_str()), &chars_of("USB\\")) {
                return None;
            }
            p.clone()
        },
        None => String::new(),
    };
    if is_hub_service(&node.service) {
        return None;
    }
    let mut bs: Vec<char> = Vec::new();
    bs.push('\\');
    let id_pieces = split_chars(&id, &bs);
    proof {
        assert(bs@ =~= seq!['\\']);
        crate::text::lemma_split_by_nonempty(id@, seq!['\\']);
    }
    let serial = crate::text::string_from_chars(&id_pieces[id_pieces.len() - 1]);
    let device = UsbDevice {
        port_id: String::new(),
        power_role: String::new(),
        vid,
        pid,
        bcd_usb: 0,
        bcd_device: 0,
        device_class: parse_device_class(node.compatible_ids.as_str()),
        device_subclass: 0,
        device_protocol: 0,
        max_packet_size: 0,
        manufacturer: node.manufacturer.clone(),
        product: node.description.clone(),
        serial,
        hub_name: String::new(),
        port_number: 0,
        driver_key: String::new(),
        friendly_name: choose_display_name(node, vid, pid),
        device_class_name: String::new(),
        usb_version: String::new(),
        speed: String::new(),
    };
    let port = device_location_port(node.location.as_str());
    Some((device, hub_instance, port, pieces > 2))
}

// ─── One entry per device ──────────────────────────────────────────

/// A collected peripheral: the device, its hub's instance ID, its hub port.
pub type Entry = (DeviceView, Seq<char>, u32);

/// Abstract value of a collected peripheral.
pub open spec fn entry_view(e: (UsbDevice, String, u32)) -> Entry {
    (e.0@, e.1@, e.2)
}

/// The entry is the device `vid:pid`.
pub open spec fn has_ids(e: Entry, vid: u16, pid: u16) -> bool {
    e.0.vid == vid && e.0.pid == pid
}

/// Index of the first entry of `acc` for `vid:pid`.
pub open spec fn find_ids(acc: Seq<Entry>, vid: u16, pid: u16) -> Option<int>
    decreases acc.len(),
{
    if acc.len() == 0 {
        None
    } else {
        match find_ids(acc.drop_last(), vid, pid) {
            Some(i) => Some(i),
            None => if has_ids(acc.last(), vid, pid) {
                Some(acc.len() - 1)
            } else {
                None
            },
        }
    }
}

/// The list after one more node: a new VID:PID is appended; a known one is
/// replaced by the node, unless the node is only one function of a
/// composite device, whose parent node (with the descriptive name) stays.
pub open spec fn collect_step(acc: Seq<Entry>, n: NodeView) -> Seq<Entry> {
    match node_reading(n) {
        None => acc,
        Some((d, h, p, is_function)) => match find_ids(acc, d.vid, d.pid) {
            None => acc.push((d, h, p)),
            Some(i) => if is_function {
                acc
            } else {
                acc.update(i, (d, h, p))
            },
        },
    }
}

/// The peripherals of a list of device nodes, in order of first appearance.
pub open spec fn collected(nodes: Seq<NodeView>) -> Seq<Entry>
    decreases nodes.len(),
{
    if nodes.len() == 0 {
        Seq::empty()
    } else {
        collect_step(collected(nodes.drop_last()), nodes.last())
    }
}

/// No two entries share a VID:PID.
pub open spec fn ids_distinct(s: Seq<Entry>) -> bool {
    forall|i: int, j: int|
        0 <= i < j < s.len() ==> !has_ids(#[trigger] s[i], s[j].0.vid, #[trigger] s[j].0.pid)
}

/// `find_ids` finds the first matching entry, and nothing when none matches.
pub proof fn lemma_find_ids(acc: Seq<Entry>, vid: u16, pid: u16)
    ensures
        match find_ids(acc, vid, pid) {
            Some(i) => 0 <= i < acc.len() && has_ids(acc[i], vid, pid) && forall|k: int|
                0 <= k < i ==> !has_ids(#[trigger] acc[k], vid, pid),
            None => forall|k: int| 0 <= k < acc.len() ==> !has_ids(#[trigger] acc[k], vid, pid),
        },
    decreases acc.len(),
{
    if acc.len() > 0 {
        lemma_find_ids(acc.drop_last(), vid, pid);
        assert forall|k: int| 0 <= k < acc.len() - 1 implies #[trigger] acc[k] == acc.drop_last()[k] by {}
    }
}

/// The device list of a scan never holds two entries for one VID:PID.
pub proof fn lemma_collected_ids_distinct(nodes: Seq<NodeView>)
    ensures
        ids_distinct(collected(nodes)),
    decreases nodes.len(),
{
    if nodes.len() > 0 {
        let acc = collected(nodes.drop_last());
        lemma_collected_ids_distinct(nodes.drop_last());
        match node_reading(nodes.last()) {
            None => {},
            Some((d, h, p, is_function)) => {
                lemma_find_ids(acc, d.vid, d.pid);
                let next = collected(nodes);
                match find_ids(acc, d.vid, d.pid) {
                    None => {
                        assert forall|i: int, j: int| 0 <= i < j < next.len() implies !has_ids(
                            #[trigger] next[i],
                            next[j].0.vid,
                            #[trigger] next[j].0.pid,
                        ) by {
                            if j == next.len() - 1 {
                                assert(next[i] == acc[i]);
                            } else {
                                assert(next[i] == acc[i] && next[j] == acc[j]);
                            }
                        }
                    },
                    Some(x) => {
                        if !is_function {
                            assert forall|i: int, j: int| 0 <= i < j < next.len() implies !has_ids(
                                #[trigger] next[i],
                                next[j].0.vid,
                                #[trigger] next[j].0.pid,
                            ) by {
                                assert(has_ids(acc[x], next[x].0.vid, next[x].0.pid));
                                if i != x && j != x {
                                    assert(next[i] == acc[i] && next[j] == acc[j]);
                                } else if i == x {
                                    assert(next[j] == acc[j]);
                                } else {
                                    assert(next[i] == acc[i]);
                                }
                            }
                        }
                    },
                }
            },
        }
    }
}

/// How one more node changes the device list. A node that is not a USB
/// peripheral changes nothing. A peripheral with a new VID:PID is appended.
/// A peripheral whose VID:PID is listed already replaces that entry, in its
/// place, unless it is one function of a composite device: then the list is
/// left as it is.
pub proof fn lemma_collect_next_node(nodes: Seq<NodeView>, n: NodeView)
    ensures
        ({
            let before = collected(nodes);
            let after = collected(nodes.push(n));
            match node_reading(n) {
                None => after == before,
                Some(r) => {
                    &&& (forall|i: int| 0 <= i < before.len() ==> !has_ids(#[trigger] before[i], r.0.vid, r.0.pid))
                        ==> after == before.push((r.0, r.1, r.2))
                    &&& forall|i: int|
                        0 <= i < before.len() && has_ids(#[trigger] before[i], r.0.vid, r.0.pid) ==> after
                            == (if r.3 {
                            before
                        } else {
                            before.update(i, (r.0, r.1, r.2))
                        })
                },
            }
        }),
{
    let before = collected(nodes);
    assert(nodes.push(n).drop_last() =~= nodes);
    assert(nodes.push(n).last() == n);
    match node_reading(n) {
        None => {},
        Some(r) => {
            lemma_find_ids(before, r.0.vid, r.0.pid);
            lemma_collected_ids_distinct(nodes);
            assert forall|i: int|
                0 <= i < before.len() && has_ids(#[trigger] before[i], r.0.vid, r.0.pid) implies find_ids(
                before,
                r.0.vid,
                r.0.pid,
            ) == Some(i) by {
                match find_ids(before, r.0.vid, r.0.pid) {
                    Some(x) => {
                        if x < i {
                            assert(!has_ids(before[x], before[i].0.vid, before[i].0.pid));
                        } else if i < x {
                            assert(!has_ids(before[i], before[x].0.vid, before[x].0.pid));
                        }
                    },
                    None => {},
                }
            }
        },
    }
}

/// Index of the first entry for `vid:pid`.
fn find_entry(devices: &Vec<(UsbDevice, String, u32)>, vid: u16, pid: u16) -> (r: Option<usize>)
    ensures
        match r {
            Some(i) => find_ids(devices@.map_values(|e| entry_view(e)), vid, pid) == Some(i as int),
            None => find_ids(devices@.map_values(|e| entry_view(e)), vid, pid) is None,
        },
{
    let ghost acc = devices@.map_values(|e| entry_view(e));
    proof {
        lemma_find_ids(acc, vid, pid);
    }
    let mut k: usize = 0;
    while k < devices.len()
        invariant
            k <= devices@.len(),
            acc == devices@.map_values(|e| entry_view(e)),
            forall|j: int| 0 <= j < k ==> !has_ids(#[trigger] acc[j], vid, pid),
            match find_ids(acc, vid, pid) {
                Some(i) => 0 <= i < acc.len() && has_ids(acc[i], vid, pid) && forall|j: int|
                    0 <= j < i ==> !has_ids(#[trigger] acc[j], vid, pid),
                None => forall|j: int| 0 <= j < acc.len() ==> !has_ids(#[trigger] acc[j], vid, pid),
            },
        decreases devices.len() - k,
    {
        if devices[k].0.vid == vid && devices[k].0.pid == pid {
            proof {
                assert(has_ids(acc[k as int], vid, pid));
            }
            return Some(k);
        }
        proof {
            assert(!has_ids(acc[k as int], vid, pid));
        }
        k = k + 1;
    }
    None
}

/// The peripherals among the device nodes, one entry per VID:PID, in order of
/// first appearance; each with the instance ID of its hub and its hub port.
pub fn collect_devices(nodes: &Vec<DeviceNode>) -> (r: Vec<(UsbDevice, String, u32)>)
    ensures
        r@.map_values(|e| entry_view(e)) == collected(nodes@.map_values(|n: DeviceNode| n@)),
        ids_distinct(r@.map_values(|e| entry_view(e))),
{
    let ghost views = nodes@.map_values(|n: DeviceNode| n@);
    let mut devices: Vec<(UsbDevice, String, u32)> = Vec::new();
    let mut i: usize = 0;
    while i < nodes.len()
        invariant
            i <= nodes@.len(),
            views == nodes@.map_values(|n: DeviceNode| n@),
            devices@.map_values(|e| entry_view(e)) == collected(views.take(i as int)),
        decreases nodes.len() - i,
    {
        let ghost acc = devices@.map_values(|e| entry_view(e));
        proof {
            assert(views.take(i + 1).drop_last() =~= views.take(i as int));
            assert(views.take(i + 1).last() == nodes@[i as int]@);
        }
        match read_node(&nodes[i]) {
            None => {},
            Some((d, h, p, is_function)) => {
                let ghost e = (d@, h@, p);
                match find_entry(&devices, d.vid, d.pid) {
                    None => {
                        devices.push((d, h, p));
                        proof {
                            assert(devices@.map_values(|e| entry_view(e)) =~= acc.push(e));
                        }
                    },
                    Some(k) => {
                        proof {
                            lemma_find_ids(acc, d.vid, d.pid);
                        }
                        if !is_function {
                            devices.set(k, (d, h, p));
                            proof {
                                assert(devices@.map_values(|e| entry_view(e)) =~= acc.update(
                                    k as int,
                                    e,
                                ));
                            }
                        }
                    },
                }
            },
        }
        i = i + 1;
    }
    proof {
        assert(views.take(i as int) =~= views);
        lemma_collected_ids_distinct(views);
    }
    devices
}

} // verus!
