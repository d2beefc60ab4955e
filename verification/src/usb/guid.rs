//! Interface class GUIDs, as the registry spells them:
//! `{xxxxxxxx-xxxx-xxxx-xxxx-xxxxxxxxxxxx}`.

use crate::text::{
    all_digits, char_digit, chars_of, digits_value, is_whitespace, parse_radix, parse_unsigned,
    parse_unsigned_chars, split_by, split_chars, strip_chars, strip_leading, strip_trailing, trim,
    trim_chars, trim_end, trim_start,
};
use vstd::prelude::*;

verus! {

/// A Windows GUID.
#[derive(Debug, Clone, Copy)]
pub struct GUID {
    pub data1: u32,
    pub data2: u16,
    pub data3: u16,
    pub data4: [u8; 8],
}

/// The standard Microsoft USB hub interface class GUID,
/// {f18a0e88-c30c-11d0-81e9-00a0c91eeb34}, used when none is discovered.
pub fn default_hub_guid() -> (g: GUID)
    ensures
        g.data1 == 0xf18a0e88,
        g.data2 == 0xc30c,
        g.data3 == 0x11d0,
        g.data4@ == seq![0x81u8, 0xe9, 0x00, 0xa0, 0xc9, 0x1e, 0xeb, 0x34],
{
    let g = GUID {
        data1: 0xf18a0e88,
        data2: 0xc30c,
        data3: 0x11d0,
        data4: [0x81, 0xe9, 0x00, 0xa0, 0xc9, 0x1e, 0xeb, 0x34],
    };
    proof {
        assert(g.data4@ =~= seq![0x81u8, 0xe9, 0x00, 0xa0, 0xc9, 0x1e, 0xeb, 0x34]);
    }
    g
}

/// The hub interface classes to enumerate: those found in the registry, or
/// the standard hub class when none was found.
pub fn hub_guids(found: Vec<GUID>) -> (r: Vec<GUID>)
    ensures
        found@.len() > 0 ==> r@ == found@,
        found@.len() == 0 ==> r@.len() == 1 && r@[0].data1 == 0xf18a0e88 && r@[0].data2 == 0xc30c
            && r@[0].data3 == 0x11d0 && r@[0].data4@ == seq![0x81u8, 0xe9, 0x00, 0xa0, 0xc9, 0x1e, 0xeb, 0x34],
{
    if found.len() > 0 {
        found
    } else {
        let mut r: Vec<GUID> = Vec::new();
        r.push(default_hub_guid());
        r
    }
}

/// Number of bytes of `c` in UTF-8 (`char::len_utf8`).
pub open spec fn utf8_width(c: char) -> nat {
    if (c as u32) < 0x80 {
        1
    } else if (c as u32) < 0x800 {
        2
    } else if (c as u32) < 0x10000 {
        3
    } else {
        4
    }
}

/// Number of bytes of `s` in UTF-8 (`str::len`).
pub open spec fn utf8_len(s: Seq<char>) -> nat
    decreases s.len(),
{
    if s.len() == 0 {
        0
    } else {
        utf8_len(s.drop_last()) + utf8_width(s.last())
    }
}

/// Outcome of reading a string as consecutive two-byte hexadecimal slices.
pub enum HexPairs {
    /// Every slice parsed; the bytes, in order.
    Parsed(Seq<u8>),
    /// Some slice is not a valid `u8` in base 16.
    Rejected,
    /// Some slice would end inside a multi-byte character: slicing there panics.
    OffBoundary,
}

/// Reading `h` two bytes at a time, each slice through `u8::from_str_radix(_, 16)`,
/// stopping at the first slice that fails.
pub open spec fn hex_pairs(h: Seq<char>) -> HexPairs
    decreases h.len(),
{
    if h.len() == 0 {
        HexPairs::Parsed(Seq::empty())
    } else if utf8_width(h[0]) == 1 {
        if h.len() >= 2 && utf8_width(h[1]) == 1 {
            match parse_unsigned(h.take(2), 16, 255) {
                Some(b) => match hex_pairs(h.skip(2)) {
                    HexPairs::Parsed(rest) => HexPairs::Parsed(seq![b as u8] + rest),
                    other => other,
                },
                None => HexPairs::Rejected,
            }
        } else {
            HexPairs::OffBoundary
        }
    } else if utf8_width(h[0]) == 2 {
        HexPairs::Rejected
    } else {
        HexPairs::OffBoundary
    }
}

/// The text that is split into GUID fields: surrounding whitespace, then all
/// leading `{` and all trailing `}`, removed.
pub open spec fn guid_body(s: Seq<char>) -> Seq<char> {
    strip_trailing(strip_leading(trim(s), '{'), '}')
}

/// The fields of the GUID spelled by `s`, or the way its reading stops.
pub enum GuidReading {
    Fields(u32, u16, u16, Seq<u8>),
    Invalid,
    Panics,
}

/// How `parse_guid` reads `s`: five `-`-separated fields; the first three
/// through `from_str_radix(_, 16)` for `u32`, `u16`, `u16`; the last two
/// concatenated must be 16 bytes long and are read as 8 two-byte hex slices.
pub open spec fn read_guid(s: Seq<char>) -> GuidReading {
    let parts = split_by(guid_body(s), seq!['-']);
    if parts.len() != 5 {
        GuidReading::Invalid
    } else {
        match (
            parse_unsigned(parts[0], 16, 0xffff_ffff),
            parse_unsigned(parts[1], 16, 0xffff),
            parse_unsigned(parts[2], 16, 0xffff),
        ) {
            (Some(a), Some(b), Some(c)) => {
                let h = parts[3] + parts[4];
                if utf8_len(h) != 16 {
                    GuidReading::Invalid
                } else {
                    match hex_pairs(h) {
                        HexPairs::Parsed(bytes) => GuidReading::Fields(
                            a as u32,
                            b as u16,
                            c as u16,
                            bytes,
                        ),
                        HexPairs::Rejected => GuidReading::Invalid,
                        HexPairs::OffBoundary => GuidReading::Panics,
                    }
                }
            },
            _ => GuidReading::Invalid,
        }
    }
}

/// Bytes of `c` in UTF-8.
fn char_width(c: char) -> (w: u64)
    ensures
        w == utf8_width(c),
{
    let v = c as u32;
    if v < 0x80 {
        1
    } else if v < 0x800 {
        2
    } else if v < 0x10000 {
        3
    } else {
        4
    }
}

/// Whether the UTF-8 length of `h` is exactly 16 bytes.
fn utf8_len_is_16(h: &Vec<char>) -> (r: bool)
    ensures
        r == (utf8_len(h@) == 16),
{
    let mut total: u64 = 0;
    let mut i: usize = 0;
    while i < h.len()
        invariant
            i <= h@.len(),
            total == utf8_len(h@.take(i as int)),
            total <= 16,
        decreases h.len() - i,
    {
        proof {
            assert(h@.take(i + 1).drop_last() =~= h@.take(i as int));
        }
        total = total + char_width(h[i]);
        i = i + 1;
        if total > 16 {
            proof {
                lemma_utf8_len_prefix(h@, i as int);
            }
            return false;
        }
    }
    proof {
        assert(h@.take(i as int) =~= h@);
    }
    total == 16
}

/// The UTF-8 length of a prefix never exceeds that of the whole.
proof fn lemma_utf8_len_prefix(s: Seq<char>, j: int)
    requires
        0 <= j <= s.len(),
    ensures
        utf8_len(s.take(j)) <= utf8_len(s),
    decreases s.len() - j,
{
    if j < s.len() {
        lemma_utf8_len_prefix(s, j + 1);
        assert(s.take(j + 1).drop_last() =~= s.take(j));
    } else {
        assert(s.take(j) =~= s);
    }
}

/// `bytes` in front of the outcome `r`.
pub open spec fn prepend_pairs(bytes: Seq<u8>, r: HexPairs) -> HexPairs {
    match r {
        HexPairs::Parsed(rest) => HexPairs::Parsed(bytes + rest),
        other => other,
    }
}

/// A successful reading yields one byte per two characters.
proof fn lemma_hex_pairs_len(h: Seq<char>)
    ensures
        hex_pairs(h) matches HexPairs::Parsed(b) ==> h.len() == 2 * b.len(),
    decreases h.len(),
{
    if h.len() >= 2 {
        lemma_hex_pairs_len(h.skip(2));
    }
}

/// Reads `h` as hex pairs: `Ok(Some(bytes))`, `Ok(None)` when some slice is
/// rejected, `Err(())` when some slice would split a character.
fn read_hex_pairs(h: &Vec<char>) -> (r: Result<Option<Vec<u8>>, ()>)
    ensures
        r matches Ok(Some(v)) ==> hex_pairs(h@) == HexPairs::Parsed(v@),
        r matches Ok(None) ==> hex_pairs(h@) is Rejected,
        r is Err ==> hex_pairs(h@) is OffBoundary,
{
    let mut out: Vec<u8> = Vec::new();
    let mut i: usize = 0;
    proof {
        assert(h@.skip(0) =~= h@);
        assert(out@ + Seq::<u8>::empty() =~= out@);
    }
    while i < h.len()
        invariant
            i <= h@.len(),
            hex_pairs(h@) == prepend_pairs(out@, hex_pairs(h@.skip(i as int))),
        decreases h.len() - i,
    {
        let ghost t = h@.skip(i as int);
        if char_width(h[i]) == 1 {
            if i + 1 < h.len() && char_width(h[i + 1]) == 1 {
                let mut pair: Vec<char> = Vec::new();
                pair.push(h[i]);
                pair.push(h[i + 1]);
                proof {
                    assert(pair@ =~= t.take(2));
                    assert(t.skip(2) =~= h@.skip(i + 2));
                }
                match parse_unsigned_chars(&pair, 16, 255) {
                    Some(b) => {
                        proof {
                            assert(out@.push(b as u8) + seq![] =~= out@.push(b as u8));
                            match hex_pairs(t.skip(2)) {
                                HexPairs::Parsed(rest) => {
                                    assert(out@ + (seq![b as u8] + rest) =~= out@.push(b as u8)
                                        + rest);
                                },
                                _ => {},
                            }
                        }
                        out.push(b as u8);
                        i = i + 2;
                    },
                    None => {
                        return Ok(None);
                    },
                }
            } else {
                return Err(());
            }
        } else if char_width(h[i]) == 2 {
            return Ok(None);
        } else {
            return Err(());
        }
    }
    proof {
        assert(h@.skip(i as int) =~= Seq::<char>::empty());
        assert(out@ + Seq::<u8>::empty() =~= out@);
    }
    Ok(Some(out))
}

/// The fields of `s` read as a GUID, `None` when it is not one.
pub open spec fn guid_fields(s: Seq<char>) -> Option<(u32, u16, u16, Seq<u8>)> {
    match read_guid(s) {
        GuidReading::Fields(a, b, c, d) => Some((a, b, c, d)),
        _ => None,
    }
}

/// Reads a GUID text: `Ok(Some(guid))`, `Ok(None)` when it is not a GUID,
/// `Err(())` when reading it slices a multi-byte character in the middle.
fn read_guid_text(s: &str) -> (r: Result<Option<GUID>, ()>)
    ensures
        r is Err <==> read_guid(s@) is Panics,
        r matches Ok(o) ==> (o is Some <==> guid_fields(s@) is Some),
        r matches Ok(Some(g)) ==> guid_fields(s@) == Some((g.data1, g.data2, g.data3, g.data4@)),
{
    let body = strip_chars(&trim_chars(&chars_of(s)), '{', '}');
    let mut dash: Vec<char> = Vec::new();
    dash.push('-');
    let parts = split_chars(&body, &dash);
    proof {
        assert(dash@ =~= seq!['-']);
    }
    if parts.len() != 5 {
        return Ok(None);
    }
    let data1 = match parse_unsigned_chars(&parts[0], 16, 0xffff_ffff) {
        Some(v) => v as u32,
        None => {
            return Ok(None);
        },
    };
    let data2 = match parse_unsigned_chars(&parts[1], 16, 0xffff) {
        Some(v) => v as u16,
        None => {
            return Ok(None);
        },
    };
    let data3 = match parse_unsigned_chars(&parts[2], 16, 0xffff) {
        Some(v) => v as u16,
        None => {
            return Ok(None);
        },
    };
    let mut hex: Vec<char> = parts[3].clone();
    let tail = &parts[4];
    let mut j: usize = 0;
    let ghost head = hex@;
    while j < tail.len()
        invariant
            j <= tail@.len(),
            hex@ == head + tail@.take(j as int),
        decreases tail.len() - j,
    {
        hex.push(tail[j]);
        j = j + 1;
        proof {
            assert(head + tail@.take(j as int) =~= (head + tail@.take(j - 1)).push(tail@[j - 1]));
        }
    }
    proof {
        assert(tail@.take(tail@.len() as int) =~= tail@);
        assert(hex@ == parts@[3]@ + parts@[4]@);
    }
    if !utf8_len_is_16(&hex) {
        return Ok(None);
    }
    match read_hex_pairs(&hex) {
        Ok(Some(bytes)) => {
            proof {
                lemma_hex_pairs_len(hex@);
                assert(hex@.len() == 16) by {
                    lemma_all_narrow_when_parsed(hex@);
                }
            }
            let data4: [u8; 8] = [
                bytes[0],
                bytes[1],
                bytes[2],
                bytes[3],
                bytes[4],
                bytes[5],
                bytes[6],
                bytes[7],
            ];
            proof {
                assert(data4@ =~= bytes@);
            }
            Ok(Some(GUID { data1, data2, data3, data4 }))
        },
        Ok(None) => Ok(None),
        Err(()) => Err(()),
    }
}

/// Parses a GUID string like `{xxxxxxxx-xxxx-xxxx-xxxx-xxxxxxxxxxxx}`; the
/// braces are optional. Inputs whose last two fields slice a multi-byte
/// character in the middle are excluded: reading them panics (see
/// `parse_guid_panics`).
pub fn parse_guid(s: &str) -> (r: Option<GUID>)
    requires
        !(read_guid(s@) is Panics),
    ensures
        r is Some <==> guid_fields(s@) is Some,
        r matches Some(g) ==> guid_fields(s@) == Some((g.data1, g.data2, g.data3, g.data4@)),
{
    match read_guid_text(s) {
        Ok(r) => r,
        Err(()) => None,
    }
}

/// Whether reading `s` as a GUID slices a multi-byte character in the
/// middle, the inputs on which `parse_guid` may not be called.
pub fn parse_guid_panics(s: &str) -> (r: bool)
    ensures
        r == (read_guid(s@) is Panics),
{
    read_guid_text(s).is_err()
}



/// The braces are optional: a GUID text `x` without surrounding whitespace
/// or braces of its own reads the same as `{x}`.
pub proof fn lemma_braces_optional(x: Seq<char>)
    requires
        x.len() > 0 ==> !is_whitespace(x[0]) && !is_whitespace(x.last()),
        x.len() > 0 ==> x[0] != '{' && x.last() != '}',
    ensures
        read_guid(seq!['{'] + x + seq!['}']) == read_guid(x),
{
    let b = seq!['{'] + x + seq!['}'];
    assert(trim_start(b) == b);
    assert(trim_end(b) == b) by {
        assert(b.last() == '}');
    }
    assert(trim_start(x) == x);
    assert(trim_end(x) == x);
    assert(b.skip(1) =~= x + seq!['}']);
    let xb = x + seq!['}'];
    if x.len() > 0 {
        assert(xb[0] == x[0]);
    }
    assert(strip_leading(xb, '{') == xb);
    assert(strip_leading(b, '{') == xb);
    assert(xb.drop_last() =~= x);
    assert(strip_trailing(xb, '}') == strip_trailing(x, '}'));
    assert(strip_leading(x, '{') == x);
    assert(strip_trailing(x, '}') == x);
    assert(guid_body(b) == guid_body(x));
}

/// A successful reading only meets one-byte characters, so the UTF-8 length
/// equals the number of characters.
proof fn lemma_all_narrow_when_parsed(h: Seq<char>)
    ensures
        hex_pairs(h) is Parsed ==> utf8_len(h) == h.len(),
    decreases h.len(),
{
    if h.len() >= 2 && utf8_width(h[0]) == 1 && utf8_width(h[1]) == 1 {
        lemma_all_narrow_when_parsed(h.skip(2));
        if hex_pairs(h) is Parsed {
            lemma_utf8_len_split(h, 2);
            assert(h.take(2).drop_last() =~= seq![h[0]]);
            assert(seq![h[0]].drop_last() =~= Seq::<char>::empty());
            assert(utf8_len(Seq::<char>::empty()) == 0);
            assert(seq![h[0]].last() == h[0]);
            assert(utf8_len(seq![h[0]]) == utf8_len(Seq::<char>::empty()) + utf8_width(h[0]));
            assert(utf8_len(seq![h[0]]) == 1);
            assert(utf8_len(h.take(2)) == 2);
            assert(hex_pairs(h.skip(2)) is Parsed);
        }
    }
}

/// The UTF-8 length of a concatenation.
proof fn lemma_utf8_len_split(s: Seq<char>, j: int)
    requires
        0 <= j <= s.len(),
    ensures
        utf8_len(s) == utf8_len(s.take(j)) + utf8_len(s.skip(j)),
    decreases s.len(),
{
    if s.len() == j {
        assert(s.take(j) =~= s);
        assert(s.skip(j) =~= Seq::<char>::empty());
    } else {
        lemma_utf8_len_split(s.drop_last(), j);
        assert(s.drop_last().take(j) =~= s.take(j));
        assert(s.skip(j).drop_last() =~= s.drop_last().skip(j));
        assert(s.skip(j).last() == s.last());
    }
}

// ─── Reading back a formatted GUID ─────────────────────────────────

/// Hexadecimal digit for `d` (0 to 15), in upper or lower case.
pub open spec fn hex_digit(d: int, upper: bool) -> char {
    if d < 10 {
        (48 + d) as char
    } else if upper {
        (55 + d) as char
    } else {
        (87 + d) as char
    }
}

/// The lowest `width` hexadecimal digits of `n`, most significant first.
pub open spec fn hex_text(n: nat, width: nat, upper: bool) -> Seq<char>
    decreases width,
{
    if width == 0 {
        Seq::empty()
    } else {
        hex_text(n / 16, (width - 1) as nat, upper).push(hex_digit((n % 16) as int, upper))
    }
}

/// Each byte as two hexadecimal digits.
pub open spec fn bytes_text(b: Seq<u8>, upper: bool) -> Seq<char>
    decreases b.len(),
{
    if b.len() == 0 {
        Seq::empty()
    } else {
        hex_text(b[0] as nat, 2, upper) + bytes_text(b.skip(1), upper)
    }
}

/// A GUID spelled `xxxxxxxx-xxxx-xxxx-xxxx-xxxxxxxxxxxx` (`{:08x}` and so
/// on, or the same in upper case).
pub open spec fn guid_text(a: u32, b: u16, c: u16, d: Seq<u8>, upper: bool) -> Seq<char> {
    hex_text(a as nat, 8, upper) + seq!['-'] + hex_text(b as nat, 4, upper) + seq!['-'] + hex_text(
        c as nat,
        4,
        upper,
    ) + seq!['-'] + bytes_text(d.take(2), upper) + seq!['-'] + bytes_text(d.skip(2), upper)
}

/// `16^w`.
pub open spec fn pow16(w: nat) -> nat
    decreases w,
{
    if w == 0 {
        1
    } else {
        16 * pow16((w - 1) as nat)
    }
}

/// A hexadecimal digit character: `0`-`9`, `a`-`f` or `A`-`F`.
pub open spec fn is_hex_char(c: char) -> bool {
    ('0' <= c <= '9') || ('a' <= c <= 'f') || ('A' <= c <= 'F')
}

proof fn lemma_hex_digit(d: int, upper: bool)
    requires
        0 <= d < 16,
    ensures
        char_digit(hex_digit(d, upper)) == d,
        is_hex_char(hex_digit(d, upper)),
        utf8_width(hex_digit(d, upper)) == 1,
{
}

/// The digits of `hex_text` read back as the number, and are all hex digits.
pub proof fn lemma_hex_text(n: nat, w: nat, upper: bool)
    requires
        n < pow16(w),
    ensures
        hex_text(n, w, upper).len() == w,
        digits_value(hex_text(n, w, upper), 16) == n,
        forall|i: int| 0 <= i < w ==> is_hex_char(#[trigger] hex_text(n, w, upper)[i]),
        forall|i: int| 0 <= i < w ==> char_digit(#[trigger] hex_text(n, w, upper)[i]) < 16,
        forall|i: int| 0 <= i < w ==> utf8_width(#[trigger] hex_text(n, w, upper)[i]) == 1,
    decreases w,
{
    if w > 0 {
        let prev = hex_text(n / 16, (w - 1) as nat, upper);
        lemma_hex_text(n / 16, (w - 1) as nat, upper);
        lemma_hex_digit((n % 16) as int, upper);
        let t = hex_text(n, w, upper);
        assert(t.drop_last() =~= prev);
        assert forall|i: int| 0 <= i < w implies is_hex_char(#[trigger] t[i]) && char_digit(t[i]) < 16
            && utf8_width(t[i]) == 1 by {
            if i < w - 1 {
                assert(t[i] == prev[i]);
            }
        }
    } else {
        assert(n == 0);
    }
}

proof fn lemma_bytes_text_concat(x: Seq<u8>, y: Seq<u8>, upper: bool)
    ensures
        bytes_text(x + y, upper) == bytes_text(x, upper) + bytes_text(y, upper),
    decreases x.len(),
{
    if x.len() == 0 {
        assert(x + y =~= y);
        assert(Seq::<char>::empty() + bytes_text(y, upper) =~= bytes_text(y, upper));
    } else {
        lemma_bytes_text_concat(x.skip(1), y, upper);
        assert((x + y).skip(1) =~= x.skip(1) + y);
        assert((x + y)[0] == x[0]);
        let h = hex_text(x[0] as nat, 2, upper);
        assert(h + (bytes_text(x.skip(1), upper) + bytes_text(y, upper)) =~= (h + bytes_text(
            x.skip(1),
            upper,
        )) + bytes_text(y, upper));
    }
}

/// The text of bytes: two one-byte hex digits per byte, read back two at a
/// time as the bytes.
proof fn lemma_bytes_text(b: Seq<u8>, upper: bool)
    ensures
        bytes_text(b, upper).len() == 2 * b.len(),
        forall|i: int|
            0 <= i < bytes_text(b, upper).len() ==> is_hex_char(#[trigger] bytes_text(b, upper)[i])
                && utf8_width(bytes_text(b, upper)[i]) == 1,
        hex_pairs(bytes_text(b, upper)) == HexPairs::Parsed(b),
    decreases b.len(),
{
    let t = bytes_text(b, upper);
    if b.len() == 0 {
        assert(b =~= Seq::<u8>::empty());
    } else {
        lemma_bytes_text(b.skip(1), upper);
        reveal_with_fuel(pow16, 3);
        assert(pow16(2) == 256);
        lemma_hex_text(b[0] as nat, 2, upper);
        let h = hex_text(b[0] as nat, 2, upper);
        let rest = bytes_text(b.skip(1), upper);
        assert(t == h + rest);
        assert forall|i: int| 0 <= i < t.len() implies is_hex_char(#[trigger] t[i]) && utf8_width(t[i])
            == 1 by {
            if i < 2 {
                assert(t[i] == h[i]);
            } else {
                assert(t[i] == rest[i - 2]);
            }
        }
        assert(t.take(2) =~= h);
        assert(t.skip(2) =~= rest);
        assert(h[0] == t[0] && h[1] == t[1]);
        assert(h.len() > 0 && h[0] != '+');
        assert(parse_radix(h, 16) == Some(b[0] as nat));
        assert(parse_unsigned(t.take(2), 16, 255) == Some(b[0] as nat));
        assert(seq![(b[0] as nat) as u8] + b.skip(1) =~= b);
    }
}

/// A text of one-byte characters has as many bytes as characters.
proof fn lemma_utf8_len_narrow(s: Seq<char>)
    requires
        forall|i: int| 0 <= i < s.len() ==> utf8_width(#[trigger] s[i]) == 1,
    ensures
        utf8_len(s) == s.len(),
    decreases s.len(),
{
    if s.len() > 0 {
        assert(utf8_width(s[s.len() - 1]) == 1);
        assert forall|i: int| 0 <= i < s.drop_last().len() implies utf8_width(#[trigger] s.drop_last()[i])
            == 1 by {
            assert(s.drop_last()[i] == s[i]);
        }
        lemma_utf8_len_narrow(s.drop_last());
    }
}

/// A field of hex digits reads back as its number.
proof fn lemma_parse_hex_field(n: nat, w: nat, max: nat, upper: bool)
    requires
        w > 0,
        n < pow16(w),
        n <= max,
    ensures
        parse_unsigned(hex_text(n, w, upper), 16, max) == Some(n),
{
    lemma_hex_text(n, w, upper);
    let t = hex_text(n, w, upper);
    assert(t[0] != '+');
    assert(all_digits(t, 16));
}

/// Hex digits hold no `-`, so a field of them is one piece when split at `-`.
proof fn lemma_hex_piece(x: Seq<char>)
    requires
        forall|i: int| 0 <= i < x.len() ==> is_hex_char(#[trigger] x[i]),
    ensures
        split_by(x, seq!['-']) == seq![x],
{
    assert forall|i: int| 0 <= i < x.len() implies !seq!['-'].contains(#[trigger] x[i]) by {
        if seq!['-'].contains(x[i]) {
            let j = choose|j: int| 0 <= j < 1 && seq!['-'][j] == x[i];
            assert(seq!['-'][j] == '-');
        }
    }
    crate::text::lemma_split_by_plain(x, seq!['-']);
}

/// Round trip: a GUID spelled `xxxxxxxx-xxxx-xxxx-xxxx-xxxxxxxxxxxx`, in
/// lower or upper case, with or without surrounding braces, reads back as
/// its fields (so `parse_guid` returns it).
pub proof fn lemma_guid_round_trip(a: u32, b: u16, c: u16, d: Seq<u8>, upper: bool)
    requires
        d.len() == 8,
    ensures
        read_guid(guid_text(a, b, c, d, upper)) == GuidReading::Fields(a, b, c, d),
        read_guid(seq!['{'] + guid_text(a, b, c, d, upper) + seq!['}']) == GuidReading::Fields(
            a,
            b,
            c,
            d,
        ),
{
    reveal_with_fuel(pow16, 9);
    assert(pow16(8) == 0x1_0000_0000);
    assert(pow16(4) == 0x1_0000);
    let pa = hex_text(a as nat, 8, upper);
    let pb = hex_text(b as nat, 4, upper);
    let pc = hex_text(c as nat, 4, upper);
    let pd = bytes_text(d.take(2), upper);
    let pe = bytes_text(d.skip(2), upper);
    lemma_hex_text(a as nat, 8, upper);
    lemma_hex_text(b as nat, 4, upper);
    lemma_hex_text(c as nat, 4, upper);
    lemma_bytes_text(d.take(2), upper);
    lemma_bytes_text(d.skip(2), upper);
    lemma_hex_piece(pa);
    lemma_hex_piece(pb);
    lemma_hex_piece(pc);
    lemma_hex_piece(pd);
    lemma_hex_piece(pe);
    let t = guid_text(a, b, c, d, upper);
    let dash = seq!['-'];
    assert(dash.contains('-')) by {
        assert(dash[0] == '-');
    }
    // The text splits at its four dashes into the five fields.
    let r3 = pd + dash + pe;
    let r2 = pc + dash + r3;
    let r1 = pb + dash + r2;
    assert(t =~= pa + dash + r1);
    crate::text::lemma_split_by_concat(pa, r1, dash, '-');
    crate::text::lemma_split_by_concat(pb, r2, dash, '-');
    crate::text::lemma_split_by_concat(pc, r3, dash, '-');
    crate::text::lemma_split_by_concat(pd, pe, dash, '-');
    assert(split_by(t, dash) =~= seq![pa, pb, pc, pd, pe]);
    // Nothing to trim or strip around it.
    assert(is_hex_char(t[0])) by {
        assert(t[0] == pa[0]);
    }
    assert(is_hex_char(t.last())) by {
        assert(t.last() == pe[pe.len() - 1]);
    }
    assert(trim_start(t) == t);
    assert(trim_end(t) == t);
    assert(strip_leading(t, '{') == t);
    assert(strip_trailing(t, '}') == t);
    assert(guid_body(t) == t);
    // The fields read back.
    lemma_parse_hex_field(a as nat, 8, 0xffff_ffff, upper);
    lemma_parse_hex_field(b as nat, 4, 0xffff, upper);
    lemma_parse_hex_field(c as nat, 4, 0xffff, upper);
    lemma_bytes_text_concat(d.take(2), d.skip(2), upper);
    assert(d.take(2) + d.skip(2) =~= d);
    lemma_bytes_text(d, upper);
    lemma_utf8_len_narrow(pd + pe);
    assert(read_guid(t) == GuidReading::Fields(a, b, c, d));
    lemma_braces_optional(t);
}

} // verus!
