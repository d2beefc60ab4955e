//! Character-level text helpers shared by the lookup, scan and calendar code.
//!
//! Strings are modelled by their views, sequences of `char`.

use vstd::prelude::*;

verus! {

/// Appends one character at the end of a string.
///
/// Calls `String::push`; its documentation states that it appends the given
/// `char` to the end of the `String`, which is what the contract claims.
#[verifier::external_body]
pub(crate) fn push_char(s: &mut String, c: char)
    ensures
        final(s)@ == old(s)@.push(c),
{
    s.push(c);
}

/// What `str::to_lowercase` gives for a string: the full Unicode lowercase
/// mapping, which depends on the characters alone.
pub uninterp spec fn lowercase(s: Seq<char>) -> Seq<char>;

/// Lower-cases a string.
///
/// Calls `str::to_lowercase`; its documentation defines the result from the
/// Unicode `Lowercase` mapping of the characters of `s` alone, so the contract
/// names it `lowercase(s@)` and says nothing more of it.
#[verifier::external_body]
pub(crate) fn to_lowercase(s: &str) -> (r: String)
    ensures
        r@ == lowercase(s@),
{
    s.to_lowercase()
}

/// The characters of `s`, in order.
pub fn chars_of(s: &str) -> (v: Vec<char>)
    ensures
        v@ == s@,
{
    let n = s.unicode_len();
    let mut v: Vec<char> = Vec::new();
    let mut i: usize = 0;
    while i < n
        invariant
            n == s@.len(),
            i <= n,
            v@ == s@.take(i as int),
        decreases n - i,
    {
        let c = s.get_char(i);
        v.push(c);
        i = i + 1;
        proof {
            assert(s@.take(i as int) =~= s@.take(i - 1).push(c));
        }
    }
    proof {
        assert(s@.take(n as int) =~= s@);
    }
    v
}

/// Appends every character of `t` to `s`.
pub fn push_chars(s: &mut String, t: &Vec<char>)
    ensures
        final(s)@ == old(s)@ + t@,
{
    let mut i: usize = 0;
    while i < t.len()
        invariant
            i <= t@.len(),
            s@ == old(s)@ + t@.take(i as int),
        decreases t.len() - i,
    {
        push_char(s, t[i]);
        i = i + 1;
        proof {
            assert(old(s)@ + t@.take(i as int) =~= (old(s)@ + t@.take(i - 1)).push(t@[i - 1]));
        }
    }
    proof {
        assert(t@.take(t@.len() as int) =~= t@);
    }
}

/// A string holding exactly the characters of `t`.
pub fn string_from_chars(t: &Vec<char>) -> (s: String)
    ensures
        s@ == t@,
{
    let mut s = String::new();
    push_chars(&mut s, t);
    proof {
        assert(Seq::<char>::empty() + t@ =~= t@);
    }
    s
}

/// Appends the characters of a string slice to `s`.
pub fn push_str(s: &mut String, t: &str)
    ensures
        final(s)@ == old(s)@ + t@,
{
    let v = chars_of(t);
    push_chars(s, &v);
}

/// `p` occurs in `s` as a contiguous block starting at `i`.
pub open spec fn occurs_at(s: Seq<char>, p: Seq<char>, i: int) -> bool {
    0 <= i && i + p.len() <= s.len() && s.subrange(i, i + p.len()) == p
}

/// `p` occurs somewhere in `s` as a contiguous block.
pub open spec fn has_substring(s: Seq<char>, p: Seq<char>) -> bool {
    exists|i: int| occurs_at(s, p, i)
}

/// Whether `p` occurs in `s` at position `i`.
pub fn matches_at(s: &Vec<char>, p: &Vec<char>, i: usize) -> (r: bool)
    ensures
        r == occurs_at(s@, p@, i as int),
{
    if i > s.len() || p.len() > s.len() - i {
        return false;
    }
    let mut j: usize = 0;
    while j < p.len()
        invariant
            i + p@.len() <= s@.len(),
            s@.len() == s.len(),
            j <= p@.len(),
            forall|k: int| 0 <= k < j ==> s@[i + k] == p@[k],
        decreases p.len() - j,
    {
        if s[i + j] != p[j] {
            proof {
                assert(s@.subrange(i as int, i + p@.len())[j as int] != p@[j as int]);
            }
            return false;
        }
        j = j + 1;
    }
    proof {
        assert(s@.subrange(i as int, i + p@.len()) =~= p@);
    }
    true
}

/// Whether `p` occurs in `s`.
pub fn contains_chars(s: &Vec<char>, p: &Vec<char>) -> (r: bool)
    ensures
        r == has_substring(s@, p@),
{
    if p.len() > s.len() {
        proof {
            assert forall|i: int| !occurs_at(s@, p@, i) by {}
        }
        return false;
    }
    let last = s.len() - p.len();
    let mut i: usize = 0;
    while i < last
        invariant
            last == s@.len() - p@.len(),
            i <= last,
            forall|k: int| 0 <= k < i ==> !occurs_at(s@, p@, k),
        decreases last - i,
    {
        if matches_at(s, p, i) {
            return true;
        }
        i = i + 1;
    }
    if matches_at(s, p, last) {
        return true;
    }
    proof {
        assert forall|k: int| !occurs_at(s@, p@, k) by {
            if 0 <= k < i {
            } else if k > i && k + p@.len() <= s@.len() {
                assert(false);
            }
        }
    }
    false
}

/// Whether `c` occurs in `s`.
pub fn str_has_char(s: &str, c: char) -> (r: bool)
    ensures
        r == s@.contains(c),
{
    let v = chars_of(s);
    let mut i: usize = 0;
    while i < v.len()
        invariant
            v@ == s@,
            i <= v@.len(),
            forall|k: int| 0 <= k < i ==> v@[k] != c,
        decreases v.len() - i,
    {
        if v[i] == c {
            return true;
        }
        i = i + 1;
    }
    false
}

/// Whether two character sequences are equal.
pub fn chars_eq(a: &Vec<char>, b: &Vec<char>) -> (r: bool)
    ensures
        r == (a@ == b@),
{
    if a.len() != b.len() {
        return false;
    }
    let mut i: usize = 0;
    while i < a.len()
        invariant
            a@.len() == b@.len(),
            i <= a@.len(),
            forall|k: int| 0 <= k < i ==> a@[k] == b@[k],
        decreases a.len() - i,
    {
        if a[i] != b[i] {
            return false;
        }
        i = i + 1;
    }
    proof {
        assert(a@ =~= b@);
    }
    true
}

/// The digit character for `d` (0 to 15): `0`-`9`, then upper-case `A`-`F`.
pub open spec fn digit_char(d: int) -> char {
    if d < 10 {
        (48 + d) as char
    } else {
        (55 + d) as char
    }
}

/// Decimal representation of `n`, without leading zeros.
pub open spec fn decimal(n: nat) -> Seq<char>
    decreases n,
{
    if n < 10 {
        seq![digit_char(n as int)]
    } else {
        decimal(n / 10).push(digit_char((n % 10) as int))
    }
}

/// The lowest `width` hexadecimal digits of `n`, upper case, most significant first.
pub open spec fn hex_fixed(n: nat, width: nat) -> Seq<char>
    decreases width,
{
    if width == 0 {
        Seq::empty()
    } else {
        hex_fixed(n / 16, (width - 1) as nat).push(digit_char((n % 16) as int))
    }
}

/// `s` preceded by as many `0` characters as make it `width` long.
pub open spec fn zero_pad(s: Seq<char>, width: nat) -> Seq<char> {
    if s.len() >= width {
        s
    } else {
        Seq::new((width - s.len()) as nat, |i: int| '0') + s
    }
}

/// `16^w`, the number of values `w` hexadecimal digits can write.
pub open spec fn hex_range(w: nat) -> nat
    decreases w,
{
    if w == 0 {
        1
    } else {
        16 * hex_range((w - 1) as nat)
    }
}

/// Decimal text reads back as its number: it is made of the digits `0`-`9`,
/// has no leading zero, and its value in base 10 is `n`.
pub proof fn lemma_decimal_reads_back(n: nat)
    ensures
        decimal(n).len() > 0,
        forall|i: int| 0 <= i < decimal(n).len() ==> '0' <= #[trigger] decimal(n)[i] <= '9',
        n > 0 ==> decimal(n)[0] != '0',
        digits_value(decimal(n), 10) == n,
    decreases n,
{
    if n >= 10 {
        lemma_decimal_reads_back(n / 10);
        let prev = decimal(n / 10);
        let t = decimal(n);
        assert(t.drop_last() =~= prev);
        assert forall|i: int| 0 <= i < t.len() implies '0' <= #[trigger] t[i] <= '9' by {
            if i < t.len() - 1 {
                assert(t[i] == prev[i]);
            }
        }
        assert(t[0] == prev[0]);
        assert(t.last() == digit_char((n % 10) as int));
        assert(char_digit(digit_char((n % 10) as int)) == n % 10);
        assert(digits_value(t, 10) == digits_value(prev, 10) * 10 + n % 10);
    } else {
        let t = decimal(n);
        assert(t.drop_last() =~= Seq::<char>::empty());
        assert(char_digit(digit_char(n as int)) == n);
        assert(digits_value(t, 10) == digits_value(t.drop_last(), 10) * 10 + char_digit(t.last()));
    }
}

/// Fixed-width hexadecimal text reads back as its number: `w` digits
/// `0`-`9` or `A`-`F` whose value in base 16 is `n`, for `n < 16^w`.
pub proof fn lemma_hex_fixed_reads_back(n: nat, w: nat)
    requires
        n < hex_range(w),
    ensures
        hex_fixed(n, w).len() == w,
        forall|i: int|
            0 <= i < w ==> ('0' <= #[trigger] hex_fixed(n, w)[i] <= '9') || ('A' <= hex_fixed(n, w)[i]
                <= 'F'),
        digits_value(hex_fixed(n, w), 16) == n,
    decreases w,
{
    if w > 0 {
        lemma_hex_fixed_reads_back(n / 16, (w - 1) as nat);
        let prev = hex_fixed(n / 16, (w - 1) as nat);
        let t = hex_fixed(n, w);
        assert(t.drop_last() =~= prev);
        assert forall|i: int| 0 <= i < w implies ('0' <= #[trigger] t[i] <= '9') || ('A' <= t[i] <= 'F') by {
            if i < w - 1 {
                assert(t[i] == prev[i]);
            }
        }
    }
}

/// The digit character for `d`.
pub fn digit(d: u8) -> (c: char)
    requires
        d < 16,
    ensures
        c == digit_char(d as int),
{
    if d < 10 {
        (48 + d) as char
    } else {
        (55 + d) as char
    }
}

/// Appends the decimal digits of `n` to `v`.
pub fn push_decimal(v: &mut Vec<char>, n: u64)
    ensures
        final(v)@ == old(v)@ + decimal(n as nat),
    decreases n,
{
    if n >= 10 {
        push_decimal(v, n / 10);
    }
    let d = (n % 10) as u8;
    v.push(digit(d));
    proof {
        if n >= 10 {
            assert(old(v)@ + decimal(n as nat) =~= old(v)@ + decimal((n / 10) as nat) + seq![
                digit_char((n % 10) as int),
            ]);
        } else {
            assert(old(v)@ + decimal(n as nat) =~= old(v)@.push(digit_char(n as int)));
        }
    }
}

/// Appends the lowest `width` upper-case hexadecimal digits of `n` to `v`.
pub fn push_hex_fixed(v: &mut Vec<char>, n: u64, width: u32)
    ensures
        final(v)@ == old(v)@ + hex_fixed(n as nat, width as nat),
    decreases width,
{
    if width == 0 {
        proof {
            assert(old(v)@ + hex_fixed(n as nat, 0) =~= old(v)@);
        }
        return;
    }
    push_hex_fixed(v, n / 16, width - 1);
    let d = (n % 16) as u8;
    v.push(digit(d));
    proof {
        assert(old(v)@ + hex_fixed(n as nat, width as nat) =~= old(v)@ + hex_fixed(
            (n / 16) as nat,
            (width - 1) as nat,
        ) + seq![digit_char((n % 16) as int)]);
    }
}

/// Appends the decimal digits of `n`, padded with `0` on the left to `width` characters.
pub fn push_decimal_padded(v: &mut Vec<char>, n: u64, width: usize)
    ensures
        final(v)@ == old(v)@ + zero_pad(decimal(n as nat), width as nat),
{
    let mut digits: Vec<char> = Vec::new();
    push_decimal(&mut digits, n);
    proof {
        assert(digits@ =~= decimal(n as nat));
    }
    if digits.len() < width {
        let fill = width - digits.len();
        let mut i: usize = 0;
        while i < fill
            invariant
                i <= fill,
                v@ == old(v)@ + Seq::new(i as nat, |k: int| '0'),
            decreases fill - i,
        {
            v.push('0');
            i = i + 1;
            proof {
                assert(old(v)@ + Seq::new(i as nat, |k: int| '0') =~= (old(v)@ + Seq::new(
                    (i - 1) as nat,
                    |k: int| '0',
                )).push('0'));
            }
        }
        let ghost before = v@;
        let mut j: usize = 0;
        while j < digits.len()
            invariant
                j <= digits@.len(),
                v@ == before + digits@.take(j as int),
            decreases digits.len() - j,
        {
            v.push(digits[j]);
            j = j + 1;
            proof {
                assert(before + digits@.take(j as int) =~= (before + digits@.take(j - 1)).push(
                    digits@[j - 1],
                ));
            }
        }
        proof {
            assert(digits@.take(digits@.len() as int) =~= digits@);
            assert(old(v)@ + zero_pad(decimal(n as nat), width as nat) =~= before + digits@);
        }
    } else {
        let mut j: usize = 0;
        while j < digits.len()
            invariant
                j <= digits@.len(),
                v@ == old(v)@ + digits@.take(j as int),
            decreases digits.len() - j,
        {
            v.push(digits[j]);
            j = j + 1;
            proof {
                assert(old(v)@ + digits@.take(j as int) =~= (old(v)@ + digits@.take(j - 1)).push(
                    digits@[j - 1],
                ));
            }
        }
        proof {
            assert(digits@.take(digits@.len() as int) =~= digits@);
        }
    }
}

// ─── Splitting and joining ─────────────────────────────────────────

/// `s` cut at every character of `seps`, like `str::split` with a set of
/// separator characters: k separators give k + 1 pieces, possibly empty.
pub open spec fn split_by(s: Seq<char>, seps: Seq<char>) -> Seq<Seq<char>>
    decreases s.len(),
{
    if s.len() == 0 {
        seq![Seq::empty()]
    } else {
        let prev = split_by(s.drop_last(), seps);
        let c = s.last();
        if seps.contains(c) {
            prev.push(Seq::empty())
        } else {
            prev.update(prev.len() - 1, prev.last().push(c))
        }
    }
}

/// `split_by` always yields at least one piece.
pub proof fn lemma_split_by_nonempty(s: Seq<char>, seps: Seq<char>)
    ensures
        split_by(s, seps).len() >= 1,
    decreases s.len(),
{
    if s.len() > 0 {
        lemma_split_by_nonempty(s.drop_last(), seps);
    }
}

/// Splitting at a separator splits the two sides independently.
pub proof fn lemma_split_by_concat(a: Seq<char>, b: Seq<char>, seps: Seq<char>, c: char)
    requires
        seps.contains(c),
    ensures
        split_by(a + seq![c] + b, seps) == split_by(a, seps) + split_by(b, seps),
    decreases b.len(),
{
    let s = a + seq![c] + b;
    if b.len() == 0 {
        assert(s.drop_last() =~= a);
        assert(split_by(b, seps) =~= seq![Seq::<char>::empty()]);
        assert(split_by(a, seps).push(Seq::empty()) =~= split_by(a, seps) + seq![
            Seq::<char>::empty(),
        ]);
    } else {
        lemma_split_by_concat(a, b.drop_last(), seps, c);
        lemma_split_by_nonempty(b.drop_last(), seps);
        lemma_split_by_nonempty(a, seps);
        assert(s.drop_last() =~= a + seq![c] + b.drop_last());
        assert(s.last() == b.last());
        let x = split_by(a, seps);
        let y = split_by(b.drop_last(), seps);
        if seps.contains(b.last()) {
            assert((x + y).push(Seq::empty()) =~= x + y.push(Seq::empty()));
        } else {
            assert((x + y).last() == y.last());
            assert((x + y).update((x + y).len() - 1, y.last().push(b.last())) =~= x + y.update(
                y.len() - 1,
                y.last().push(b.last()),
            ));
        }
    }
}

/// A separator-free start stays at the front of the first piece.
pub proof fn lemma_split_first_piece(x: Seq<char>, y: Seq<char>, seps: Seq<char>)
    requires
        forall|i: int| 0 <= i < x.len() ==> !seps.contains(#[trigger] x[i]),
    ensures
        split_by(x + y, seps).len() == split_by(y, seps).len(),
        split_by(x + y, seps)[0] == x + split_by(y, seps)[0],
    decreases y.len(),
{
    lemma_split_by_nonempty(x + y, seps);
    lemma_split_by_nonempty(y, seps);
    if y.len() == 0 {
        assert(x + y =~= x);
        lemma_split_by_plain(x, seps);
        assert(x + Seq::<char>::empty() =~= x);
    } else {
        let yp = y.drop_last();
        lemma_split_first_piece(x, yp, seps);
        lemma_split_by_nonempty(x + yp, seps);
        lemma_split_by_nonempty(yp, seps);
        assert((x + y).drop_last() =~= x + yp);
        assert((x + y).last() == y.last());
        let c = y.last();
        let a = split_by(x + yp, seps);
        let b = split_by(yp, seps);
        if !seps.contains(c) && a.len() == 1 {
            assert(x + b[0].push(c) =~= (x + b[0]).push(c));
        }
    }
}

/// A text without separators is a single piece.
pub proof fn lemma_split_by_plain(s: Seq<char>, seps: Seq<char>)
    requires
        forall|i: int| 0 <= i < s.len() ==> !seps.contains(#[trigger] s[i]),
    ensures
        split_by(s, seps) == seq![s],
    decreases s.len(),
{
    if s.len() > 0 {
        lemma_split_by_plain(s.drop_last(), seps);
        assert(!seps.contains(s[s.len() - 1]));
        assert(s.drop_last().push(s.last()) =~= s);
        assert(seq![s.drop_last()].update(0, s) =~= seq![s]);
    } else {
        assert(s =~= Seq::<char>::empty());
    }
}

/// Splitting pieces joined with a separator they do not contain gives them back.
pub proof fn lemma_split_join(ps: Seq<Seq<char>>, c: char)
    requires
        ps.len() >= 1,
        forall|i: int| 0 <= i < ps.len() ==> !(#[trigger] ps[i]).contains(c),
    ensures
        split_by(join_with(ps, seq![c]), seq![c]) == ps,
    decreases ps.len(),
{
    assert(seq![c].contains(c)) by {
        assert(seq![c][0] == c);
    }
    if ps.len() == 1 {
        assert forall|i: int| 0 <= i < ps[0].len() implies !seq![c].contains(#[trigger] ps[0][i]) by {
            if seq![c].contains(ps[0][i]) {
                assert(ps[0].contains(c));
            }
        }
        lemma_split_by_plain(ps[0], seq![c]);
        assert(seq![ps[0]] =~= ps);
    } else {
        lemma_split_join(ps.drop_last(), c);
        let last = ps.last();
        assert forall|i: int| 0 <= i < last.len() implies !seq![c].contains(#[trigger] last[i]) by {
            if seq![c].contains(last[i]) {
                assert(last.contains(c));
            }
        }
        lemma_split_by_plain(last, seq![c]);
        lemma_split_by_concat(join_with(ps.drop_last(), seq![c]), last, seq![c], c);
        assert(ps.drop_last() + seq![last] =~= ps);
    }
}

/// Replacing the separator of joined pieces that do not contain it joins
/// them with the replacement.
pub proof fn lemma_replace_join(ps: Seq<Seq<char>>, from: char, to: char)
    requires
        forall|i: int| 0 <= i < ps.len() ==> !(#[trigger] ps[i]).contains(from),
    ensures
        replace_char(join_with(ps, seq![from]), from, to) == join_with(ps, seq![to]),
    decreases ps.len(),
{
    if ps.len() == 0 {
        assert(replace_char(Seq::empty(), from, to) =~= Seq::<char>::empty());
    } else {
        let last = ps.last();
        assert(replace_char(last, from, to) =~= last) by {
            assert forall|i: int| 0 <= i < last.len() implies last[i] != from by {
                if last[i] == from {
                    assert(last.contains(from));
                }
            }
        }
        if ps.len() > 1 {
            lemma_replace_join(ps.drop_last(), from, to);
            let a = join_with(ps.drop_last(), seq![from]);
            assert(replace_char(a + seq![from] + last, from, to) =~= replace_char(a, from, to)
                + seq![to] + replace_char(last, from, to));
        }
    }
}

/// Whether `c` is one of `seps`.
pub fn is_one_of(c: char, seps: &Vec<char>) -> (r: bool)
    ensures
        r == seps@.contains(c),
{
    let mut i: usize = 0;
    while i < seps.len()
        invariant
            i <= seps@.len(),
            forall|k: int| 0 <= k < i ==> seps@[k] != c,
        decreases seps.len() - i,
    {
        if seps[i] == c {
            return true;
        }
        i = i + 1;
    }
    false
}

/// The pieces of `s` between the characters of `seps`.
pub fn split_chars(s: &Vec<char>, seps: &Vec<char>) -> (parts: Vec<Vec<char>>)
    ensures
        parts@.len() == split_by(s@, seps@).len(),
        forall|i: int| 0 <= i < parts@.len() ==> #[trigger] parts@[i]@ == split_by(s@, seps@)[i],
{
    let mut parts: Vec<Vec<char>> = Vec::new();
    let mut cur: Vec<char> = Vec::new();
    let mut i: usize = 0;
    proof {
        assert(s@.take(0) =~= Seq::<char>::empty());
    }
    while i < s.len()
        invariant
            i <= s@.len(),
            parts@.len() + 1 == split_by(s@.take(i as int), seps@).len(),
            forall|k: int| 0 <= k < parts@.len() ==> #[trigger] parts@[k]@ == split_by(
                s@.take(i as int),
                seps@,
            )[k],
            cur@ == split_by(s@.take(i as int), seps@).last(),
        decreases s.len() - i,
    {
        let c = s[i];
        proof {
            assert(s@.take(i + 1).drop_last() =~= s@.take(i as int));
            assert(s@.take(i + 1).last() == c);
            lemma_split_by_nonempty(s@.take(i as int), seps@);
        }
        if is_one_of(c, seps) {
            let done = cur;
            parts.push(done);
            cur = Vec::new();
        } else {
            cur.push(c);
        }
        i = i + 1;
    }
    proof {
        assert(s@.take(s@.len() as int) =~= s@);
        lemma_split_by_nonempty(s@, seps@);
    }
    parts.push(cur);
    parts
}

/// `parts` joined with `sep` between consecutive pieces.
pub open spec fn join_with(parts: Seq<Seq<char>>, sep: Seq<char>) -> Seq<char>
    decreases parts.len(),
{
    if parts.len() == 0 {
        Seq::empty()
    } else if parts.len() == 1 {
        parts[0]
    } else {
        join_with(parts.drop_last(), sep) + sep + parts.last()
    }
}

/// Whether `p` is a prefix of `s`.
pub open spec fn is_prefix(p: Seq<char>, s: Seq<char>) -> bool {
    p.len() <= s.len() && s.take(p.len() as int) == p
}

/// Whether `p` is a prefix of `s`.
pub fn starts_with_chars(s: &Vec<char>, p: &Vec<char>) -> (r: bool)
    ensures
        r == is_prefix(p@, s@),
{
    if p.len() > s.len() {
        return false;
    }
    let r = matches_at(s, p, 0);
    proof {
        assert(s@.subrange(0, p@.len() as int) =~= s@.take(p@.len() as int));
    }
    r
}

/// The characters of `s` from index `from` on.
pub fn skip_chars(s: &Vec<char>, from: usize) -> (r: Vec<char>)
    requires
        from <= s@.len(),
    ensures
        r@ == s@.skip(from as int),
{
    let mut r: Vec<char> = Vec::new();
    let mut i: usize = from;
    while i < s.len()
        invariant
            from <= i <= s@.len(),
            r@ == s@.subrange(from as int, i as int),
        decreases s.len() - i,
    {
        r.push(s[i]);
        i = i + 1;
        proof {
            assert(s@.subrange(from as int, i as int) =~= s@.subrange(from as int, i - 1).push(
                s@[i - 1],
            ));
        }
    }
    proof {
        assert(s@.subrange(from as int, s@.len() as int) =~= s@.skip(from as int));
    }
    r
}

// ─── Numbers in text ───────────────────────────────────────────────

/// Value of a digit character in bases up to 36 (`char::to_digit`): `0`-`9`,
/// then `a`-`z` or `A`-`Z` for 10 to 35; 36 for any other character.
pub open spec fn char_digit(c: char) -> nat {
    if '0' <= c <= '9' {
        (c as int - 48) as nat
    } else if 'a' <= c <= 'z' {
        (c as int - 97 + 10) as nat
    } else if 'A' <= c <= 'Z' {
        (c as int - 65 + 10) as nat
    } else {
        36
    }
}

/// Value of a string of digits in base `radix`, most significant first.
pub open spec fn digits_value(s: Seq<char>, radix: nat) -> nat
    decreases s.len(),
{
    if s.len() == 0 {
        0
    } else {
        digits_value(s.drop_last(), radix) * radix + char_digit(s.last())
    }
}

/// Every character of `s` is a digit in base `radix`.
pub open spec fn all_digits(s: Seq<char>, radix: nat) -> bool {
    forall|i: int| 0 <= i < s.len() ==> char_digit(#[trigger] s[i]) < radix
}

/// The number written in `s` in base `radix`, as `from_str_radix` reads it
/// for an unsigned type before the range check: an optional leading `+`,
/// then at least one digit; `None` for anything else.
pub open spec fn parse_radix(s: Seq<char>, radix: nat) -> Option<nat> {
    let digits = if s.len() > 0 && s[0] == '+' {
        s.skip(1)
    } else {
        s
    };
    if digits.len() > 0 && all_digits(digits, radix) {
        Some(digits_value(digits, radix))
    } else {
        None
    }
}

/// `from_str_radix` for an unsigned type whose largest value is `max`.
pub open spec fn parse_unsigned(s: Seq<char>, radix: nat, max: nat) -> Option<nat> {
    match parse_radix(s, radix) {
        Some(v) => if v <= max {
            Some(v)
        } else {
            None
        },
        None => None,
    }
}

/// A prefix of digits never has a larger value than the whole.
proof fn lemma_digits_value_prefix(s: Seq<char>, radix: nat, j: int)
    requires
        0 <= j <= s.len(),
        radix >= 2,
    ensures
        digits_value(s.take(j), radix) <= digits_value(s, radix),
    decreases s.len() - j,
{
    if j < s.len() {
        lemma_digits_value_prefix(s, radix, j + 1);
        assert(s.take(j + 1).drop_last() =~= s.take(j));
        assert(digits_value(s.take(j), radix) <= digits_value(s.take(j), radix) * radix)
            by (nonlinear_arith)
            requires
                radix >= 2,
        ;
    } else {
        assert(s.take(j) =~= s);
    }
}

/// The character's digit value, as `char_digit` gives it.
fn digit_of(c: char) -> (d: u32)
    ensures
        d == char_digit(c),
{
    if '0' <= c && c <= '9' {
        (c as u32) - 48
    } else if 'a' <= c && c <= 'z' {
        (c as u32) - 97 + 10
    } else if 'A' <= c && c <= 'Z' {
        (c as u32) - 65 + 10
    } else {
        36
    }
}

/// `from_str_radix(s, radix)` for an unsigned type whose largest value is `max`.
pub fn parse_unsigned_chars(s: &Vec<char>, radix: u32, max: u64) -> (r: Option<u64>)
    requires
        2 <= radix <= 36,
    ensures
        r matches Some(v) ==> parse_unsigned(s@, radix as nat, max as nat) == Some(v as nat),
        r is None ==> parse_unsigned(s@, radix as nat, max as nat) is None,
{
    let start: usize = if s.len() > 0 && s[0] == '+' {
        1
    } else {
        0
    };
    let ghost digits = if s@.len() > 0 && s@[0] == '+' {
        s@.skip(1)
    } else {
        s@
    };
    proof {
        assert(digits =~= s@.skip(start as int));
        assert(parse_radix(s@, radix as nat) == (if digits.len() > 0 && all_digits(
            digits,
            radix as nat,
        ) {
            Some(digits_value(digits, radix as nat))
        } else {
            None
        }));
    }
    if start >= s.len() {
        return None;
    }
    let mut value: u64 = 0;
    let mut i: usize = start;
    while i < s.len()
        invariant
            start <= i <= s@.len(),
            digits == s@.skip(start as int),
            2 <= radix <= 36,
            value as nat == digits_value(digits.take(i - start), radix as nat),
            value <= max,
            all_digits(digits.take(i - start), radix as nat),
            digits.len() > 0,
            parse_radix(s@, radix as nat) == (if all_digits(digits, radix as nat) {
                Some(digits_value(digits, radix as nat))
            } else {
                None::<nat>
            }),
        decreases s.len() - i,
    {
        let d = digit_of(s[i]);
        proof {
            assert(digits.take(i - start + 1).drop_last() =~= digits.take(i - start));
            assert(digits.take(i - start + 1).last() == s@[i as int]);
            assert(digits_value(digits.take(i - start + 1), radix as nat) == value as nat
                * radix as nat + d as nat);
        }
        if d >= radix {
            proof {
                assert(digits[i - start] == s@[i as int]);
                assert(char_digit(digits[i - start]) >= radix);
                assert(!all_digits(digits, radix as nat));
            }
            return None;
        }
        if (d as u64) > max {
            proof {
                lemma_digits_value_prefix(digits, radix as nat, i - start + 1);
                assert(value as nat * radix as nat + d as nat >= d as nat) by (nonlinear_arith);
                if all_digits(digits, radix as nat) {
                    assert(digits_value(digits, radix as nat) > max);
                }
                assert(parse_radix(s@, radix as nat) is None || parse_radix(
                    s@,
                    radix as nat,
                )->0 > max);
            }
            return None;
        }
        let room = (max - d as u64) / (radix as u64);
        if value > room {
            proof {
                assert(value as nat * radix as nat + d as nat > max as nat) by (nonlinear_arith)
                    requires
                        value > room || d > max,
                        room as int == (max as int - d as int) / (radix as int) || d > max,
                        radix >= 2,
                ;
                lemma_digits_value_prefix(digits, radix as nat, i - start + 1);
                if all_digits(digits, radix as nat) {
                    assert(digits_value(digits, radix as nat) > max);
                }
                assert(parse_radix(s@, radix as nat) is None || parse_radix(
                    s@,
                    radix as nat,
                )->0 > max);
            }
            return None;
        }
        proof {
            assert(value as nat * radix as nat + d as nat <= max as nat) by (nonlinear_arith)
                requires
                    value <= room,
                    d <= max,
                    room as int == (max as int - d as int) / (radix as int),
                    radix >= 2,
            ;
        }
        value = value * (radix as u64) + (d as u64);
        i = i + 1;
    }
    proof {
        assert(digits.take(i - start) =~= digits);
    }
    Some(value)
}

// ─── Trimming ──────────────────────────────────────────────────────

/// `char::is_whitespace`: the characters with the Unicode White_Space property.
pub open spec fn is_whitespace(c: char) -> bool {
    ||| '\u{9}' <= c <= '\u{d}'
    ||| c == ' '
    ||| c == '\u{85}'
    ||| c == '\u{a0}'
    ||| c == '\u{1680}'
    ||| '\u{2000}' <= c <= '\u{200a}'
    ||| c == '\u{2028}'
    ||| c == '\u{2029}'
    ||| c == '\u{202f}'
    ||| c == '\u{205f}'
    ||| c == '\u{3000}'
}

/// `s` without its leading characters that satisfy `is_whitespace`.
pub open spec fn trim_start(s: Seq<char>) -> Seq<char>
    decreases s.len(),
{
    if s.len() > 0 && is_whitespace(s[0]) {
        trim_start(s.skip(1))
    } else {
        s
    }
}

/// `s` without its trailing characters that satisfy `is_whitespace`.
pub open spec fn trim_end(s: Seq<char>) -> Seq<char>
    decreases s.len(),
{
    if s.len() > 0 && is_whitespace(s.last()) {
        trim_end(s.drop_last())
    } else {
        s
    }
}

/// `str::trim`.
pub open spec fn trim(s: Seq<char>) -> Seq<char> {
    trim_end(trim_start(s))
}

/// `s` without all its leading copies of `c` (`str::trim_start_matches`).
pub open spec fn strip_leading(s: Seq<char>, c: char) -> Seq<char>
    decreases s.len(),
{
    if s.len() > 0 && s[0] == c {
        strip_leading(s.skip(1), c)
    } else {
        s
    }
}

/// `s` without all its trailing copies of `c` (`str::trim_end_matches`).
pub open spec fn strip_trailing(s: Seq<char>, c: char) -> Seq<char>
    decreases s.len(),
{
    if s.len() > 0 && s.last() == c {
        strip_trailing(s.drop_last(), c)
    } else {
        s
    }
}

/// Whether `c` has the Unicode White_Space property.
pub fn char_is_whitespace(c: char) -> (r: bool)
    ensures
        r == is_whitespace(c),
{
    ('\u{9}' <= c && c <= '\u{d}') || c == ' ' || c == '\u{85}' || c == '\u{a0}' || c
        == '\u{1680}' || ('\u{2000}' <= c && c <= '\u{200a}') || c == '\u{2028}' || c
        == '\u{2029}' || c == '\u{202f}' || c == '\u{205f}' || c == '\u{3000}'
}

/// The characters `s@[lo..hi]`.
pub fn sub_chars(s: &Vec<char>, lo: usize, hi: usize) -> (r: Vec<char>)
    requires
        lo <= hi <= s@.len(),
    ensures
        r@ == s@.subrange(lo as int, hi as int),
{
    let mut r: Vec<char> = Vec::new();
    let mut i: usize = lo;
    while i < hi
        invariant
            lo <= i <= hi,
            hi <= s@.len(),
            r@ == s@.subrange(lo as int, i as int),
        decreases hi - i,
    {
        r.push(s[i]);
        i = i + 1;
        proof {
            assert(s@.subrange(lo as int, i as int) =~= s@.subrange(lo as int, i - 1).push(
                s@[i - 1],
            ));
        }
    }
    r
}

/// `str::trim` on a character sequence.
pub fn trim_chars(s: &Vec<char>) -> (r: Vec<char>)
    ensures
        r@ == trim(s@),
{
    let mut lo: usize = 0;
    proof {
        assert(s@.skip(0) =~= s@);
    }
    while lo < s.len() && char_is_whitespace(s[lo])
        invariant
            lo <= s@.len(),
            trim_start(s@) == trim_start(s@.skip(lo as int)),
        decreases s.len() - lo,
    {
        proof {
            assert(s@.skip(lo as int).skip(1) =~= s@.skip(lo + 1));
        }
        lo = lo + 1;
    }
    proof {
        assert(trim_start(s@) == s@.skip(lo as int));
    }
    let mut hi: usize = s.len();
    while hi > lo && char_is_whitespace(s[hi - 1])
        invariant
            lo <= hi <= s@.len(),
            trim_start(s@) == s@.skip(lo as int),
            trim(s@) == trim_end(s@.subrange(lo as int, hi as int)),
        decreases hi,
    {
        proof {
            assert(s@.subrange(lo as int, hi as int).drop_last() =~= s@.subrange(
                lo as int,
                hi - 1,
            ));
        }
        hi = hi - 1;
    }
    proof {
        assert(s@.skip(lo as int) =~= s@.subrange(lo as int, s@.len() as int));
    }
    sub_chars(s, lo, hi)
}

/// `trim_start_matches(c)` then `trim_end_matches(d)` on a character sequence.
pub fn strip_chars(s: &Vec<char>, c: char, d: char) -> (r: Vec<char>)
    ensures
        r@ == strip_trailing(strip_leading(s@, c), d),
{
    let mut lo: usize = 0;
    proof {
        assert(s@.skip(0) =~= s@);
    }
    while lo < s.len() && s[lo] == c
        invariant
            lo <= s@.len(),
            strip_leading(s@, c) == strip_leading(s@.skip(lo as int), c),
        decreases s.len() - lo,
    {
        proof {
            assert(s@.skip(lo as int).skip(1) =~= s@.skip(lo + 1));
        }
        lo = lo + 1;
    }
    proof {
        assert(strip_leading(s@, c) == s@.skip(lo as int));
        assert(s@.skip(lo as int) =~= s@.subrange(lo as int, s@.len() as int));
    }
    let mut hi: usize = s.len();
    while hi > lo && s[hi - 1] == d
        invariant
            lo <= hi <= s@.len(),
            strip_trailing(strip_leading(s@, c), d) == strip_trailing(
                s@.subrange(lo as int, hi as int),
                d,
            ),
        decreases hi,
    {
        proof {
            assert(s@.subrange(lo as int, hi as int).drop_last() =~= s@.subrange(
                lo as int,
                hi - 1,
            ));
        }
        hi = hi - 1;
    }
    sub_chars(s, lo, hi)
}

/// `s` with every `from` replaced by `to` (`str::replace` with one character).
pub open spec fn replace_char(s: Seq<char>, from: char, to: char) -> Seq<char> {
    s.map_values(|c: char| if c == from { to } else { c })
}

/// `s` with every `from` replaced by `to`.
pub fn replace_chars(s: &Vec<char>, from: char, to: char) -> (r: Vec<char>)
    ensures
        r@ == replace_char(s@, from, to),
{
    let mut r: Vec<char> = Vec::new();
    let mut i: usize = 0;
    while i < s.len()
        invariant
            i <= s@.len(),
            r@ == replace_char(s@.take(i as int), from, to),
        decreases s.len() - i,
    {
        let c = s[i];
        if c == from {
            r.push(to);
        } else {
            r.push(c);
        }
        i = i + 1;
        proof {
            assert(replace_char(s@.take(i as int), from, to) =~= replace_char(
                s@.take(i - 1),
                from,
                to,
            ).push(if c == from { to } else { c }));
        }
    }
    proof {
        assert(s@.take(i as int) =~= s@);
    }
    r
}

/// `s` without the prefix `p` when it starts with it, else `s` unchanged.
pub open spec fn without_prefix(s: Seq<char>, p: Seq<char>) -> Seq<char> {
    if is_prefix(p, s) {
        s.skip(p.len() as int)
    } else {
        s
    }
}

/// `s` without the prefix `p` when it starts with it, else `s` unchanged.
pub fn without_prefix_chars(s: &Vec<char>, p: &Vec<char>) -> (r: Vec<char>)
    ensures
        r@ == without_prefix(s@, p@),
{
    if starts_with_chars(s, p) {
        skip_chars(s, p.len())
    } else {
        s.clone()
    }
}

} // verus!
