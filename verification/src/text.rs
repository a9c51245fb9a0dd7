//! Character-level building blocks: white space and trimming, searching a
//! character, UTF-16 encoding, and the decimal text of an `i32`.

use vstd::prelude::*;

verus! {

// ---------------------------------------------------------------------------
// White space and trimming
// ---------------------------------------------------------------------------

/// The Unicode `White_Space` property, the set that `char::is_whitespace`
/// and `str::trim` go by.
pub open spec fn is_white_space(c: char) -> bool {
    let v = c as int;
    ||| 0x09 <= v <= 0x0D
    ||| v == 0x20
    ||| v == 0x85
    ||| v == 0xA0
    ||| v == 0x1680
    ||| 0x2000 <= v <= 0x200A
    ||| v == 0x2028
    ||| v == 0x2029
    ||| v == 0x202F
    ||| v == 0x205F
    ||| v == 0x3000
}

pub fn is_white_space_char(c: char) -> (r: bool)
    ensures
        r == is_white_space(c),
{
    let v: u32 = c as u32;
    (0x09 <= v && v <= 0x0D) || v == 0x20 || v == 0x85 || v == 0xA0 || v == 0x1680 || (0x2000
        <= v && v <= 0x200A) || v == 0x2028 || v == 0x2029 || v == 0x202F || v == 0x205F || v
        == 0x3000
}

/// `s` without its leading white space.
pub open spec fn trim_start(s: Seq<char>) -> Seq<char>
    decreases s.len(),
{
    if s.len() > 0 && is_white_space(s[0]) {
        trim_start(s.drop_first())
    } else {
        s
    }
}

/// `s` without its trailing white space.
pub open spec fn trim_end(s: Seq<char>) -> Seq<char>
    decreases s.len(),
{
    if s.len() > 0 && is_white_space(s.last()) {
        trim_end(s.drop_last())
    } else {
        s
    }
}

/// `s` without leading and trailing white space, as `str::trim` gives it.
pub open spec fn trim(s: Seq<char>) -> Seq<char> {
    trim_end(trim_start(s))
}

/// A text that neither starts nor ends with white space.
pub open spec fn is_trimmed(s: Seq<char>) -> bool {
    s.len() > 0 ==> !is_white_space(s[0]) && !is_white_space(s.last())
}

pub proof fn lemma_trim_of_trimmed(s: Seq<char>)
    requires
        is_trimmed(s),
    ensures
        trim(s) == s,
{
}

/// One leading blank in front of a trimmed text is taken away by `trim`.
pub proof fn lemma_trim_blank_prefix(s: Seq<char>)
    requires
        is_trimmed(s),
    ensures
        trim(seq![' '] + s) == s,
{
    let t = seq![' '] + s;
    assert(t.drop_first() =~= s);
    assert(is_white_space(t[0]));
    assert(trim_start(t) == trim_start(s));
}

/// The bounds `(a, b)` of `trim(v[lo..hi])` inside `v`.
pub fn trim_range(v: &Vec<char>, lo: usize, hi: usize) -> (r: (usize, usize))
    requires
        lo <= hi <= v.len(),
    ensures
        lo <= r.0 <= r.1 <= hi,
        v@.subrange(r.0 as int, r.1 as int) == trim(v@.subrange(lo as int, hi as int)),
{
    let mut a: usize = lo;
    while a < hi && is_white_space_char(v[a])
        invariant
            lo <= a <= hi,
            hi <= v.len(),
            trim_start(v@.subrange(lo as int, hi as int)) == trim_start(
                v@.subrange(a as int, hi as int),
            ),
        decreases hi - a,
    {
        assert(v@.subrange(a as int, hi as int).drop_first() =~= v@.subrange(a + 1, hi as int));
        a = a + 1;
    }
    assert(trim_start(v@.subrange(a as int, hi as int)) == v@.subrange(a as int, hi as int));
    let mut b: usize = hi;
    while b > a && is_white_space_char(v[b - 1])
        invariant
            lo <= a <= b <= hi,
            hi <= v.len(),
            trim_end(v@.subrange(a as int, hi as int)) == trim_end(v@.subrange(a as int, b as int)),
        decreases b - a,
    {
        assert(v@.subrange(a as int, b as int).drop_last() =~= v@.subrange(a as int, b - 1));
        b = b - 1;
    }
    assert(trim_end(v@.subrange(a as int, b as int)) == v@.subrange(a as int, b as int));
    (a, b)
}

// ---------------------------------------------------------------------------
// Searching a character
// ---------------------------------------------------------------------------

/// The index of the first `c` in `s`, or `s.len()` where there is none.
pub open spec fn index_of_char(s: Seq<char>, c: char) -> int
    decreases s.len(),
{
    if s.len() == 0 {
        0
    } else if s[0] == c {
        0
    } else {
        1 + index_of_char(s.drop_first(), c)
    }
}

pub proof fn lemma_index_of_char(s: Seq<char>, c: char)
    ensures
        0 <= index_of_char(s, c) <= s.len(),
        forall|i: int| 0 <= i < index_of_char(s, c) ==> s[i] != c,
        index_of_char(s, c) < s.len() ==> s[index_of_char(s, c)] == c,
    decreases s.len(),
{
    if s.len() > 0 && s[0] != c {
        lemma_index_of_char(s.drop_first(), c);
        assert forall|i: int| 0 <= i < index_of_char(s, c) implies s[i] != c by {
            if i > 0 {
                assert(s[i] == s.drop_first()[i - 1]);
            }
        }
    }
}

/// `index_of_char` is the one index that has the three properties above.
pub proof fn lemma_index_of_char_is(s: Seq<char>, c: char, k: int)
    requires
        0 <= k <= s.len(),
        forall|i: int| 0 <= i < k ==> s[i] != c,
        k < s.len() ==> s[k] == c,
    ensures
        index_of_char(s, c) == k,
{
    lemma_index_of_char(s, c);
    let r = index_of_char(s, c);
    if r < k {
        assert(s[r] == c);
    }
    if k < r {
        assert(s[k] != c);
    }
}

/// The position in `v` of the first `c` in `v[lo..hi]`, or `hi`.
pub fn find_char(v: &Vec<char>, c: char, lo: usize, hi: usize) -> (r: usize)
    requires
        lo <= hi <= v.len(),
    ensures
        lo <= r <= hi,
        r - lo == index_of_char(v@.subrange(lo as int, hi as int), c),
{
    let mut k: usize = lo;
    while k < hi && v[k] != c
        invariant
            lo <= k <= hi,
            hi <= v.len(),
            forall|i: int| lo <= i < k ==> v@[i] != c,
        decreases hi - k,
    {
        k = k + 1;
    }
    proof {
        let s = v@.subrange(lo as int, hi as int);
        assert forall|i: int| 0 <= i < k - lo implies s[i] != c by {
            assert(s[i] == v@[lo + i]);
        }
        lemma_index_of_char_is(s, c, k - lo);
    }
    k
}

/// Whether `v[lo..hi]` is the text `w`.
pub fn range_equals(v: &Vec<char>, lo: usize, hi: usize, w: &Vec<char>) -> (r: bool)
    requires
        lo <= hi <= v.len(),
    ensures
        r == (v@.subrange(lo as int, hi as int) == w@),
{
    if hi - lo != w.len() {
        return false;
    }
    let mut i: usize = 0;
    while i < w.len()
        invariant
            lo <= hi <= v.len(),
            hi - lo == w.len(),
            i <= w.len(),
            forall|j: int| 0 <= j < i ==> v@[lo + j] == w@[j],
        decreases w.len() - i,
    {
        if v[lo + i] != w[i] {
            assert(v@.subrange(lo as int, hi as int)[i as int] != w@[i as int]);
            return false;
        }
        i = i + 1;
    }
    assert(v@.subrange(lo as int, hi as int) =~= w@);
    true
}

// ---------------------------------------------------------------------------
// Strings and characters
// ---------------------------------------------------------------------------

/// The characters of `s`, in order.
pub fn chars_of(s: &str) -> (r: Vec<char>)
    ensures
        r@ == s@,
{
    let mut v: Vec<char> = Vec::new();
    for c in it: s.chars()
        invariant
            v@ == it.seq().take(it.index() as int),
            it.seq() == s@,
    {
        v.push(c);
    }
    v
}

/// `String::push`: appends one character.
#[verifier::external_body]
pub(crate) fn push_char(s: &mut String, c: char)
    ensures
        final(s)@ == old(s)@.push(c),
{
    s.push(c);
}

/// Appends the characters `v[lo..hi]` to `s`.
pub fn push_chars(s: &mut String, v: &Vec<char>, lo: usize, hi: usize)
    requires
        lo <= hi <= v.len(),
    ensures
        final(s)@ == old(s)@ + v@.subrange(lo as int, hi as int),
{
    let mut i: usize = lo;
    while i < hi
        invariant
            lo <= i <= hi <= v.len(),
            s@ == old(s)@ + v@.subrange(lo as int, i as int),
        decreases hi - i,
    {
        push_char(s, v[i]);
        assert(v@.subrange(lo as int, i + 1) =~= v@.subrange(lo as int, i as int).push(v@[i as int]));
        i = i + 1;
    }
}

/// Appends `t` to `s`.
pub fn push_str(s: &mut String, t: &str)
    ensures
        final(s)@ == old(s)@ + t@,
{
    s.append(t);
}

// ---------------------------------------------------------------------------
// UTF-16
// ---------------------------------------------------------------------------

/// The UTF-16 code units of one character: one unit below U+10000, a
/// surrogate pair above.
pub open spec fn utf16_units(c: char) -> Seq<u16> {
    let v = c as int;
    if v < 0x10000 {
        seq![v as u16]
    } else {
        seq![(0xD800 + (v - 0x10000) / 0x400) as u16, (0xDC00 + (v - 0x10000) % 0x400) as u16]
    }
}

/// The UTF-16 encoding of a text, as `str::encode_utf16` yields it.
pub open spec fn encode_utf16(s: Seq<char>) -> Seq<u16>
    decreases s.len(),
{
    if s.len() == 0 {
        seq![]
    } else {
        encode_utf16(s.drop_last()) + utf16_units(s.last())
    }
}

pub proof fn lemma_encode_utf16_push(s: Seq<char>, c: char)
    ensures
        encode_utf16(s.push(c)) == encode_utf16(s) + utf16_units(c),
{
    assert(s.push(c).drop_last() =~= s);
}

pub proof fn lemma_encode_utf16_append(s: Seq<char>, t: Seq<char>)
    ensures
        encode_utf16(s + t) == encode_utf16(s) + encode_utf16(t),
    decreases t.len(),
{
    if t.len() == 0 {
        assert(s + t =~= s);
        assert(encode_utf16(s) + encode_utf16(t) =~= encode_utf16(s));
    } else {
        assert((s + t).drop_last() =~= s + t.drop_last());
        assert((s + t).last() == t.last());
        lemma_encode_utf16_append(s, t.drop_last());
        assert(encode_utf16(s) + encode_utf16(t.drop_last()) + utf16_units(t.last())
            =~= encode_utf16(s) + (encode_utf16(t.drop_last()) + utf16_units(t.last())));
    }
}

/// The character of the Unicode scalar value `v`.
pub open spec fn char_of(v: int) -> char {
    (v as u32) as char
}

pub open spec fn is_surrogate(u: u16) -> bool {
    0xD800 <= u <= 0xDFFF
}

pub open spec fn is_high_surrogate(u: u16) -> bool {
    0xD800 <= u <= 0xDBFF
}

pub open spec fn is_low_surrogate(u: u16) -> bool {
    0xDC00 <= u <= 0xDFFF
}

/// What `String::from_utf16` gives: a unit outside the surrogate range is
/// one character; a high surrogate followed by a low one is the character
/// they encode together; any other surrogate makes the text invalid
/// (`None`).
pub open spec fn decode_utf16(units: Seq<u16>) -> Option<Seq<char>>
    decreases units.len(),
{
    if units.len() == 0 {
        Some(seq![])
    } else if units.len() >= 2 && is_high_surrogate(units[0]) && is_low_surrogate(units[1]) {
        match decode_utf16(units.subrange(2, units.len() as int)) {
            Some(rest) => Some(
                seq![char_of(0x10000 + (units[0] - 0xD800) * 0x400 + (units[1] - 0xDC00))] + rest,
            ),
            None => None,
        }
    } else if is_surrogate(units[0]) {
        None
    } else {
        match decode_utf16(units.drop_first()) {
            Some(rest) => Some(seq![char_of(units[0] as int)] + rest),
            None => None,
        }
    }
}

proof fn lemma_decode_units(c: char, rest: Seq<u16>)
    ensures
        decode_utf16(utf16_units(c) + rest) == match decode_utf16(rest) {
            Some(t) => Some(seq![c] + t),
            None => None,
        },
{
    let v = c as int;
    let units = utf16_units(c) + rest;
    if v < 0x10000 {
        assert(units[0] == v as u16);
        assert(units.drop_first() =~= rest);
        assert(char_of(v) == c);
    } else {
        let u1 = (0xD800 + (v - 0x10000) / 0x400) as u16;
        let u2 = (0xDC00 + (v - 0x10000) % 0x400) as u16;
        assert(0 <= (v - 0x10000) / 0x400 <= 0x3FF) by (nonlinear_arith)
            requires
                0x10000 <= v <= 0x10FFFF,
        ;
        assert(0 <= (v - 0x10000) % 0x400 < 0x400) by (nonlinear_arith)
            requires
                0x10000 <= v,
        ;
        assert(units[0] == u1);
        assert(units[1] == u2);
        assert(units.subrange(2, units.len() as int) =~= rest);
        assert(((v - 0x10000) / 0x400) * 0x400 + (v - 0x10000) % 0x400 == v - 0x10000)
            by (nonlinear_arith);
        assert(0x10000 + (u1 - 0xD800) * 0x400 + (u2 - 0xDC00) == v);
        assert(char_of(v) == c);
    }
}

/// UTF-16 encoding loses nothing: decoding the encoding of a text gives the
/// text back.
pub proof fn lemma_decode_encode_utf16(s: Seq<char>)
    ensures
        decode_utf16(encode_utf16(s)) == Some(s),
    decreases s.len(),
{
    if s.len() == 0 {
        assert(encode_utf16(s) =~= Seq::<u16>::empty());
    } else {
        let head = seq![s[0]];
        let tail = s.drop_first();
        assert(s =~= head + tail);
        lemma_encode_utf16_append(head, tail);
        assert(head.drop_last() =~= Seq::<char>::empty());
        assert(encode_utf16(Seq::<char>::empty()) =~= Seq::<u16>::empty());
        assert(encode_utf16(head) =~= utf16_units(s[0]));
        lemma_decode_encode_utf16(tail);
        lemma_decode_units(s[0], encode_utf16(tail));
        assert(seq![s[0]] + tail =~= s);
    }
}

/// Appends the UTF-16 code units of `c` to `out`.
pub fn push_utf16(out: &mut Vec<u16>, c: char)
    ensures
        final(out)@ == old(out)@ + utf16_units(c),
{
    let v: u32 = c as u32;
    if v < 0x10000 {
        out.push(v as u16);
        assert(out@ =~= old(out)@ + utf16_units(c));
    } else {
        let u: u32 = v - 0x10000;
        out.push((0xD800 + u / 0x400) as u16);
        out.push((0xDC00 + u % 0x400) as u16);
        assert(out@ =~= old(out)@ + utf16_units(c));
    }
}

/// Appends the UTF-16 encoding of `s` to `out`.
pub fn push_utf16_str(out: &mut Vec<u16>, s: &str)
    ensures
        final(out)@ == old(out)@ + encode_utf16(s@),
{
    let ghost start = out@;
    for c in it: s.chars()
        invariant
            it.seq() == s@,
            out@ == start + encode_utf16(it.seq().take(it.index() as int)),
    {
        proof {
            let k = it.index() as int;
            assert(it.seq().take(k + 1) =~= it.seq().take(k).push(c));
            lemma_encode_utf16_push(it.seq().take(k), c);
        }
        push_utf16(out, c);
        proof {
            let k = it.index() as int;
            assert(out@ =~= start + encode_utf16(it.seq().take(k + 1)));
        }
    }
    assert(s@.take(s@.len() as int) =~= s@);
}

// ---------------------------------------------------------------------------
// Decimal text of an i32
// ---------------------------------------------------------------------------

/// The character of the decimal digit `d`.
pub open spec fn digit_char(d: int) -> char {
    ((d + 48) as u32) as char
}

pub open spec fn is_digit(c: char) -> bool {
    '0' <= c <= '9'
}

/// The decimal digits of `n`, without leading zeros.
pub open spec fn decimal(n: nat) -> Seq<char>
    decreases n,
{
    if n < 10 {
        seq![digit_char(n as int)]
    } else {
        decimal(n / 10).push(digit_char((n % 10) as int))
    }
}

/// The text of `v` as `i32`'s `Display` writes it: a `-` for a negative
/// number, then its decimal digits.
pub open spec fn format_i32(v: i32) -> Seq<char> {
    if v < 0 {
        seq!['-'] + decimal((-v) as nat)
    } else {
        decimal(v as nat)
    }
}

/// The value of a text of decimal digits.
pub open spec fn digits_value(s: Seq<char>) -> int
    decreases s.len(),
{
    if s.len() == 0 {
        0
    } else {
        digits_value(s.drop_last()) * 10 + (s.last() as int - 48)
    }
}

pub open spec fn all_digits(s: Seq<char>) -> bool {
    forall|i: int| 0 <= i < s.len() ==> is_digit(s[i])
}

/// The text after an optional leading sign.
pub open spec fn unsigned_part(s: Seq<char>) -> Seq<char> {
    if s.len() > 0 && (s[0] == '-' || s[0] == '+') {
        s.drop_first()
    } else {
        s
    }
}

/// What `str::parse::<i32>` gives: an optional `+` or `-`, then one or more
/// decimal digits and nothing else, whose value lies in the `i32` range.
pub open spec fn parse_i32(s: Seq<char>) -> Option<i32> {
    let body = unsigned_part(s);
    let m = if s.len() > 0 && s[0] == '-' {
        -digits_value(body)
    } else {
        digits_value(body)
    };
    if body.len() == 0 || !all_digits(body) || m < i32::MIN || m > i32::MAX {
        None
    } else {
        Some(m as i32)
    }
}

pub proof fn lemma_decimal(n: nat)
    ensures
        decimal(n).len() > 0,
        all_digits(decimal(n)),
        digits_value(decimal(n)) == n,
    decreases n,
{
    if n < 10 {
        let c = digit_char(n as int);
        assert(seq![c].drop_last() =~= Seq::<char>::empty());
        assert(c as int == n + 48);
        assert(decimal(n) == seq![c]);
        assert(digits_value(seq![c]) == digits_value(seq![c].drop_last()) * 10 + (c as int - 48));
    } else {
        lemma_decimal(n / 10);
        let d = decimal(n / 10);
        let c = digit_char((n % 10) as int);
        assert(d.push(c).drop_last() =~= d);
        assert(c as int == (n % 10) + 48);
        assert(digits_value(d.push(c)) == digits_value(d) * 10 + (n % 10));
        assert((n / 10) * 10 + n % 10 == n) by (nonlinear_arith);
        assert forall|i: int| 0 <= i < d.push(c).len() implies is_digit(d.push(c)[i]) by {
            if i < d.len() {
                assert(d.push(c)[i] == d[i]);
            }
        }
    }
}

/// The decimal text of a number reads back as that number.
pub proof fn lemma_parse_format_i32(v: i32)
    ensures
        parse_i32(format_i32(v)) == Some(v),
{
    if v < 0 {
        let m = (-v) as nat;
        lemma_decimal(m);
        let s = format_i32(v);
        assert(s[0] == '-');
        assert(s.drop_first() =~= decimal(m));
    } else {
        lemma_decimal(v as nat);
        assert(is_digit(decimal(v as nat)[0]));
    }
}

/// A decimal text holds no white space, no `:` and no line break, and is
/// not empty.
pub proof fn lemma_format_i32_plain(v: i32)
    ensures
        format_i32(v).len() > 0,
        is_trimmed(format_i32(v)),
        forall|i: int|
            0 <= i < format_i32(v).len() ==> format_i32(v)[i] != ':' && format_i32(v)[i] != '\n',
{
    if v < 0 {
        lemma_decimal((-v) as nat);
        let d = decimal((-v) as nat);
        assert forall|i: int| 0 <= i < format_i32(v).len() implies format_i32(v)[i] != ':'
            && format_i32(v)[i] != '\n' by {
            if i > 0 {
                assert(format_i32(v)[i] == d[i - 1]);
            }
        }
        assert(format_i32(v).last() == d.last());
    } else {
        lemma_decimal(v as nat);
    }
}

proof fn lemma_digits_value_prefix(s: Seq<char>, k: int)
    requires
        all_digits(s),
        0 <= k <= s.len(),
    ensures
        0 <= digits_value(s.take(k)) <= digits_value(s),
    decreases s.len() - k,
{
    if k < s.len() {
        lemma_digits_value_prefix(s, k + 1);
        assert(s.take(k + 1).drop_last() =~= s.take(k));
        assert(is_digit(s[k]));
        lemma_digits_value_nonneg(s.take(k));
    } else {
        assert(s.take(k) =~= s);
        lemma_digits_value_nonneg(s);
    }
}

proof fn lemma_digits_value_nonneg(s: Seq<char>)
    requires
        all_digits(s),
    ensures
        digits_value(s) >= 0,
    decreases s.len(),
{
    if s.len() > 0 {
        assert(all_digits(s.drop_last()));
        lemma_digits_value_nonneg(s.drop_last());
        assert(is_digit(s.last()));
    }
}

/// The character of the decimal digit `d`.
pub fn digit_to_char(d: u32) -> (c: char)
    requires
        d < 10,
    ensures
        c == digit_char(d as int),
{
    (48u8 + d as u8) as char
}

/// Appends the decimal text of `v` to `s`, as `i32`'s `Display` writes it.
pub fn push_i32(s: &mut String, v: i32)
    ensures
        final(s)@ == old(s)@ + format_i32(v),
{
    if v < 0 {
        push_char(s, '-');
    }
    let n: u32 = if v < 0 {
        (-(v as i64)) as u32
    } else {
        v as u32
    };
    assert(n as nat == if v < 0 { (-v) as nat } else { v as nat });
    let mut m: u32 = n;
    let mut tail: Vec<char> = Vec::new();
    while m >= 10
        invariant
            decimal(n as nat) == decimal(m as nat) + tail@,
        decreases m,
    {
        let d: u32 = m % 10;
        let c: char = digit_to_char(d);
        let ghost prev = tail@;
        tail.insert(0, c);
        proof {
            assert(decimal(m as nat) == decimal((m / 10) as nat).push(c));
            assert(decimal((m / 10) as nat).push(c) + prev =~= decimal((m / 10) as nat)
                + tail@) by {
                assert(tail@ =~= seq![c] + prev);
            }
        }
        m = m / 10;
    }
    let first: char = digit_to_char(m);
    let ghost before = s@;
    push_char(s, first);
    let mut i: usize = 0;
    while i < tail.len()
        invariant
            i <= tail.len(),
            s@ == before + seq![first] + tail@.take(i as int),
        decreases tail.len() - i,
    {
        push_char(s, tail[i]);
        assert(tail@.take(i + 1) =~= tail@.take(i as int).push(tail@[i as int]));
        i = i + 1;
    }
    assert(tail@.take(tail.len() as int) =~= tail@);
    assert(decimal(m as nat) =~= seq![first]);
    assert(s@ =~= old(s)@ + format_i32(v));
}

/// Reads `v[lo..hi]` as `str::parse::<i32>` does.
pub fn parse_i32_range(v: &Vec<char>, lo: usize, hi: usize) -> (r: Option<i32>)
    requires
        lo <= hi <= v.len(),
    ensures
        r == parse_i32(v@.subrange(lo as int, hi as int)),
{
    let ghost s = v@.subrange(lo as int, hi as int);
    let mut start: usize = lo;
    let mut neg: bool = false;
    if lo < hi && (v[lo] == '-' || v[lo] == '+') {
        neg = v[lo] == '-';
        start = lo + 1;
        assert(s.drop_first() =~= v@.subrange(start as int, hi as int));
    } else {
        assert(s =~= v@.subrange(start as int, hi as int));
    }
    let ghost body = v@.subrange(start as int, hi as int);
    assert(body == unsigned_part(s));
    assert(neg == (s.len() > 0 && s[0] == '-'));
    if start == hi {
        return None;
    }
    let mut acc: i64 = 0;
    let mut i: usize = start;
    while i < hi
        invariant
            lo <= start <= i <= hi <= v.len(),
            body == v@.subrange(start as int, hi as int),
            body == unsigned_part(s),
            s == v@.subrange(lo as int, hi as int),
            neg == (s.len() > 0 && s[0] == '-'),
            body.len() > 0,
            0 <= acc <= 0x8000_0000,
            acc == digits_value(v@.subrange(start as int, i as int)),
            all_digits(v@.subrange(start as int, i as int)),
        decreases hi - i,
    {
        let c: char = v[i];
        if !('0' <= c && c <= '9') {
            assert(body[i - start] == c);
            assert(!is_digit(body[i - start]));
            return None;
        }
        proof {
            let p = v@.subrange(start as int, i as int);
            let q = v@.subrange(start as int, i + 1);
            assert(q.drop_last() =~= p);
            assert(q.last() == c);
            assert forall|j: int| 0 <= j < q.len() implies is_digit(q[j]) by {
                if j < p.len() {
                    assert(q[j] == p[j]);
                }
            }
        }
        acc = acc * 10 + ((c as u32) - 48) as i64;
        i = i + 1;
        if acc > 0x8000_0000 {
            proof {
                if all_digits(body) {
                    let k = i - start;
                    assert(body.take(k) =~= v@.subrange(start as int, i as int));
                    lemma_digits_value_prefix(body, k);
                    assert(digits_value(body) > 0x8000_0000);
                }
            }
            return None;
        }
    }
    assert(body =~= v@.subrange(start as int, i as int));
    if neg {
        Some((-acc) as i32)
    } else if acc > 0x7fff_ffff {
        None
    } else {
        Some(acc as i32)
    }
}

} // verus!
