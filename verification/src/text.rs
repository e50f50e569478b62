//! Small string utilities shared by the rest of the library, each with an
//! exact specification: decimal parsing and printing, character search and
//! prefix handling.

use vstd::prelude::*;
use vstd::string::*;

verus! {

/// UTF-8 bytes of a character sequence (the byte view that `str::len` and
/// byte offsets refer to).
pub open spec fn utf8(s: Seq<char>) -> Seq<u8> {
    vstd::utf8::encode_utf8(s)
}

/// An ASCII decimal digit byte.
pub open spec fn is_digit_byte(b: u8) -> bool {
    48 <= b <= 57
}

/// Every byte is an ASCII decimal digit.
pub open spec fn all_digit_bytes(d: Seq<u8>) -> bool {
    forall|i: int| 0 <= i < d.len() ==> is_digit_byte(#[trigger] d[i])
}

/// The value of a sequence of decimal digit bytes, most significant first.
pub open spec fn digits_value(d: Seq<u8>) -> nat
    decreases d.len(),
{
    if d.len() == 0 {
        0
    } else {
        digits_value(d.drop_last()) * 10 + (d.last() - 48) as nat
    }
}

/// The digits of an unsigned integer literal: one leading `+` is allowed.
pub open spec fn unsigned_digits(b: Seq<u8>) -> Seq<u8> {
    if b.len() > 0 && b[0] == 43u8 {
        b.drop_first()
    } else {
        b
    }
}

/// The value that parsing `b` as an unsigned integer with the given maximum
/// yields, the way `str::parse` does for Rust's unsigned types: an optional
/// `+`, then at least one decimal digit and nothing else, within range.
pub open spec fn parse_unsigned(b: Seq<u8>, max: nat) -> Option<nat> {
    let d = unsigned_digits(b);
    if d.len() > 0 && all_digit_bytes(d) && digits_value(d) <= max {
        Some(digits_value(d))
    } else {
        None
    }
}

proof fn lemma_digits_value_take_step(d: Seq<u8>, i: int)
    requires
        0 <= i < d.len(),
    ensures
        digits_value(d.take(i + 1)) == digits_value(d.take(i)) * 10 + (d[i] - 48) as nat,
{
    assert(d.take(i + 1).drop_last() =~= d.take(i));
}

proof fn lemma_digits_value_monotone(d: Seq<u8>, i: int)
    requires
        0 <= i <= d.len(),
        all_digit_bytes(d),
    ensures
        digits_value(d.take(i)) <= digits_value(d),
    decreases d.len() - i,
{
    if i == d.len() {
        assert(d.take(i) =~= d);
    } else {
        lemma_digits_value_take_step(d, i);
        lemma_digits_value_monotone(d, i + 1);
    }
}

/// Parses `s` as an unsigned decimal number no larger than `max`, with the
/// rules of `str::parse` for unsigned integers.
pub fn parse_unsigned_str(s: &str, max: u64) -> (r: Option<u64>)
    ensures
        match parse_unsigned(utf8(s@), max as nat) {
            Some(v) => r == Some(v as u64),
            None => r is None,
        },
{
    parse_unsigned_bytes(s.as_bytes(), max)
}

/// Parses the bytes `b` as an unsigned decimal number no larger than `max`.
pub fn parse_unsigned_bytes(b: &[u8], max: u64) -> (r: Option<u64>)
    ensures
        match parse_unsigned(b@, max as nat) {
            Some(v) => r == Some(v as u64),
            None => r is None,
        },
{
    let ghost bytes = b@;
    let n = b.len();
    let mut start: usize = 0;
    if n > 0 && b[0] == 43u8 {
        start = 1;
    }
    let ghost d = unsigned_digits(bytes);
    assert(d =~= bytes.subrange(start as int, n as int));
    if start >= n {
        return None;
    }
    let mut acc: u64 = 0;
    let mut i: usize = start;
    while i < n
        invariant
            start <= i <= n,
            n == b@.len(),
            b@ == bytes,
            d =~= bytes.subrange(start as int, n as int),
            d == unsigned_digits(bytes),
            acc as nat == digits_value(d.take(i - start)),
            acc <= max,
            all_digit_bytes(d.take(i - start)),
        decreases n - i,
    {
        let c = b[i];
        if c < 48u8 || c > 57u8 {
            assert(d[i - start] == c);
            assert(!is_digit_byte(d[i - start]));
            assert(!all_digit_bytes(d));
            return None;
        }
        proof {
            lemma_digits_value_take_step(d, i - start);
        }
        let next: u128 = acc as u128 * 10 + (c - 48u8) as u128;
        if next > max as u128 {
            proof {
                assert(next == digits_value(d.take(i - start + 1)));
                if all_digit_bytes(d) {
                    lemma_digits_value_monotone(d, i - start + 1);
                    assert(digits_value(d) > max);
                }
            }
            return None;
        }
        acc = next as u64;
        i = i + 1;
        assert(all_digit_bytes(d.take(i - start))) by {
            assert forall|k: int| 0 <= k < i - start implies is_digit_byte(#[trigger] d.take(i - start)[k]) by {
                if k < i - start - 1 {
                    assert(d.take(i - start)[k] == d.take(i - start - 1)[k]);
                }
            }
        }
    }
    assert(d.take(n - start) =~= d);
    Some(acc)
}


/// Appends one character to a string.
/// Trusted: `String::push`, which appends the given `char` to the end of the
/// string; the contract claims exactly that of the character view.
#[verifier::external_body]
pub(crate) fn push_char(s: &mut String, c: char)
    ensures
        final(s)@ == old(s)@.push(c),
{
    s.push(c)
}

/// The byte length of the character that starts at byte `k` of `b`.
pub open spec fn char_width_at(b: Seq<u8>, k: int) -> int {
    vstd::utf8::length_of_first_scalar(b.skip(k))
}

/// Inserts `c` into `s` at byte offset `idx`.
/// Trusted: `String::insert`, which inserts the character at a byte
/// position and panics unless that position lies on a character boundary
/// (which `requires` rules out); the contract states the resulting bytes.
#[verifier::external_body]
pub(crate) fn string_insert(s: &mut String, idx: usize, c: char)
    requires
        vstd::utf8::is_char_boundary(utf8(old(s)@), idx as int),
    ensures
        utf8(final(s)@) == utf8(old(s)@).take(idx as int) + utf8(seq![c]) + utf8(old(s)@).skip(idx as int),
{
    s.insert(idx, c)
}

/// Removes from `s` the character that starts at byte offset `idx`.
/// Trusted: `String::remove`, which removes and returns the character at a
/// byte position and panics unless that position is before the end and on
/// a character boundary (which `requires` rules out); the contract states
/// the resulting bytes and the character returned.
#[verifier::external_body]
pub(crate) fn string_remove(s: &mut String, idx: usize) -> (c: char)
    requires
        vstd::utf8::is_char_boundary(utf8(old(s)@), idx as int),
        idx < utf8(old(s)@).len(),
    ensures
        utf8(final(s)@) == utf8(old(s)@).take(idx as int) + utf8(old(s)@).skip(
            idx + char_width_at(utf8(old(s)@), idx as int),
        ),
        c == vstd::utf8::decode_first_scalar(utf8(old(s)@).skip(idx as int)) as char,
{
    s.remove(idx)
}

/// The length of `s` in bytes (`str::len`).
pub fn byte_len(s: &str) -> (r: usize)
    ensures
        r == utf8(s@).len(),
{
    s.as_bytes().len()
}

/// `a` followed by `b`, as a new string.
pub fn concat_str(a: &str, b: &str) -> (r: String)
    ensures
        r@ == a@ + b@,
{
    let mut r = a.to_owned();
    r.append(b);
    r
}

/// The characters of `s`, one by one.
pub fn chars_of(s: &str) -> (v: Vec<char>)
    ensures
        v@ == s@,
{
    let n = s.unicode_len();
    let mut v: Vec<char> = Vec::new();
    let mut i: usize = 0;
    while i < n
        invariant
            i <= n,
            n == s@.len(),
            v@ == s@.take(i as int),
        decreases n - i,
    {
        let c = s.get_char(i);
        v.push(c);
        i = i + 1;
        assert(v@ =~= s@.take(i as int));
    }
    assert(v@ =~= s@);
    v
}

/// Character-wise equality of two strings.
pub fn str_eq(a: &str, b: &str) -> (r: bool)
    ensures
        r == (a@ == b@),
{
    let va = chars_of(a);
    let vb = chars_of(b);
    if va.len() != vb.len() {
        return false;
    }
    let mut i: usize = 0;
    while i < va.len()
        invariant
            i <= va.len(),
            va.len() == vb.len(),
            va@ == a@,
            vb@ == b@,
            forall|k: int| 0 <= k < i ==> va@[k] == vb@[k],
        decreases va.len() - i,
    {
        if va[i] != vb[i] {
            return false;
        }
        i = i + 1;
    }
    assert(a@ =~= b@);
    true
}

/// `needle` occurs in `hay` starting at position `i`.
pub open spec fn occurs_at(hay: Seq<char>, needle: Seq<char>, i: int) -> bool {
    0 <= i && i + needle.len() <= hay.len() && hay.subrange(i, i + needle.len()) == needle
}

/// `needle` occurs somewhere in `hay` (the empty needle occurs everywhere).
pub open spec fn seq_contains(hay: Seq<char>, needle: Seq<char>) -> bool {
    exists|i: int| occurs_at(hay, needle, i)
}

fn occurs_at_exec(hay: &Vec<char>, needle: &Vec<char>, i: usize) -> (r: bool)
    requires
        i + needle@.len() <= hay@.len(),
    ensures
        r == occurs_at(hay@, needle@, i as int),
{
    let hl = hay.len();
    let mut k: usize = 0;
    while k < needle.len()
        invariant
            k <= needle@.len(),
            hl == hay@.len(),
            i + needle@.len() <= hay@.len(),
            forall|j: int| 0 <= j < k ==> hay@[i + j] == needle@[j],
        decreases needle.len() - k,
    {
        if hay[i + k] != needle[k] {
            assert(hay@.subrange(i as int, i + needle@.len())[k as int] != needle@[k as int]);
            return false;
        }
        k = k + 1;
    }
    assert(hay@.subrange(i as int, i + needle@.len()) =~= needle@);
    true
}

/// Whether `needle` occurs in `hay`, as `str::contains` with a string pattern.
pub fn contains_str(hay: &str, needle: &str) -> (r: bool)
    ensures
        r == seq_contains(hay@, needle@),
{
    let h = chars_of(hay);
    let n = chars_of(needle);
    if n.len() > h.len() {
        assert(!seq_contains(hay@, needle@));
        return false;
    }
    let last = h.len() - n.len();
    let mut i: usize = 0;
    while i < last
        invariant
            i <= last,
            last + n@.len() == h@.len(),
            h@ == hay@,
            n@ == needle@,
            forall|j: int| 0 <= j < i ==> !occurs_at(hay@, needle@, j),
        decreases last - i,
    {
        if occurs_at_exec(&h, &n, i) {
            return true;
        }
        i = i + 1;
    }
    if occurs_at_exec(&h, &n, last) {
        return true;
    }
    assert forall|j: int| !occurs_at(hay@, needle@, j) by {
        if 0 <= j && j + needle@.len() <= hay@.len() {
            assert(j <= last);
        }
    }
    false
}

/// `s` with one leading `c` removed, when it starts with `c`
/// (`str::strip_prefix` with a `char` pattern).
pub fn strip_prefix_char(s: &str, c: char) -> (r: Option<String>)
    ensures
        match r {
            Some(t) => s@.len() > 0 && s@[0] == c && t@ == s@.drop_first(),
            None => !(s@.len() > 0 && s@[0] == c),
        },
{
    let v = chars_of(s);
    if v.len() > 0 && v[0] == c {
        let n = v.len();
        let mut rest = String::new();
        let mut i: usize = 1;
        while i < n
            invariant
                1 <= i <= n,
                n == v@.len(),
                v@ == s@,
                rest@ == s@.subrange(1, i as int),
            decreases n - i,
        {
            push_char(&mut rest, v[i]);
            i = i + 1;
            assert(rest@ =~= s@.subrange(1, i as int));
        }
        assert(rest@ =~= s@.drop_first());
        Some(rest)
    } else {
        None
    }
}

/// Unicode white space (`char::is_whitespace`): the characters with the
/// White_Space property.
pub open spec fn is_whitespace(c: char) -> bool {
    ||| c == ' '
    ||| ('\t' <= c && c <= '\r')
    ||| c == '\u{85}'
    ||| c == '\u{a0}'
    ||| c == '\u{1680}'
    ||| ('\u{2000}' <= c && c <= '\u{200a}')
    ||| c == '\u{2028}'
    ||| c == '\u{2029}'
    ||| c == '\u{202f}'
    ||| c == '\u{205f}'
    ||| c == '\u{3000}'
}

fn is_whitespace_exec(c: char) -> (r: bool)
    ensures
        r == is_whitespace(c),
{
    c == ' ' || ('\t' <= c && c <= '\r') || c == '\u{85}' || c == '\u{a0}' || c == '\u{1680}' || (
    '\u{2000}' <= c && c <= '\u{200a}') || c == '\u{2028}' || c == '\u{2029}' || c == '\u{202f}'
        || c == '\u{205f}' || c == '\u{3000}'
}

/// `s` without its leading white space.
pub open spec fn trim_start(s: Seq<char>) -> Seq<char>
    decreases s.len(),
{
    if s.len() > 0 && is_whitespace(s[0]) {
        trim_start(s.drop_first())
    } else {
        s
    }
}

/// `s` without its trailing white space.
pub open spec fn trim_end(s: Seq<char>) -> Seq<char>
    decreases s.len(),
{
    if s.len() > 0 && is_whitespace(s.last()) {
        trim_end(s.drop_last())
    } else {
        s
    }
}

/// `s` without leading and trailing white space (`str::trim`).
pub open spec fn trim(s: Seq<char>) -> Seq<char> {
    trim_end(trim_start(s))
}

/// `s` without leading and trailing white space (`str::trim`).
pub fn trim_str(s: &str) -> (r: String)
    ensures
        r@ == trim(s@),
{
    let v = chars_of(s);
    let n = v.len();
    let mut start: usize = 0;
    assert(s@.skip(0) =~= s@);
    while start < n && is_whitespace_exec(v[start])
        invariant
            start <= n,
            n == v@.len(),
            v@ == s@,
            trim_start(s@) == trim_start(s@.skip(start as int)),
        decreases n - start,
    {
        assert(s@.skip(start as int).drop_first() =~= s@.skip(start + 1));
        start = start + 1;
    }
    assert(trim_start(s@) =~= s@.skip(start as int));
    assert(s@.skip(start as int) =~= s@.subrange(start as int, n as int));
    let mut end: usize = n;
    while end > start && is_whitespace_exec(v[end - 1])
        invariant
            start <= end <= n,
            n == v@.len(),
            v@ == s@,
            trim(s@) == trim_end(s@.subrange(start as int, end as int)),
        decreases end - start,
    {
        assert(s@.subrange(start as int, end as int).drop_last() =~= s@.subrange(start as int, end - 1));
        end = end - 1;
    }
    assert(trim(s@) == s@.subrange(start as int, end as int));
    let mut r = String::new();
    let mut i: usize = start;
    while i < end
        invariant
            start <= i <= end <= n,
            n == v@.len(),
            v@ == s@,
            r@ == s@.subrange(start as int, i as int),
        decreases end - i,
    {
        push_char(&mut r, v[i]);
        i = i + 1;
        assert(r@ =~= s@.subrange(start as int, i as int));
    }
    r
}

/// The decimal digit character for `d < 10`.
pub open spec fn digit_char(d: nat) -> char {
    (48 + d) as char
}

/// Decimal representation of `n` without sign or leading zeros
/// (what `{}` formatting prints for an unsigned integer).
pub open spec fn decimal_chars(n: nat) -> Seq<char>
    decreases n,
{
    if n < 10 {
        seq![digit_char(n)]
    } else {
        decimal_chars(n / 10).push(digit_char(n % 10))
    }
}

fn digit_to_char(d: u64) -> (c: char)
    requires
        d < 10,
    ensures
        c == digit_char(d as nat),
{
    if d == 0 { '0' }
    else if d == 1 { '1' }
    else if d == 2 { '2' }
    else if d == 3 { '3' }
    else if d == 4 { '4' }
    else if d == 5 { '5' }
    else if d == 6 { '6' }
    else if d == 7 { '7' }
    else if d == 8 { '8' }
    else { '9' }
}

/// Appends the decimal representation of `n` to `s`.
pub fn push_decimal(s: &mut String, n: u64)
    ensures
        final(s)@ == old(s)@ + decimal_chars(n as nat),
    decreases n,
{
    if n >= 10 {
        push_decimal(s, n / 10);
    }
    push_char(s, digit_to_char(n % 10));
}


/// In a valid UTF-8 sequence, an index is a character boundary exactly when
/// it is the end or the byte there is not a continuation byte.
pub proof fn lemma_boundary_iff(x: Seq<u8>, k: int)
    requires
        vstd::utf8::valid_utf8(x),
        0 <= k <= x.len(),
    ensures
        vstd::utf8::is_char_boundary(x, k) <==> (k == x.len() || !vstd::utf8::is_continuation_byte(x[k])),
{
    if k == x.len() {
        vstd::utf8::is_char_boundary_start_end_of_seq(x);
    } else {
        vstd::utf8::is_char_boundary_iff_not_is_continuation_byte(x, k);
    }
}

/// The index just after an ASCII byte that starts a character is again a
/// character boundary.
pub proof fn lemma_boundary_after_ascii(x: Seq<u8>, k: int)
    requires
        vstd::utf8::valid_utf8(x),
        0 <= k < x.len(),
        x[k] < 128,
        vstd::utf8::is_char_boundary(x, k),
    ensures
        vstd::utf8::is_char_boundary(x, k + 1),
{
    lemma_boundary_iff(x, k + 1);
    if k + 1 < x.len() {
        lemma_ascii_not_followed_by_continuation(x, k);
    }
}

proof fn lemma_ascii_not_followed_by_continuation(x: Seq<u8>, k: int)
    requires
        vstd::utf8::valid_utf8(x),
        0 <= k,
        k + 1 < x.len(),
        x[k] < 128,
    ensures
        !vstd::utf8::is_continuation_byte(x[k + 1]),
    decreases x.len(),
{
    let l = vstd::utf8::length_of_first_scalar(x);
    let rest = vstd::utf8::pop_first_scalar(x);
    assert(1 <= l <= 4);
    assert(vstd::utf8::valid_utf8(rest));
    assert(rest.len() == x.len() - l);
    if k + 1 < l {
        // inside the first scalar: a leading byte of width > 1 sits at 0 and
        // continuation bytes follow, so an ASCII byte at k would be impossible
        if k == 0 {
            assert(l == 1);
        } else {
            assert(vstd::utf8::is_continuation_byte(x[k]));
        }
    } else if k + 1 == l {
        if rest.len() > 0 {
            vstd::utf8::is_char_boundary_iff_not_is_continuation_byte(rest, 0);
            assert(rest[0] == x[k + 1]);
        }
    } else {
        assert(rest[k - l] == x[k]);
        assert(rest[k - l + 1] == x[k + 1]);
        lemma_ascii_not_followed_by_continuation(rest, k - l);
    }
}

/// The characters of `s` between the byte offsets `from` and `to`, which
/// must both be character boundaries.
pub fn substring_bytes(s: &str, from: usize, to: usize) -> (r: String)
    requires
        from <= to <= utf8(s@).len(),
        vstd::utf8::is_char_boundary(utf8(s@), from as int),
        vstd::utf8::is_char_boundary(utf8(s@), to as int),
    ensures
        utf8(r@) == utf8(s@).subrange(from as int, to as int),
{
    let ghost b = utf8(s@);
    proof {
        vstd::utf8::encode_utf8_valid_utf8(s@);
    }
    let (_, right) = s.split_at(from);
    let ghost rb = right.spec_bytes();
    assert(rb =~= b.subrange(from as int, b.len() as int));
    proof {
        vstd::utf8::valid_utf8_split(b, from as int);
        lemma_boundary_iff(b, to as int);
        lemma_boundary_iff(rb, to - from);
        if to < b.len() {
            assert(rb[to - from] == b[to as int]);
        }
    }
    let (mid, _) = right.split_at(to - from);
    assert(mid.spec_bytes() =~= b.subrange(from as int, to as int));
    mid.to_owned()
}

} // verus!
