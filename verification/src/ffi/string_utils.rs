//! Conversions between Rust strings and the UTF-16 text of the host.

use vstd::prelude::*;
use vstd::slice::*;
use vstd::string::*;

verus! {

/// The code units that UTF-16 uses for one scalar value: the value itself
/// below the supplementary planes, a surrogate pair above.
pub open spec fn utf16_units(c: char) -> Seq<u16> {
    let n = c as int;
    if n < 0x10000 {
        seq![n as u16]
    } else {
        seq![(0xD800 + (n - 0x10000) / 0x400) as u16, (0xDC00 + (n - 0x10000) % 0x400) as u16]
    }
}

/// The UTF-16 encoding of a sequence of scalar values.
pub open spec fn utf16_encode(s: Seq<char>) -> Seq<u16>
    decreases s.len(),
{
    if s.len() == 0 {
        Seq::empty()
    } else {
        utf16_encode(s.drop_last()) + utf16_units(s.last())
    }
}

/// The number of a scalar value.
fn scalar_value(c: char) -> (code: u32)
    ensures
        code == c as int,
        code <= 0xD7FF || 0xE000 <= code <= 0x10FFFF,
{
    c as u32
}

/// Encodes `s` as UTF-16 without a terminator.
pub fn os_string(s: &str) -> (units: Vec<u16>)
    ensures
        units@ == utf16_encode(s@),
{
    let mut units: Vec<u16> = Vec::new();
    assert(s@.subrange(0, 0) =~= Seq::<char>::empty());
    for c in chars: s.chars()
        invariant
            chars.seq() == s@,
            units@ == utf16_encode(s@.subrange(0, chars.index() as int)),
    {
        let code: u32 = scalar_value(c);
        proof {
            let i = chars.index() as int;
            assert(s@.subrange(0, i + 1).drop_last() == s@.subrange(0, i));
            assert(s@.subrange(0, i + 1).last() == c);
        }
        if code < 0x10000 {
            units.push(code as u16);
        } else {
            let v: u32 = code - 0x10000;
            units.push((0xD800 + v / 0x400) as u16);
            units.push((0xDC00 + v % 0x400) as u16);
        }
    }
    assert(s@.subrange(0, s@.len() as int) == s@);
    units
}

/// Encodes `s` as UTF-16 and closes it with one zero unit, the form in which
/// names and returned strings cross to the host.
pub fn os_string_nil(s: &str) -> (units: Vec<u16>)
    ensures
        units@ == utf16_encode(s@).push(0u16),
{
    let mut units = os_string(s);
    units.push(0u16);
    units
}

/// Whether `u` is the first half of a surrogate pair.
pub open spec fn is_high_surrogate(u: u16) -> bool {
    0xD800 <= u <= 0xDBFF
}

/// Whether `u` is the second half of a surrogate pair.
pub open spec fn is_low_surrogate(u: u16) -> bool {
    0xDC00 <= u <= 0xDFFF
}

/// The scalar value that a surrogate pair stands for.
pub open spec fn pair_value(high: u16, low: u16) -> int {
    0x10000 + (high - 0xD800) * 0x400 + (low - 0xDC00)
}

/// The scalar values of UTF-16 text, read from the front. A surrogate that
/// has no partner becomes U+FFFD, and reading goes on with the next unit.
pub open spec fn utf16_decode_lossy(units: Seq<u16>) -> Seq<char>
    decreases units.len(),
{
    if units.len() == 0 {
        Seq::empty()
    } else if is_high_surrogate(units[0]) && units.len() >= 2 && is_low_surrogate(units[1]) {
        seq![pair_value(units[0], units[1]) as char] + utf16_decode_lossy(
            units.subrange(2, units.len() as int),
        )
    } else if is_high_surrogate(units[0]) || is_low_surrogate(units[0]) {
        seq!['\u{FFFD}'] + utf16_decode_lossy(units.drop_first())
    } else {
        seq![units[0] as char] + utf16_decode_lossy(units.drop_first())
    }
}

/// `s` without the zero characters at its end.
pub open spec fn trim_trailing_nul(s: Seq<char>) -> Seq<char>
    decreases s.len(),
{
    if s.len() > 0 && s.last() == '\0' {
        trim_trailing_nul(s.drop_last())
    } else {
        s
    }
}

/// The encoding of a text is the encoding of its first character, then that
/// of the rest.
pub proof fn lemma_encode_first(s: Seq<char>)
    requires
        s.len() > 0,
    ensures
        utf16_encode(s) == utf16_units(s[0]) + utf16_encode(s.drop_first()),
    decreases s.len(),
{
    if s.len() == 1 {
        assert(s.drop_last() =~= Seq::<char>::empty());
        assert(s.drop_first() =~= Seq::<char>::empty());
        assert(utf16_encode(s.drop_last()) =~= Seq::<u16>::empty());
        assert(utf16_encode(s) =~= utf16_units(s[0]) + Seq::<u16>::empty());
    } else {
        lemma_encode_first(s.drop_last());
        assert(s.drop_last().drop_first() =~= s.drop_first().drop_last());
        assert(s.drop_first().last() == s.last());
        assert(utf16_encode(s) =~= utf16_units(s[0]) + utf16_encode(s.drop_first()));
    }
}

/// What UTF-16 text decodes to when it starts with the encoding of a
/// character: the character, then what the rest decodes to.
pub proof fn lemma_decode_units(c: char, rest: Seq<u16>)
    ensures
        utf16_decode_lossy(utf16_units(c) + rest) == seq![c] + utf16_decode_lossy(rest),
{
    let units = utf16_units(c) + rest;
    let n = c as int;
    if n < 0x10000 {
        assert(units[0] == n as u16);
        assert(units.drop_first() =~= rest);
        assert(units[0] as char == c);
    } else {
        let v = n - 0x10000;
        assert(units[0] == (0xD800 + v / 0x400) as u16);
        assert(units[1] == (0xDC00 + v % 0x400) as u16);
        assert(units.subrange(2, units.len() as int) =~= rest);
        assert(pair_value(units[0], units[1]) == n);
        assert(pair_value(units[0], units[1]) as char == c);
    }
}

/// Text that was encoded as UTF-16 decodes to itself.
pub proof fn lemma_decode_encode(s: Seq<char>)
    ensures
        utf16_decode_lossy(utf16_encode(s)) == s,
    decreases s.len(),
{
    if s.len() == 0 {
        assert(utf16_decode_lossy(utf16_encode(s)) =~= s);
    } else {
        lemma_encode_first(s);
        lemma_decode_units(s[0], utf16_encode(s.drop_first()));
        lemma_decode_encode(s.drop_first());
        assert(seq![s[0]] + s.drop_first() =~= s);
    }
}

/// A text that does not end in the zero character is what the host's form
/// of it decodes to, with or without terminator.
pub proof fn lemma_from_os_string_of_os_string(s: Seq<char>)
    requires
        s.len() == 0 || s.last() != '\0',
    ensures
        trim_trailing_nul(utf16_decode_lossy(utf16_encode(s))) == s,
        trim_trailing_nul(utf16_decode_lossy(utf16_encode(s).push(0u16))) == s,
{
    lemma_decode_encode(s);
    lemma_decode_encode(s.push('\0'));
    assert(s.push('\0').drop_last() =~= s);
    assert(utf16_units('\0') =~= seq![0u16]);
    assert(utf16_encode(s.push('\0')) =~= utf16_encode(s).push(0u16));
    assert(trim_trailing_nul(s.push('\0')) == trim_trailing_nul(s));
}

/// `char::from_u32` of std: the scalar value with the given number, if the
/// number is one (not a surrogate, and at most U+10FFFF).
pub assume_specification[ char::from_u32 ](i: u32) -> (c: Option<char>)
    ensures
        (i <= 0xD7FF || 0xE000 <= i <= 0x10FFFF) ==> c == Some(i as char),
        !(i <= 0xD7FF || 0xE000 <= i <= 0x10FFFF) ==> c is None,
;

/// `String::push` of std: appends one character.
pub assume_specification[ std::string::String::push ](s: &mut std::string::String, ch: char)
    ensures
        final(s)@ == old(s)@.push(ch),
;

/// Decodes UTF-16 text into scalar values, U+FFFD standing for each
/// surrogate without a partner.
fn decode_lossy(units: &[u16]) -> (chars: Vec<char>)
    ensures
        chars@ == utf16_decode_lossy(units@),
{
    let mut chars: Vec<char> = Vec::new();
    let n: usize = units.len();
    let mut i: usize = 0;
    assert(units@.subrange(0, n as int) == units@);
    while i < n
        invariant
            n == units@.len(),
            i <= n,
            utf16_decode_lossy(units@) == chars@ + utf16_decode_lossy(
                units@.subrange(i as int, n as int),
            ),
        decreases n - i,
    {
        let ghost rest = units@.subrange(i as int, n as int);
        let u: u16 = units[i];
        assert(rest[0] == u);
        if 0xD800 <= u && u <= 0xDBFF && i + 1 < n && 0xDC00 <= units[i + 1] && units[i + 1]
            <= 0xDFFF {
            let low: u16 = units[i + 1];
            assert(rest[1] == low);
            let code: u32 = 0x10000 + (u as u32 - 0xD800) * 0x400 + (low as u32 - 0xDC00);
            let c: char = match char::from_u32(code) {
                Some(c) => c,
                None => '\u{FFFD}',
            };
            assert(rest.subrange(2, rest.len() as int) == units@.subrange(i + 2, n as int));
            chars.push(c);
            i += 2;
        } else if 0xD800 <= u && u <= 0xDFFF {
            assert(rest.drop_first() == units@.subrange(i + 1, n as int));
            chars.push('\u{FFFD}');
            i += 1;
        } else {
            let c: char = match char::from_u32(u as u32) {
                Some(c) => c,
                None => '\u{FFFD}',
            };
            assert(rest.drop_first() == units@.subrange(i + 1, n as int));
            chars.push(c);
            i += 1;
        }
    }
    chars
}

/// Decodes UTF-16 text of the host into a Rust string: each surrogate
/// without a partner becomes U+FFFD, and zero characters at the end, such as
/// a terminator, are dropped.
pub fn from_os_string(s: &[u16]) -> (text: String)
    ensures
        text@ == trim_trailing_nul(utf16_decode_lossy(s@)),
{
    let chars = decode_lossy(s);
    let mut end: usize = chars.len();
    assert(chars@.subrange(0, end as int) == chars@);
    while end > 0 && chars[end - 1] == '\0'
        invariant
            end <= chars@.len(),
            trim_trailing_nul(chars@) == trim_trailing_nul(chars@.subrange(0, end as int)),
        decreases end,
    {
        assert(chars@.subrange(0, end as int).drop_last() == chars@.subrange(0, end - 1));
        end -= 1;
    }
    let mut text = String::new();
    let mut i: usize = 0;
    while i < end
        invariant
            i <= end <= chars@.len(),
            text@ == chars@.subrange(0, i as int),
        decreases end - i,
    {
        text.push(chars[i]);
        assert(chars@.subrange(0, i as int).push(chars@[i as int]) == chars@.subrange(0, i + 1));
        i += 1;
    }
    assert(chars@.subrange(0, chars@.len() as int) == chars@);
    text
}

/// The index of the first zero unit of `units`, or its length if it holds
/// none.
pub open spec fn first_nul(units: Seq<u16>) -> int
    decreases units.len(),
{
    if units.len() == 0 || units[0] == 0 {
        0
    } else {
        1 + first_nul(units.drop_first())
    }
}

/// The terminated string at the start of `units`: everything up to and
/// including the first zero unit. Where `units` holds no zero unit, all of
/// it.
pub open spec fn terminated_prefix(units: Seq<u16>) -> Seq<u16> {
    if first_nul(units) < units.len() {
        units.subrange(0, first_nul(units) + 1)
    } else {
        units
    }
}

/// `first_nul` lies within the text, no unit before it is zero, and the unit
/// at it is zero where it lies inside.
pub proof fn lemma_first_nul(units: Seq<u16>)
    ensures
        0 <= first_nul(units) <= units.len(),
        forall|k: int| 0 <= k < first_nul(units) ==> units[k] != 0,
        first_nul(units) < units.len() ==> units[first_nul(units)] == 0,
    decreases units.len(),
{
    if units.len() == 0 || units[0] == 0 {
    } else {
        let rest = units.drop_first();
        lemma_first_nul(rest);
        assert forall|k: int| 0 <= k < first_nul(units) implies units[k] != 0 by {
            if k > 0 {
                assert(rest[k - 1] == units[k]);
            }
        }
        if first_nul(units) < units.len() {
            assert(rest[first_nul(rest)] == units[first_nul(units)]);
        }
    }
}

/// An index at which `units` is zero and before which it is not is
/// `first_nul(units)`; so is the length, where no unit is zero.
pub proof fn lemma_first_nul_is(units: Seq<u16>, at: int)
    requires
        0 <= at <= units.len(),
        forall|k: int| 0 <= k < at ==> units[k] != 0,
        at < units.len() ==> units[at] == 0,
    ensures
        first_nul(units) == at,
{
    lemma_first_nul(units);
    let f = first_nul(units);
    if f < at {
        assert(units[f] != 0);
    } else if at < f {
        assert(units[at] != 0);
    }
}

/// The string that a host pointer to terminated UTF-16 text names, taken
/// from the memory `s` that starts at the pointer: the units up to and
/// including the terminator.
pub fn get_str(s: &[u16]) -> (name: &[u16])
    ensures
        name@ == terminated_prefix(s@),
{
    let n: usize = s.len();
    let mut i: usize = 0;
    while i < n && s[i] != 0
        invariant
            n == s@.len(),
            i <= n,
            forall|k: int| 0 <= k < i ==> s@[k] != 0,
        decreases n - i,
    {
        i += 1;
    }
    proof {
        lemma_first_nul_is(s@, i as int);
    }
    if i < n {
        slice_subrange(s, 0, i + 1)
    } else {
        s
    }
}

/// Whether two UTF-16 texts hold the same units.
pub fn units_equal(a: &[u16], b: &[u16]) -> (equal: bool)
    ensures
        equal == (a@ == b@),
{
    if a.len() != b.len() {
        return false;
    }
    let n: usize = a.len();
    let mut i: usize = 0;
    while i < n
        invariant
            n == a@.len(),
            n == b@.len(),
            i <= n,
            forall|k: int| 0 <= k < i ==> a@[k] == b@[k],
        decreases n - i,
    {
        if a[i] != b[i] {
            return false;
        }
        i += 1;
    }
    assert(a@ =~= b@);
    true
}

/// Whether two strings hold the same characters.
pub fn str_equal(a: &str, b: &str) -> (equal: bool)
    ensures
        equal == (a@ == b@),
{
    let n: usize = a.unicode_len();
    if n != b.unicode_len() {
        return false;
    }
    let mut i: usize = 0;
    while i < n
        invariant
            n == a@.len(),
            n == b@.len(),
            i <= n,
            forall|k: int| 0 <= k < i ==> a@[k] == b@[k],
        decreases n - i,
    {
        if a.get_char(i) != b.get_char(i) {
            return false;
        }
        i += 1;
    }
    assert(a@ =~= b@);
    true
}

} // verus!
