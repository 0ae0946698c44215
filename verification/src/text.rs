//! Character classes and small string operations shared by the request
//! validators of all three services.
use vstd::prelude::*;
use vstd::string::{StrSliceExecFns, StringSliceAdditionalSpecFns};

verus! {

/// `char::is_control`: the Unicode general category Cc.
pub open spec fn is_control_char(c: char) -> bool {
    (c as u32) <= 0x1f || (0x7f <= (c as u32) && (c as u32) <= 0x9f)
}

/// `char::is_whitespace`: the Unicode `White_Space` property.
pub open spec fn is_white_space(c: char) -> bool {
    let v = c as u32;
    ||| (0x09 <= v && v <= 0x0d)
    ||| v == 0x20
    ||| v == 0x85
    ||| v == 0xa0
    ||| v == 0x1680
    ||| (0x2000 <= v && v <= 0x200a)
    ||| v == 0x2028
    ||| v == 0x2029
    ||| v == 0x202f
    ||| v == 0x205f
    ||| v == 0x3000
}

pub open spec fn is_digit_char(c: char) -> bool {
    '0' <= c && c <= '9'
}

pub open spec fn is_hex_char(c: char) -> bool {
    ||| is_digit_char(c)
    ||| ('a' <= c && c <= 'f')
    ||| ('A' <= c && c <= 'F')
}

pub open spec fn is_alnum_char(c: char) -> bool {
    ||| is_digit_char(c)
    ||| ('a' <= c && c <= 'z')
    ||| ('A' <= c && c <= 'Z')
}

pub open spec fn is_alnum_byte(b: u8) -> bool {
    ||| (48 <= b && b <= 57)
    ||| (65 <= b && b <= 90)
    ||| (97 <= b && b <= 122)
}

/// Text that `str::trim` reduces to the empty string.
pub open spec fn is_blank(s: Seq<char>) -> bool {
    forall|i: int| 0 <= i < s.len() ==> is_white_space(#[trigger] s[i])
}

pub open spec fn has_control(s: Seq<char>) -> bool {
    exists|i: int| 0 <= i < s.len() && is_control_char(#[trigger] s[i])
}

pub open spec fn all_digits(s: Seq<char>) -> bool {
    forall|i: int| 0 <= i < s.len() ==> is_digit_char(#[trigger] s[i])
}

pub open spec fn digit_value(c: char) -> int {
    (c as int) - ('0' as int)
}

/// The number written by a string of decimal digits.
pub open spec fn digits_value(s: Seq<char>) -> int
    decreases s.len(),
{
    if s.len() == 0 {
        0
    } else {
        digits_value(s.drop_last()) * 10 + digit_value(s.last())
    }
}

/// Byte length of the UTF-8 encoding, as `str::len` reports it.
pub open spec fn byte_len(s: &str) -> int {
    s.spec_bytes().len() as int
}

pub fn is_control(c: char) -> (r: bool)
    ensures
        r == is_control_char(c),
{
    let v = c as u32;
    v <= 0x1f || (0x7f <= v && v <= 0x9f)
}

pub fn is_whitespace(c: char) -> (r: bool)
    ensures
        r == is_white_space(c),
{
    let v = c as u32;
    (0x09 <= v && v <= 0x0d) || v == 0x20 || v == 0x85 || v == 0xa0 || v == 0x1680 || (0x2000
        <= v && v <= 0x200a) || v == 0x2028 || v == 0x2029 || v == 0x202f || v == 0x205f || v
        == 0x3000
}

/// Equality of two string slices by their characters.
pub fn str_eq(a: &str, b: &str) -> (r: bool)
    ensures
        r == (a@ == b@),
{
    let n = a.unicode_len();
    if n != b.unicode_len() {
        return false;
    }
    let mut i: usize = 0;
    while i < n
        invariant
            n == a@.len(),
            n == b@.len(),
            i <= n,
            forall|j: int| 0 <= j < i ==> a@[j] == b@[j],
        decreases n - i,
    {
        if a.get_char(i) != b.get_char(i) {
            return false;
        }
        i = i + 1;
    }
    assert(a@ =~= b@);
    true
}

/// Number of characters, as `str::chars().count()` gives it.
pub fn char_count(s: &str) -> (r: usize)
    ensures
        r == s@.len(),
{
    s.unicode_len()
}

/// Whether some character is a control character.
pub fn any_control(s: &str) -> (r: bool)
    ensures
        r == has_control(s@),
{
    let n = s.unicode_len();
    let mut i: usize = 0;
    while i < n
        invariant
            n == s@.len(),
            i <= n,
            forall|j: int| 0 <= j < i ==> !is_control_char(#[trigger] s@[j]),
        decreases n - i,
    {
        if is_control(s.get_char(i)) {
            return true;
        }
        i = i + 1;
    }
    false
}

/// Whether `str::trim` would leave nothing.
pub fn trims_to_empty(s: &str) -> (r: bool)
    ensures
        r == is_blank(s@),
{
    let n = s.unicode_len();
    let mut i: usize = 0;
    while i < n
        invariant
            n == s@.len(),
            i <= n,
            forall|j: int| 0 <= j < i ==> is_white_space(#[trigger] s@[j]),
        decreases n - i,
    {
        if !is_whitespace(s.get_char(i)) {
            return false;
        }
        i = i + 1;
    }
    true
}

/// Whether every byte is an ASCII letter or digit, or one of `extra`.
pub fn bytes_all(s: &str, extra: &[u8]) -> (r: bool)
    ensures
        r == (forall|i: int|
            0 <= i < s.spec_bytes().len() ==> is_alnum_byte(#[trigger] s.spec_bytes()[i])
                || extra@.contains(s.spec_bytes()[i])),
{
    let b = s.as_bytes();
    let mut i: usize = 0;
    while i < b.len()
        invariant
            b@ == s.spec_bytes(),
            i <= b@.len(),
            forall|j: int|
                0 <= j < i ==> is_alnum_byte(#[trigger] b@[j]) || extra@.contains(b@[j]),
        decreases b@.len() - i,
    {
        let c = b[i];
        let alnum = (48 <= c && c <= 57) || (65 <= c && c <= 90) || (97 <= c && c <= 122);
        if !alnum {
            let mut k: usize = 0;
            let mut found = false;
            while k < extra.len()
                invariant
                    k <= extra@.len(),
                    found == (exists|j: int| 0 <= j < k && extra@[j] == c),
                decreases extra@.len() - k,
            {
                if extra[k] == c {
                    found = true;
                }
                k = k + 1;
            }
            if !found {
                assert(!extra@.contains(c));
                return false;
            }
        }
        i = i + 1;
    }
    true
}

/// Length in bytes of the UTF-8 encoding of `s`, as `str::len` reports it.
pub open spec fn utf8_len(s: Seq<char>) -> usize {
    vstd::utf8::encode_utf8(s).len() as usize
}

/// `str::len` of a `String`: its length in bytes.
pub fn byte_count(s: &String) -> (r: usize)
    ensures
        r == utf8_len(s@),
{
    s.as_str().len()
}

/// Equality of two `String`s by their characters.
pub fn string_eq(a: &String, b: &String) -> (r: bool)
    ensures
        r == (a@ == b@),
{
    str_eq(a.as_str(), b.as_str())
}

/// Whether a `String` holds exactly the text `lit`.
pub fn is_text(s: &String, lit: &str) -> (r: bool)
    ensures
        r == (s@ == lit@),
{
    str_eq(s.as_str(), lit)
}

/// A hexadecimal digit in lower case.
pub open spec fn lower_hex(c: char) -> char {
    if 'A' <= c && c <= 'F' {
        ((c as u32) + 32) as char
    } else {
        c
    }
}

/// An ASCII letter in lower case.
pub open spec fn lower_ascii(c: char) -> char {
    if 'A' <= c && c <= 'Z' {
        ((c as u32) + 32) as char
    } else {
        c
    }
}

/// The 32 digits of a hyphenated UUID: hyphens at 8, 13, 18 and 23 and hex
/// digits everywhere else.
pub open spec fn hyphenated_digits(s: Seq<char>) -> Option<Seq<char>> {
    if s.len() == 36 && s[8] == '-' && s[13] == '-' && s[18] == '-' && s[23] == '-' && (forall|
        i: int,
    |
        0 <= i < 36 && i != 8 && i != 13 && i != 18 && i != 23 ==> is_hex_char(#[trigger] s[i])) {
        Some(s.subrange(0, 8) + s.subrange(9, 13) + s.subrange(14, 18) + s.subrange(19, 23)
            + s.subrange(24, 36))
    } else {
        None
    }
}

/// The 32 hex digits of a UUID text in one of the forms `uuid` reads: 32
/// digits, hyphenated, hyphenated in braces, or hyphenated after `urn:uuid:`
/// in any case.
pub open spec fn uuid_digits(s: Seq<char>) -> Option<Seq<char>> {
    if s.len() == 32 {
        if forall|i: int| 0 <= i < 32 ==> is_hex_char(#[trigger] s[i]) {
            Some(s)
        } else {
            None
        }
    } else if s.len() == 36 {
        hyphenated_digits(s)
    } else if s.len() == 38 && s[0] == '{' && s[37] == '}' {
        hyphenated_digits(s.subrange(1, 37))
    } else if s.len() == 45 && s.take(9).map_values(|c: char| lower_ascii(c)) == "urn:uuid:"@ {
        hyphenated_digits(s.skip(9))
    } else {
        None
    }
}

/// The canonical text of a UUID: what `uuid::Uuid::parse_str` reads from `s`,
/// written back with `to_string`, that is its 32 digits in lower case,
/// hyphenated 8-4-4-4-12; `None` where the parser refuses `s`.
pub open spec fn uuid_canonical(s: Seq<char>) -> Option<Seq<char>> {
    match uuid_digits(s) {
        Some(d) => {
            let l = d.map_values(|c: char| lower_hex(c));
            Some(
                l.subrange(0, 8) + seq!['-'] + l.subrange(8, 12) + seq!['-'] + l.subrange(12, 16)
                    + seq!['-'] + l.subrange(16, 20) + seq!['-'] + l.subrange(20, 32),
            )
        },
        None => None,
    }
}

/// Parses `s` with `uuid::Uuid::parse_str` and writes the value back with its
/// `Display` impl. The contract claims that the parser accepts exactly the
/// four forms of `uuid_digits` (the lengths counted in bytes, which for
/// these forms are ASCII) and that the value is written back as its digits
/// in lower case, hyphenated.
#[verifier::external_body]
pub(crate) fn canonical_uuid(s: &str) -> (r: Option<String>)
    ensures
        match r {
            Some(v) => uuid_canonical(s@) == Some(v@),
            None => uuid_canonical(s@) is None,
        },
{
    uuid::Uuid::parse_str(s).ok().map(|id| id.to_string())
}

/// The instant an RFC 3339 text names, as `chrono::DateTime::parse_from_rfc3339`
/// reads it: whole seconds since the Unix epoch and the nanoseconds past that
/// second; `None` where the parser refuses the text.
pub uninterp spec fn rfc3339_instant(s: Seq<char>) -> Option<(int, int)>;

/// Parses `s` with `chrono::DateTime::parse_from_rfc3339` and returns
/// `timestamp()` and `timestamp_subsec_nanos()` of the result. Besides naming
/// the result, the contract states the range of the seconds that follows from
/// the parser's four-digit year and its offset of at most 23:59.
#[verifier::external_body]
pub(crate) fn parse_rfc3339(s: &str) -> (r: Option<(i64, u32)>)
    ensures
        match r {
            Some(v) => rfc3339_instant(s@) == Some((v.0 as int, v.1 as int)) && -100_000_000_000
                <= v.0 <= 300_000_000_000,
            None => rfc3339_instant(s@) is None,
        },
{
    chrono::DateTime::parse_from_rfc3339(s).ok().map(|t| (t.timestamp(), t.timestamp_subsec_nanos()))
}

/// An instant in milliseconds since the epoch, as chrono's
/// `timestamp_millis` gives it: whole seconds times a thousand plus the
/// milliseconds of the fraction.
pub open spec fn instant_millis(i: (int, int)) -> int {
    i.0 * 1000 + i.1 / 1_000_000
}

/// An instant as chrono holds it: seconds since the epoch and nanoseconds
/// past that second (`timestamp`, `timestamp_subsec_nanos`); within a leap
/// second the nanoseconds are 1e9 or more.
pub type Instant = (i64, u32);

/// Whether instant `a` comes before `b`, in chrono's order.
pub open spec fn instant_lt(a: Instant, b: Instant) -> bool {
    a.0 < b.0 || (a.0 == b.0 && a.1 < b.1)
}

pub fn instant_before(a: Instant, b: Instant) -> (r: bool)
    ensures
        r == instant_lt(a, b),
{
    a.0 < b.0 || (a.0 == b.0 && a.1 < b.1)
}

/// The second of the day of an instant's seconds.
pub open spec fn second_of_day(s: int) -> int {
    s % 86400
}

/// `later - earlier` in nanoseconds, as chrono's `signed_duration_since`
/// counts it: a leap second yet to be counted adds a second.
pub open spec fn duration_nanos(later: Instant, earlier: Instant) -> int {
    let a = second_of_day(later.0 as int);
    let b = second_of_day(earlier.0 as int);
    let adjust = if a > b && earlier.1 >= 1_000_000_000 {
        1int
    } else if a < b && later.1 >= 1_000_000_000 {
        -1int
    } else {
        0int
    };
    (later.0 - earlier.0 + adjust) * 1_000_000_000 + later.1 - earlier.1
}

fn second_of_day_exec(s: i64) -> (r: i128)
    ensures
        r == second_of_day(s as int),
{
    let k: i128 = 86400 * 0x4_0000_0000_0000;
    let shifted: i128 = s as i128 + k;
    proof {
        assert(k == 86400 * 0x4_0000_0000_0000);
        vstd::arithmetic::div_mod::lemma_mod_multiples_vanish(
            0x4_0000_0000_0000,
            s as int,
            86400,
        );
        assert(shifted >= 0);
    }
    shifted % 86400
}

/// `later - earlier` in nanoseconds.
pub fn duration_between(later: Instant, earlier: Instant) -> (r: i128)
    ensures
        r == duration_nanos(later, earlier),
{
    let a = second_of_day_exec(later.0);
    let b = second_of_day_exec(earlier.0);
    let adjust: i128 = if a > b && earlier.1 >= 1_000_000_000 {
        1
    } else if a < b && later.1 >= 1_000_000_000 {
        -1
    } else {
        0
    };
    (later.0 as i128 - earlier.0 as i128 + adjust) * 1_000_000_000 + later.1 as i128
        - earlier.1 as i128
}

/// The instant an RFC 3339 text names, in milliseconds since the epoch.
pub fn rfc3339_millis(s: &str) -> (r: Option<i64>)
    ensures
        match rfc3339_instant(s@) {
            Some(i) => r == Some(instant_millis(i) as i64) && i64::MIN <= instant_millis(i)
                <= i64::MAX,
            None => r is None,
        },
{
    match parse_rfc3339(s) {
        Some((secs, nanos)) => {
            let sub = (nanos / 1_000_000) as i64;
            Some(secs * 1000 + sub)
        },
        None => None,
    }
}

/// `s` without its leading white space.
pub open spec fn trim_start(s: Seq<char>) -> Seq<char>
    decreases s.len(),
{
    if s.len() > 0 && is_white_space(s[0]) {
        trim_start(s.drop_first())
    } else {
        s
    }
}

/// `s` without its trailing white space.
pub open spec fn trim_end(s: Seq<char>) -> Seq<char>
    decreases s.len(),
{
    if s.len() > 0 && is_white_space(s.last()) {
        trim_end(s.drop_last())
    } else {
        s
    }
}

/// `str::trim`: `s` without leading and trailing white space.
pub open spec fn trim(s: Seq<char>) -> Seq<char> {
    trim_end(trim_start(s))
}

proof fn lemma_trim_start(s: Seq<char>, a: int)
    requires
        0 <= a <= s.len(),
        forall|i: int| 0 <= i < a ==> is_white_space(#[trigger] s[i]),
        a == s.len() || !is_white_space(s[a]),
    ensures
        trim_start(s) == s.subrange(a, s.len() as int),
    decreases a,
{
    if a > 0 {
        let d = s.drop_first();
        assert forall|i: int| 0 <= i < a - 1 implies is_white_space(#[trigger] d[i]) by {
            assert(d[i] == s[i + 1]);
        }
        assert(a - 1 == d.len() || d[a - 1] == s[a]);
        lemma_trim_start(d, a - 1);
        assert(d.subrange(a - 1, d.len() as int) =~= s.subrange(a, s.len() as int));
    } else {
        assert(s.subrange(0, s.len() as int) =~= s);
    }
}

proof fn lemma_trim_end(s: Seq<char>, b: int)
    requires
        0 <= b <= s.len(),
        forall|i: int| b <= i < s.len() ==> is_white_space(#[trigger] s[i]),
        b == 0 || !is_white_space(s[b - 1]),
    ensures
        trim_end(s) == s.subrange(0, b),
    decreases s.len() - b,
{
    if b < s.len() {
        let d = s.drop_last();
        assert forall|i: int| b <= i < d.len() implies is_white_space(#[trigger] d[i]) by {
            assert(d[i] == s[i]);
        }
        assert(b == 0 || d[b - 1] == s[b - 1]);
        lemma_trim_end(d, b);
        assert(d.subrange(0, b) =~= s.subrange(0, b));
    } else {
        assert(s.subrange(0, b) =~= s);
    }
}

/// `str::trim`.
pub fn trim_text(s: &str) -> (r: &str)
    ensures
        r@ == trim(s@),
{
    let n = s.unicode_len();
    let mut a: usize = 0;
    while a < n && is_whitespace(s.get_char(a))
        invariant
            n == s@.len(),
            a <= n,
            forall|i: int| 0 <= i < a ==> is_white_space(#[trigger] s@[i]),
        decreases n - a,
    {
        a = a + 1;
    }
    let mut b: usize = n;
    while b > a && is_whitespace(s.get_char(b - 1))
        invariant
            n == s@.len(),
            a <= b <= n,
            forall|i: int| b <= i < n ==> is_white_space(#[trigger] s@[i]),
        decreases b - a,
    {
        b = b - 1;
    }
    proof {
        lemma_trim_start(s@, a as int);
        let t = s@.subrange(a as int, n as int);
        assert forall|i: int| (b - a) <= i < t.len() implies is_white_space(#[trigger] t[i]) by {
            assert(t[i] == s@[i + a]);
        }
        assert(b - a == 0 || t[b - a - 1] == s@[b - 1]);
        lemma_trim_end(t, (b - a) as int);
        assert(t.subrange(0, (b - a) as int) =~= s@.subrange(a as int, b as int));
    }
    s.substring_char(a, b)
}

/// A note written by staff: after trimming, not empty, at most 255
/// characters, and free of control characters.
pub open spec fn note_ok(s: Seq<char>) -> bool {
    trim(s).len() > 0 && trim(s).len() <= 255 && !has_control(trim(s))
}

/// Whether a note is acceptable, and its trimmed text.
pub fn check_note(s: &str) -> (r: (bool, &str))
    ensures
        r.0 == note_ok(s@),
        r.1@ == trim(s@),
{
    let t = trim_text(s);
    let ok = !t.is_empty() && char_count(t) <= 255 && !any_control(t);
    (ok, t)
}

} // verus!
