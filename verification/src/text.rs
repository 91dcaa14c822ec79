//! Text helpers: ASCII case folding, splitting, and numbers in decimal and hexadecimal.
use vstd::prelude::*;
use vstd::utf8::{decode_utf8, valid_utf8};

use crate::wire::{le16, read_u16_le};

verus! {

/// `String::push` of std appends one character to the end of the string.
pub assume_specification[ std::string::String::push ](s: &mut std::string::String, c: char)
    ensures
        final(s)@ == old(s)@.push(c),
;

/// The text that `String::from_utf8_lossy` of std makes of bytes.
pub uninterp spec fn lossy_text(bytes: Seq<u8>) -> Seq<char>;

/// `String::from_utf8_lossy` of std decodes bytes as UTF-8. Where they are not UTF-8 it puts
/// replacement characters; nothing more is claimed of that text than that the bytes determine it.
#[verifier::external_body]
pub(crate) fn from_utf8_lossy(bytes: &[u8]) -> (s: String)
    ensures
        s@ == lossy_text(bytes@),
        valid_utf8(bytes@) ==> s@ == decode_utf8(bytes@),
{
    String::from_utf8_lossy(bytes).into_owned()
}

/// `std::str::from_utf8` decodes bytes as UTF-8, and fails exactly where they are not UTF-8.
#[verifier::external_body]
pub(crate) fn from_utf8(bytes: &[u8]) -> (r: Option<String>)
    ensures
        match r {
            Some(s) => valid_utf8(bytes@) && s@ == decode_utf8(bytes@),
            None => !valid_utf8(bytes@),
        },
{
    std::str::from_utf8(bytes).ok().map(String::from)
}

/// A text without the NUL characters at its end.
pub open spec fn trim_nul(s: Seq<char>) -> Seq<char>
    decreases s.len(),
{
    if s.len() > 0 && s.last() == '\0' {
        trim_nul(s.drop_last())
    } else {
        s
    }
}

/// Decodes bytes leniently and drops the NUL characters at the end.
pub fn padded_text(bytes: &[u8]) -> (s: String)
    ensures
        s@ == trim_nul(lossy_text(bytes@)),
{
    let all = chars_of(from_utf8_lossy(bytes).as_str());
    let mut n: usize = all.len();
    assert(all@.take(n as int) =~= all@);
    while n > 0 && all[n - 1] == '\0'
        invariant
            n <= all.len(),
            all@ == lossy_text(bytes@),
            trim_nul(all@) == trim_nul(all@.take(n as int)),
        decreases n,
    {
        assert(all@.take(n as int).drop_last() =~= all@.take(n - 1));
        n = n - 1;
    }
    let s = text_of(vstd::slice::slice_subrange(all.as_slice(), 0, n));
    assert(all@.subrange(0, n as int) =~= all@.take(n as int));
    s
}

/// The bytes before the first NUL.
pub open spec fn before_nul(bytes: Seq<u8>) -> Seq<u8>
    decreases bytes.len(),
{
    if bytes.len() == 0 || bytes[0] == 0 {
        Seq::empty()
    } else {
        seq![bytes[0]] + before_nul(bytes.skip(1))
    }
}

proof fn before_nul_is(bytes: Seq<u8>, n: int)
    requires
        0 <= n <= bytes.len(),
        forall|i: int| 0 <= i < n ==> bytes[i] != 0,
        n < bytes.len() ==> bytes[n] == 0,
    ensures
        before_nul(bytes) == bytes.take(n),
    decreases n,
{
    if n > 0 {
        before_nul_is(bytes.skip(1), n - 1);
        assert(seq![bytes[0]] + bytes.skip(1).take(n - 1) =~= bytes.take(n));
    } else {
        assert(bytes.take(0) =~= Seq::empty());
    }
}

/// The text that a field of a datagram holds, up to its first NUL, where that is valid text.
pub open spec fn c_text(bytes: Seq<u8>) -> Option<Seq<char>> {
    if valid_utf8(before_nul(bytes)) {
        Some(decode_utf8(before_nul(bytes)))
    } else {
        None
    }
}

/// Reads a text field of a datagram up to its first NUL.
pub fn c_string(bytes: &[u8]) -> (r: Option<String>)
    ensures
        match r {
            Some(s) => c_text(bytes@) == Some(s@),
            None => c_text(bytes@) is None,
        },
{
    let mut n: usize = 0;
    while n < bytes.len() && bytes[n] != 0
        invariant
            n <= bytes.len(),
            forall|i: int| 0 <= i < n ==> bytes[i] != 0,
        decreases bytes.len() - n,
    {
        n = n + 1;
    }
    proof {
        before_nul_is(bytes@, n as int);
        assert(bytes@.subrange(0, n as int) =~= bytes@.take(n as int));
    }
    from_utf8(vstd::slice::slice_subrange(bytes, 0, n))
}

/// A unit of the first half of a pair in UTF-16.
pub open spec fn is_high_surrogate(unit: u16) -> bool {
    0xd800 <= unit <= 0xdbff
}

/// A unit of the second half of a pair in UTF-16.
pub open spec fn is_low_surrogate(unit: u16) -> bool {
    0xdc00 <= unit <= 0xdfff
}

/// The text that units of UTF-16 encode: a pair of surrogates is one character, a surrogate outside
/// a pair counts as the replacement character, and every other unit is the character of that number.
pub open spec fn utf16_text(units: Seq<u16>) -> Seq<char>
    decreases units.len(),
{
    if units.len() == 0 {
        Seq::empty()
    } else if is_high_surrogate(units[0]) && units.len() > 1 && is_low_surrogate(units[1]) {
        seq![(0x10000 + 0x400 * (units[0] - 0xd800) + (units[1] - 0xdc00)) as char] + utf16_text(
            units.skip(2),
        )
    } else if is_high_surrogate(units[0]) || is_low_surrogate(units[0]) {
        seq!['\u{fffd}'] + utf16_text(units.skip(1))
    } else {
        seq![units[0] as char] + utf16_text(units.skip(1))
    }
}

/// `String::from_utf16_lossy` of std decodes units of UTF-16, and puts the replacement character for
/// each surrogate that is not part of a pair.
#[verifier::external_body]
pub(crate) fn from_utf16_lossy(units: &[u16]) -> (s: String)
    ensures
        s@ == utf16_text(units@),
{
    String::from_utf16_lossy(units)
}

/// The 16 bit units of bytes, low byte first, up to the first that is zero. An odd byte at the end
/// belongs to none.
pub open spec fn wide_units(bytes: Seq<u8>) -> Seq<u16>
    decreases bytes.len(),
{
    if bytes.len() < 2 || le16(bytes, 0) == 0 {
        Seq::empty()
    } else {
        seq![le16(bytes, 0) as u16] + wide_units(bytes.skip(2))
    }
}

/// Reads a text field of wide characters, up to the first that is zero.
pub fn wide_text(bytes: &[u8]) -> (s: String)
    ensures
        s@ == utf16_text(wide_units(bytes@)),
{
    let mut units: Vec<u16> = Vec::new();
    let mut i: usize = 0;
    proof {
        assert(bytes@.skip(0) =~= bytes@);
        assert(units@ + wide_units(bytes@) =~= wide_units(bytes@));
    }
    while bytes.len() - i >= 2 && read_u16_le(bytes, i) != 0
        invariant
            i <= bytes.len(),
            units@ + wide_units(bytes@.skip(i as int)) == wide_units(bytes@),
        decreases bytes.len() - i,
    {
        let ghost before = units@;
        let ghost rest = bytes@.skip(i as int);
        units.push(read_u16_le(bytes, i));
        i = i + 2;
        proof {
            assert(rest.skip(2) =~= bytes@.skip(i as int));
            assert(units@ + wide_units(bytes@.skip(i as int)) =~= before + wide_units(rest));
        }
    }
    assert(units@ + wide_units(bytes@.skip(i as int)) =~= units@);
    from_utf16_lossy(units.as_slice())
}

/// Texts of plain wide characters, as radars send them, are read character by character.
pub proof fn plain_wide_text(units: Seq<u16>)
    requires
        forall|i: int| 0 <= i < units.len() ==> !is_high_surrogate(units[i]) && !is_low_surrogate(units[i]),
    ensures
        utf16_text(units) == units.map_values(|u: u16| u as char),
    decreases units.len(),
{
    if units.len() > 0 {
        plain_wide_text(units.skip(1));
        assert(seq![units[0] as char] + units.skip(1).map_values(|u: u16| u as char)
            =~= units.map_values(|u: u16| u as char));
    } else {
        assert(units.map_values(|u: u16| u as char) =~= Seq::<char>::empty());
    }
}

/// A field of bytes holds a text of wide characters: low byte first, with a zero behind the text where
/// there is room.
pub open spec fn holds_wide(bytes: Seq<u8>, text: Seq<char>) -> bool {
    &&& 2 * text.len() <= bytes.len()
    &&& forall|i: int|
        0 <= i < text.len() ==> 0 < #[trigger] text[i] as int && (text[i] as int) < 0xd800 && bytes[2 * i]
            == text[i] as int % 256 && bytes[2 * i + 1] == text[i] as int / 256
    &&& 2 * text.len() + 2 <= bytes.len() ==> bytes[2 * text.len() as int] == 0 && bytes[2 * (
    text.len() as int) + 1] == 0
}

/// A text of wide characters that lies in a field is read from there.
pub proof fn wide_text_is_read_back(bytes: Seq<u8>, text: Seq<char>)
    requires
        holds_wide(bytes, text),
    ensures
        utf16_text(wide_units(bytes)) == text,
    decreases text.len(),
{
    if text.len() > 0 {
        assert(text[0] as int == bytes[0] + 256 * bytes[1]);
        let rest = bytes.skip(2);
        let tail = text.skip(1);
        assert forall|i: int| 0 <= i < tail.len() implies 0 < #[trigger] tail[i] as int && (
        tail[i] as int) < 0xd800 && rest[2 * i] == tail[i] as int % 256 && rest[2 * i + 1]
            == tail[i] as int / 256 by {
            assert(tail[i] == text[i + 1]);
            assert(rest[2 * i] == bytes[2 * (i + 1)]);
            assert(rest[2 * i + 1] == bytes[2 * (i + 1) + 1]);
        }
        wide_text_is_read_back(rest, tail);
        let units = wide_units(bytes);
        assert(units[0] == text[0] as int);
        assert(units.skip(1) =~= wide_units(rest));
        assert(units[0] as char == text[0]);
        assert(seq![text[0]] + tail =~= text);
    } else {
        assert(text =~= Seq::empty());
        assert(bytes.len() >= 2 ==> le16(bytes, 0) == 0);
    }
}

/// The lower case form of an ASCII letter; every other character unchanged.
pub open spec fn lower(c: char) -> char {
    if 'A' <= c && c <= 'Z' {
        (c as int + 32) as char
    } else {
        c
    }
}

/// A text with its ASCII letters in lower case.
pub open spec fn lower_all(s: Seq<char>) -> Seq<char> {
    s.map_values(|c: char| lower(c))
}

/// Two texts that differ at most in the case of ASCII letters.
pub open spec fn same_ignoring_case(a: Seq<char>, b: Seq<char>) -> bool {
    lower_all(a) == lower_all(b)
}

/// Whether `c` is a decimal digit.
pub open spec fn is_digit(c: char) -> bool {
    '0' <= c && c <= '9'
}

/// The number that a sequence of decimal digits denotes.
pub open spec fn digits_value(s: Seq<char>) -> nat
    decreases s.len(),
{
    if s.len() == 0 {
        0
    } else {
        10 * digits_value(s.drop_last()) + (s.last() as int - '0' as int) as nat
    }
}

/// A nonempty sequence of decimal digits.
pub open spec fn is_digits(s: Seq<char>) -> bool {
    s.len() > 0 && forall|i: int| 0 <= i < s.len() ==> is_digit(#[trigger] s[i])
}

/// The natural number that a text denotes: an optional plus sign and at least one digit.
pub open spec fn natural_text(s: Seq<char>) -> Option<int> {
    if s.len() > 0 && s[0] == '+' && is_digits(s.skip(1)) {
        Some(digits_value(s.skip(1)) as int)
    } else if is_digits(s) {
        Some(digits_value(s) as int)
    } else {
        None
    }
}

/// The integer that a text denotes: an optional sign and at least one digit.
pub open spec fn integer_text(s: Seq<char>) -> Option<int> {
    if s.len() > 0 && s[0] == '-' && is_digits(s.skip(1)) {
        Some(-(digits_value(s.skip(1)) as int))
    } else {
        natural_text(s)
    }
}

/// A number that lies between two bounds.
pub open spec fn within(n: Option<int>, low: int, high: int) -> Option<int> {
    match n {
        Some(v) if low <= v <= high => Some(v),
        _ => None,
    }
}

/// The decimal digits of a natural number, without leading zeros.
pub open spec fn decimal(n: nat) -> Seq<char>
    decreases n,
{
    if n < 10 {
        seq![('0' as int + n) as char]
    } else {
        decimal(n / 10).push(('0' as int + n % 10) as char)
    }
}

/// The decimal form of an integer.
pub open spec fn decimal_int(n: int) -> Seq<char> {
    if n < 0 {
        seq!['-'] + decimal((-n) as nat)
    } else {
        decimal(n as nat)
    }
}

/// The characters of a text as a vector.
pub fn chars_of(s: &str) -> (v: Vec<char>)
    ensures
        v@ == s@,
{
    let n: usize = s.unicode_len();
    let mut v: Vec<char> = Vec::with_capacity(n);
    let mut i: usize = 0;
    while i < n
        invariant
            i <= n,
            n == s@.len(),
            v@ == s@.subrange(0, i as int),
        decreases n - i,
    {
        v.push(s.get_char(i));
        i = i + 1;
    }
    assert(s@.subrange(0, i as int) =~= s@);
    v
}

/// The text made of the characters of a slice.
pub fn text_of(v: &[char]) -> (s: String)
    ensures
        s@ == v@,
{
    let mut s: String = String::new();
    let mut i: usize = 0;
    while i < v.len()
        invariant
            i <= v.len(),
            s@ == v@.subrange(0, i as int),
        decreases v.len() - i,
    {
        s.push(v[i]);
        i = i + 1;
    }
    assert(v@.subrange(0, i as int) =~= v@);
    s
}

/// Whether two texts are equal.
pub fn same_text(a: &str, b: &str) -> (same: bool)
    ensures
        same == (a@ == b@),
{
    let x = chars_of(a);
    let y = chars_of(b);
    if x.len() != y.len() {
        return false;
    }
    let mut i: usize = 0;
    while i < x.len()
        invariant
            i <= x.len(),
            x.len() == y.len(),
            x@ == a@,
            y@ == b@,
            forall|j: int| 0 <= j < i ==> x[j] == y[j],
        decreases x.len() - i,
    {
        if x[i] != y[i] {
            assert(a@[i as int] != b@[i as int]);
            return false;
        }
        i = i + 1;
    }
    assert(a@ =~= b@);
    true
}

/// The lower case form of an ASCII letter.
pub fn to_lower(c: char) -> (r: char)
    ensures
        r == lower(c),
{
    if 'A' <= c && c <= 'Z' {
        let code: u8 = (c as u32 + 32) as u8;
        code as char
    } else {
        c
    }
}

/// Whether two texts differ at most in the case of ASCII letters.
pub fn eq_ignore_case(a: &str, b: &str) -> (same: bool)
    ensures
        same == same_ignoring_case(a@, b@),
{
    let x = chars_of(a);
    let y = chars_of(b);
    if x.len() != y.len() {
        assert(lower_all(a@).len() != lower_all(b@).len());
        return false;
    }
    let mut i: usize = 0;
    while i < x.len()
        invariant
            i <= x.len(),
            x.len() == y.len(),
            x@ == a@,
            y@ == b@,
            forall|j: int| 0 <= j < i ==> lower(x[j]) == lower(y[j]),
        decreases x.len() - i,
    {
        if to_lower(x[i]) != to_lower(y[i]) {
            assert(lower_all(a@)[i as int] != lower_all(b@)[i as int]);
            return false;
        }
        i = i + 1;
    }
    assert(lower_all(a@) =~= lower_all(b@));
    true
}

/// What a run of characters holds when it is read as decimal digits.
enum Digits {
    /// No digits, or something else among them.
    Bad,
    /// A number above `u64::MAX`.
    Huge,
    /// A number.
    Value(u64),
}

fn read_digits(v: &Vec<char>, from: usize) -> (r: Digits)
    requires
        from <= v.len(),
    ensures
        match r {
            Digits::Bad => !is_digits(v@.skip(from as int)),
            Digits::Huge => is_digits(v@.skip(from as int)) && digits_value(v@.skip(from as int))
                > u64::MAX,
            Digits::Value(n) => is_digits(v@.skip(from as int)) && digits_value(
                v@.skip(from as int),
            ) == n,
        },
{
    if from == v.len() {
        return Digits::Bad;
    }
    let ghost all = v@.skip(from as int);
    let mut n: u64 = 0;
    let mut huge = false;
    let mut i: usize = from;
    while i < v.len()
        invariant
            from <= i <= v.len(),
            all == v@.skip(from as int),
            forall|j: int| 0 <= j < i - from ==> is_digit(#[trigger] all[j]),
            huge ==> digits_value(all.take(i - from)) > u64::MAX,
            !huge ==> digits_value(all.take(i - from)) == n,
        decreases v.len() - i,
    {
        let c = v[i];
        if !('0' <= c && c <= '9') {
            assert(!is_digit(all[i - from]));
            return Digits::Bad;
        }
        let d: u64 = (c as u32 - '0' as u32) as u64;
        let ghost next = all.take(i + 1 - from);
        assert(next.drop_last() =~= all.take(i - from));
        assert(next.last() == c);
        if n > (u64::MAX - d) / 10 {
            huge = true;
        } else {
            n = 10 * n + d;
        }
        i = i + 1;
    }
    assert(all.take(i - from) =~= all);
    if huge {
        Digits::Huge
    } else {
        Digits::Value(n)
    }
}

/// Reads a natural number that is at most `high`.
pub fn parse_natural(s: &str, high: u64) -> (r: Option<u64>)
    ensures
        match r {
            Some(n) => within(natural_text(s@), 0, high as int) == Some(n as int),
            None => within(natural_text(s@), 0, high as int) is None,
        },
{
    let v = chars_of(s);
    if v.len() == 0 {
        return None;
    }
    let plus = v[0] == '+';
    let from: usize = if plus { 1 } else { 0 };
    assert(v@.skip(0) =~= v@);
    proof {
        if plus {
            assert(!is_digit(v@[0]));
        }
    }
    match read_digits(&v, from) {
        Digits::Value(n) if n <= high => Some(n),
        _ => None,
    }
}

/// Reads an integer that lies between `low` and `high`.
pub fn parse_integer(s: &str, low: i64, high: i64) -> (r: Option<i64>)
    ensures
        match r {
            Some(n) => within(integer_text(s@), low as int, high as int) == Some(n as int),
            None => within(integer_text(s@), low as int, high as int) is None,
        },
{
    let v = chars_of(s);
    if v.len() == 0 {
        return None;
    }
    let minus = v[0] == '-';
    let signed = minus || v[0] == '+';
    let from: usize = if signed { 1 } else { 0 };
    assert(v@.skip(0) =~= v@);
    proof {
        if signed {
            assert(!is_digit(v@[0]));
        }
    }
    match read_digits(&v, from) {
        Digits::Value(n) => {
            let value: i128 = if minus { -(n as i128) } else { n as i128 };
            if low as i128 <= value && value <= high as i128 {
                Some(value as i64)
            } else {
                None
            }
        },
        _ => None,
    }
}

/// The value of a hexadecimal digit.
pub open spec fn hex_value(c: char) -> Option<int> {
    if '0' <= c && c <= '9' {
        Some(c as int - '0' as int)
    } else if 'a' <= c && c <= 'f' {
        Some(c as int - 'a' as int + 10)
    } else if 'A' <= c && c <= 'F' {
        Some(c as int - 'A' as int + 10)
    } else {
        None
    }
}

fn read_hex(c: char) -> (r: Option<u8>)
    ensures
        match r {
            Some(n) => n < 16 && hex_value(c) == Some(n as int),
            None => hex_value(c) is None,
        },
{
    if '0' <= c && c <= '9' {
        Some((c as u32 - '0' as u32) as u8)
    } else if 'a' <= c && c <= 'f' {
        Some((c as u32 - 'a' as u32 + 10) as u8)
    } else if 'A' <= c && c <= 'F' {
        Some((c as u32 - 'A' as u32 + 10) as u8)
    } else {
        None
    }
}

/// The hexadecimal digit of a number below 16.
pub open spec fn hex_digit(n: int) -> char {
    if n < 10 {
        ('0' as int + n) as char
    } else {
        ('a' as int + n - 10) as char
    }
}

/// The two hexadecimal digits of a byte.
pub open spec fn hex_byte(n: int) -> Seq<char> {
    seq![hex_digit(n / 16), hex_digit(n % 16)]
}

fn make_hex_digit(n: u8) -> (c: char)
    requires
        n < 16,
    ensures
        c == hex_digit(n as int),
{
    if n < 10 {
        (48 + n) as char
    } else {
        (97 + n - 10) as char
    }
}

/// Appends the two hexadecimal digits of a byte.
pub fn push_hex_byte(s: &mut String, n: u8)
    ensures
        final(s)@ == old(s)@ + hex_byte(n as int),
{
    s.push(make_hex_digit(n / 16));
    s.push(make_hex_digit(n % 16));
    assert(s@ =~= old(s)@ + hex_byte(n as int));
}

/// A nonempty sequence of hexadecimal digits.
pub open spec fn is_hex(s: Seq<char>) -> bool {
    s.len() > 0 && forall|i: int| 0 <= i < s.len() ==> hex_value(#[trigger] s[i]) is Some
}

/// The number that a sequence of hexadecimal digits denotes.
pub open spec fn hex_number(s: Seq<char>) -> int
    decreases s.len(),
{
    if s.len() == 0 {
        0
    } else {
        16 * hex_number(s.drop_last()) + hex_value(s.last())->0
    }
}

/// The natural number that a hexadecimal text denotes: an optional plus sign and digits.
pub open spec fn hex_text(s: Seq<char>) -> Option<int> {
    if s.len() > 0 && s[0] == '+' && is_hex(s.skip(1)) {
        Some(hex_number(s.skip(1)))
    } else if is_hex(s) {
        Some(hex_number(s))
    } else {
        None
    }
}

/// Reads a byte in hexadecimal notation.
pub fn parse_hex_u8(v: &[char]) -> (r: Option<u8>)
    ensures
        match r {
            Some(n) => within(hex_text(v@), 0, 255) == Some(n as int),
            None => within(hex_text(v@), 0, 255) is None,
        },
{
    if v.len() == 0 {
        return None;
    }
    let plus = v[0] == '+';
    let from: usize = if plus { 1 } else { 0 };
    assert(v@.skip(0) =~= v@);
    if from == v.len() {
        return None;
    }
    let ghost all = v@.skip(from as int);
    assert(plus ==> hex_value(v@[0]) is None);
    let mut n: u16 = 0;
    let mut huge = false;
    let mut i: usize = from;
    while i < v.len()
        invariant
            from <= i <= v.len(),
            all == v@.skip(from as int),
            plus == (from == 1),
            plus ==> v@[0] == '+' && hex_value(v@[0]) is None,
            !plus ==> v@[0] != '+',
            v@.skip(0) == v@,
            from <= 1,
            from < v.len(),
            forall|j: int| 0 <= j < i - from ==> hex_value(#[trigger] all[j]) is Some,
            huge ==> hex_number(all.take(i - from)) > 255,
            !huge ==> hex_number(all.take(i - from)) == n && n <= 255,
        decreases v.len() - i,
    {
        let d: u8 = match read_hex(v[i]) {
            Some(d) => d,
            None => {
                assert(hex_value(all[i - from]) is None);
                return None;
            },
        };
        let ghost next = all.take(i + 1 - from);
        assert(next.drop_last() =~= all.take(i - from));
        assert(next.last() == v@[i as int]);
        if !huge {
            n = 16 * n + d as u16;
            if n > 255 {
                huge = true;
            }
        }
        i = i + 1;
    }
    assert(all.take(i - from) =~= all);
    if huge {
        None
    } else {
        Some(n as u8)
    }
}

/// The decimal digits of a natural number.
pub fn format_decimal(n: u64) -> (s: String)
    ensures
        s@ == decimal(n as nat),
{
    let mut digits: Vec<char> = Vec::new();
    let mut rest: u64 = n;
    while rest >= 10
        invariant
            decimal(n as nat) == decimal(rest as nat) + digits@.reverse(),
        decreases rest,
    {
        let code: u8 = 48 + (rest % 10) as u8;
        proof {
            assert(digits@.push(code as char).reverse() =~= seq![code as char]
                + digits@.reverse());
            assert(decimal(rest as nat) == decimal((rest / 10) as nat).push(code as char));
            assert(decimal((rest / 10) as nat).push(code as char) + digits@.reverse() =~= decimal(
                (rest / 10) as nat,
            ) + (seq![code as char] + digits@.reverse()));
        }
        digits.push(code as char);
        rest = rest / 10;
    }
    let code: u8 = 48 + rest as u8;
    proof {
        assert(digits@.push(code as char).reverse() =~= seq![code as char] + digits@.reverse());
    }
    digits.push(code as char);
    let mut s: String = String::new();
    let mut i: usize = digits.len();
    let ghost wanted = digits@.reverse();
    while i > 0
        invariant
            i <= digits.len(),
            wanted == digits@.reverse(),
            s@ == wanted.take(digits.len() - i),
        decreases i,
    {
        i = i - 1;
        proof {
            assert(wanted.take(digits.len() - i) =~= wanted.take(digits.len() - i - 1).push(
                digits@[i as int],
            ));
        }
        s.push(digits[i]);
    }
    assert(wanted.take(digits.len() as int) =~= wanted);
    s
}

/// Appends the decimal form of an integer.
pub fn push_integer(s: &mut String, n: i64)
    ensures
        final(s)@ == old(s)@ + decimal_int(n as int),
{
    if n < 0 {
        s.push('-');
        let magnitude: u64 = (-(n as i128)) as u64;
        s.append(format_decimal(magnitude).as_str());
        assert(s@ =~= old(s)@ + decimal_int(n as int));
    } else {
        s.append(format_decimal(n as u64).as_str());
    }
}

/// Whether `s` starts with `prefix`.
pub open spec fn has_prefix(s: Seq<char>, prefix: Seq<char>) -> bool {
    prefix.len() <= s.len() && s.take(prefix.len() as int) == prefix
}

/// Whether a text starts with a given prefix.
pub fn starts_with(v: &Vec<char>, prefix: &str) -> (r: bool)
    ensures
        r == has_prefix(v@, prefix@),
{
    let p = chars_of(prefix);
    if p.len() > v.len() {
        return false;
    }
    let mut i: usize = 0;
    while i < p.len()
        invariant
            i <= p.len() <= v.len(),
            p@ == prefix@,
            forall|j: int| 0 <= j < i ==> p[j] == v[j],
        decreases p.len() - i,
    {
        if p[i] != v[i] {
            assert(v@.take(p.len() as int)[i as int] != p@[i as int]);
            return false;
        }
        i = i + 1;
    }
    assert(v@.take(p.len() as int) =~= p@);
    true
}

/// The first position of `c`, or the length where `c` does not occur.
pub open spec fn first_index(s: Seq<char>, c: char) -> int
    decreases s.len(),
{
    if s.len() == 0 || s[0] == c {
        0
    } else {
        1 + first_index(s.skip(1), c)
    }
}

/// What the first position of a character is.
pub proof fn first_index_is(s: Seq<char>, c: char, i: int)
    requires
        0 <= i <= s.len(),
        forall|j: int| 0 <= j < i ==> s[j] != c,
        i < s.len() ==> s[i] == c,
    ensures
        first_index(s, c) == i,
    decreases s.len(),
{
    if i > 0 {
        assert forall|j: int| 0 <= j < i - 1 implies s.skip(1)[j] != c by {
            assert(s.skip(1)[j] == s[j + 1]);
        }
        first_index_is(s.skip(1), c, i - 1);
    }
}

/// Finds the first position of a character.
pub fn find_first(v: &Vec<char>, c: char) -> (r: usize)
    ensures
        r == first_index(v@, c),
        r <= v.len(),
        forall|j: int| 0 <= j < r ==> v[j] != c,
        r < v.len() ==> v[r as int] == c,
{
    let mut i: usize = 0;
    while i < v.len() && v[i] != c
        invariant
            i <= v.len(),
            forall|j: int| 0 <= j < i ==> v[j] != c,
        decreases v.len() - i,
    {
        i = i + 1;
    }
    proof {
        first_index_is(v@, c, i as int);
    }
    i
}

/// The position behind the last occurrence of `c`, or zero where `c` does not occur.
pub open spec fn after_last(s: Seq<char>, c: char) -> int
    decreases s.len(),
{
    if s.len() == 0 {
        0
    } else if s.last() == c {
        s.len() as int
    } else {
        after_last(s.drop_last(), c)
    }
}

/// Finds the position behind the last occurrence of a character.
pub fn find_after_last(v: &Vec<char>, c: char) -> (r: usize)
    ensures
        r == after_last(v@, c),
        r <= v.len(),
{
    let mut i: usize = v.len();
    assert(v@.take(v.len() as int) =~= v@);
    while i > 0 && v[i - 1] != c
        invariant
            i <= v.len(),
            after_last(v@, c) == after_last(v@.take(i as int), c),
        decreases i,
    {
        assert(v@.take(i as int).drop_last() =~= v@.take(i - 1));
        i = i - 1;
    }
    i
}

/// The parts of a text between separators.
pub open spec fn split(s: Seq<char>, c: char) -> Seq<Seq<char>>
    decreases s.len(),
{
    let i = first_index(s, c);
    if 0 <= i < s.len() {
        seq![s.take(i)] + split(s.skip(i + 1), c)
    } else {
        seq![s]
    }
}

/// The texts of strings.
pub open spec fn texts(v: Seq<String>) -> Seq<Seq<char>> {
    v.map_values(|s: String| s@)
}

/// Takes a text apart at separators.
pub fn split_text(v: &Vec<char>, c: char) -> (parts: Vec<String>)
    ensures
        texts(parts@) == split(v@, c),
{
    let mut parts: Vec<String> = Vec::new();
    let mut from: usize = 0;
    let mut i: usize = 0;
    assert(v@.skip(0) =~= v@);
    assert(texts(parts@) + split(v@, c) =~= split(v@, c));
    while i < v.len()
        invariant
            from <= i <= v.len(),
            forall|j: int| from <= j < i ==> v@[j] != c,
            texts(parts@) + split(v@.skip(from as int), c) == split(v@, c),
        decreases v.len() - i,
    {
        if v[i] == c {
            let part = text_of(vstd::slice::slice_subrange(v.as_slice(), from, i));
            proof {
                let rest = v@.skip(from as int);
                first_index_is(rest, c, i - from);
                assert(part@ =~= rest.take(i - from));
                assert(rest.skip(i - from + 1) =~= v@.skip(i + 1));
                assert(texts(parts@.push(part)) =~= texts(parts@).push(part@));
                assert(texts(parts@.push(part)) + split(v@.skip(i + 1), c) =~= texts(parts@) + (
                seq![part@] + split(v@.skip(i + 1), c)));
            }
            parts.push(part);
            from = i + 1;
        }
        i = i + 1;
    }
    let part = text_of(vstd::slice::slice_subrange(v.as_slice(), from, i));
    proof {
        let rest = v@.skip(from as int);
        first_index_is(rest, c, i - from);
        assert(part@ =~= rest);
        assert(texts(parts@.push(part)) =~= texts(parts@).push(part@));
        assert(texts(parts@) + seq![part@] =~= texts(parts@).push(part@));
    }
    parts.push(part);
    parts
}

/// Whether a character occurs in a text.
pub fn contains_char(v: &Vec<char>, c: char) -> (r: bool)
    ensures
        r == v@.contains(c),
{
    let at: usize = find_first(v, c);
    assert(v@.contains(c) ==> exists|j: int| 0 <= j < v.len() && v[j] == c);
    at < v.len()
}

/// Every decimal text denotes the number it was made from.
pub proof fn decimal_is_read_back(n: nat)
    ensures
        is_digits(decimal(n)),
        digits_value(decimal(n)) == n,
        natural_text(decimal(n)) == Some(n as int),
    decreases n,
{
    if n >= 10 {
        decimal_is_read_back(n / 10);
        let front = decimal(n / 10);
        let c = ('0' as int + n % 10) as char;
        assert(front.push(c).drop_last() =~= front);
        assert(front.push(c).last() == c);
        assert forall|i: int| 0 <= i < decimal(n).len() implies is_digit(#[trigger] decimal(n)[i]) by {
            if i < front.len() {
                assert(decimal(n)[i] == front[i]);
            }
        }
    } else {
        let c = ('0' as int + n) as char;
        assert(decimal(n) =~= seq![c]);
        assert(decimal(n).drop_last() =~= Seq::<char>::empty());
        assert(digits_value(Seq::<char>::empty()) == 0);
        assert(decimal(n).last() == c);
    }
    assert(decimal(n)[0] != '+') by {
        assert(is_digit(decimal(n)[0]));
    }
}

/// A byte is read back from its two hexadecimal digits.
pub proof fn hex_byte_is_read_back(n: int)
    requires
        0 <= n < 256,
    ensures
        hex_text(hex_byte(n)) == Some(n),
{
    let s = hex_byte(n);
    let head = s.drop_last();
    assert(s[0] != '+');
    assert(hex_value(hex_digit(n / 16)) == Some(n / 16));
    assert(hex_value(hex_digit(n % 16)) == Some(n % 16));
    assert(head.drop_last() =~= Seq::empty());
    assert(head.last() == hex_digit(n / 16));
    assert(s.last() == hex_digit(n % 16));
    assert(hex_number(head.drop_last()) == 0);
    assert(hex_number(head) == n / 16);
    assert(hex_number(s) == n);
}

/// Every decimal form of an integer denotes the number it was made from, and holds digits and at most a
/// sign.
pub proof fn integer_is_read_back(n: int)
    ensures
        integer_text(decimal_int(n)) == Some(n),
        forall|i: int|
            0 <= i < decimal_int(n).len() ==> is_digit(#[trigger] decimal_int(n)[i]) || decimal_int(
                n,
            )[i] == '-',
{
    if n < 0 {
        decimal_is_read_back((-n) as nat);
        let s = decimal_int(n);
        assert(s.skip(1) =~= decimal((-n) as nat));
        assert forall|i: int| 0 <= i < s.len() implies is_digit(#[trigger] s[i]) || s[i] == '-' by {
            if i > 0 {
                assert(s[i] == decimal((-n) as nat)[i - 1]);
            }
        }
    } else {
        decimal_is_read_back(n as nat);
        assert(is_digit(decimal(n as nat)[0]));
    }
}

/// Parts put together with a separator between them.
pub open spec fn joined(parts: Seq<Seq<char>>, c: char) -> Seq<char>
    decreases parts.len(),
{
    if parts.len() == 0 {
        Seq::empty()
    } else if parts.len() == 1 {
        parts[0]
    } else {
        parts[0] + seq![c] + joined(parts.skip(1), c)
    }
}

/// Taking apart undoes putting together, where no part holds the separator.
pub proof fn splitting_undoes_joining(parts: Seq<Seq<char>>, c: char)
    requires
        parts.len() > 0,
        forall|i: int| 0 <= i < parts.len() ==> !(#[trigger] parts[i]).contains(c),
    ensures
        split(joined(parts, c), c) == parts,
    decreases parts.len(),
{
    let s = joined(parts, c);
    let n = parts[0].len() as int;
    assert forall|j: int| 0 <= j < n implies s[j] != c by {
        assert(s[j] == parts[0][j]);
        assert(parts[0].contains(parts[0][j]));
    }
    first_index_is(s, c, n);
    if parts.len() > 1 {
        let rest = parts.skip(1);
        assert forall|i: int| 0 <= i < rest.len() implies !(#[trigger] rest[i]).contains(c) by {
            assert(rest[i] == parts[i + 1]);
        }
        splitting_undoes_joining(rest, c);
        assert(s.take(n) =~= parts[0]);
        assert(s.skip(n + 1) =~= joined(rest, c));
        assert(seq![parts[0]] + rest =~= parts);
    } else {
        assert(seq![s] =~= parts);
    }
}

/// NUL characters behind a text are dropped, and nothing else is.
pub proof fn padding_is_dropped(text: Seq<char>, padded: Seq<char>)
    requires
        text.len() == 0 || text.last() != '\0',
        padded.len() >= text.len(),
        padded.take(text.len() as int) == text,
        forall|i: int| text.len() <= i < padded.len() ==> #[trigger] padded[i] == '\0',
    ensures
        trim_nul(padded) == text,
    decreases padded.len(),
{
    if padded.len() > text.len() {
        let shorter = padded.drop_last();
        assert(padded.last() == '\0');
        assert(shorter.take(text.len() as int) =~= padded.take(text.len() as int));
        padding_is_dropped(text, shorter);
    } else {
        assert(padded.take(text.len() as int) =~= padded);
    }
}

/// A field holds the bytes up to its first NUL, whatever comes behind that.
pub proof fn field_ends_at_its_first_nul(text: Seq<u8>, behind: Seq<u8>)
    requires
        forall|i: int| 0 <= i < text.len() ==> #[trigger] text[i] != 0,
    ensures
        before_nul(text) == text,
        before_nul(text + seq![0u8] + behind) == text,
{
    before_nul_is(text, text.len() as int);
    assert(text.take(text.len() as int) =~= text);
    let all = text + seq![0u8] + behind;
    assert forall|i: int| 0 <= i < text.len() implies all[i] != 0 by {
        assert(all[i] == text[i]);
    }
    before_nul_is(all, text.len() as int);
    assert(all.take(text.len() as int) =~= text);
}

/// A character beyond the first 65536 is read back from its pair of surrogates, and every other one but
/// the surrogates from its own number.
pub proof fn wide_characters_are_read_back(n: int, rest: Seq<u16>)
    requires
        0 <= n < 0x11_0000,
        !(0xd800 <= n < 0xe000),
    ensures
        n >= 0x1_0000 ==> utf16_text(
            seq![
                (0xd800 + (n - 0x1_0000) / 0x400) as u16,
                (0xdc00 + (n - 0x1_0000) % 0x400) as u16,
            ] + rest,
        ) == seq![n as char] + utf16_text(rest),
        n < 0x1_0000 ==> utf16_text(seq![n as u16] + rest) == seq![n as char] + utf16_text(rest),
{
    if n >= 0x1_0000 {
        let high = (0xd800 + (n - 0x1_0000) / 0x400) as u16;
        let low = (0xdc00 + (n - 0x1_0000) % 0x400) as u16;
        let units = seq![high, low] + rest;
        assert(high == 0xd800 + (n - 0x1_0000) / 0x400);
        assert(low == 0xdc00 + (n - 0x1_0000) % 0x400);
        assert(units.skip(2) =~= rest);
        assert(units[0] == high && units[1] == low);
        assert(0x10000 + 0x400 * (units[0] - 0xd800) + (units[1] - 0xdc00) == n);
    } else {
        let units = seq![n as u16] + rest;
        assert(units.skip(1) =~= rest);
        assert(units[0] == n);
    }
}

} // verus!
