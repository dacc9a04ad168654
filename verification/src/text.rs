//! Strings as sequences of characters: splitting at a separator, and reading
//! and writing numbers in decimal.

use vstd::prelude::*;

verus! {

/// The characters of a string.
pub fn chars_of(s: &str) -> (chars: Vec<char>)
    ensures
        chars@ == s@,
{
    let mut chars: Vec<char> = Vec::new();
    for c in it: s.chars()
        invariant
            chars@ == it.seq().take(it.index() as int),
            it.seq() == s@,
    {
        chars.push(c);
        assert(it.seq().take(it.index() + 1) =~= it.seq().take(it.index() as int).push(c));
    }
    assert(chars@ =~= s@);
    chars
}

/// The fields of `s` between the occurrences of `sep`. There is always at
/// least one field; a field may be empty.
pub open spec fn split(s: Seq<char>, sep: char) -> Seq<Seq<char>>
    decreases s.len(),
{
    match s.index_of_first(sep) {
        Some(at) => if 0 <= at < s.len() {
            seq![s.take(at)] + split(s.skip(at + 1), sep)
        } else {
            seq![s]
        },
        None => seq![s],
    }
}

/// Where `sep` first occurs in `s`, if it does: the place that an index with
/// no earlier occurrence before it names.
pub proof fn lemma_first_index(s: Seq<char>, sep: char, at: int)
    requires
        0 <= at <= s.len(),
        forall|j: int| 0 <= j < at ==> s[j] != sep,
        at < s.len() ==> s[at] == sep,
    ensures
        at < s.len() ==> s.index_of_first(sep) == Some(at),
        at == s.len() ==> s.index_of_first(sep) is None,
{
    s.index_of_first_ensures(sep);
    if at < s.len() {
        assert(s.contains(sep));
    }
}

/// The fields of a string between the occurrences of `sep`.
pub fn split_on(s: &str, sep: char) -> (fields: Vec<String>)
    ensures
        fields.deep_view() == split(s@, sep),
        fields.len() >= 1,
{
    let chars = chars_of(s);
    let mut fields: Vec<String> = Vec::new();
    let mut start: usize = 0;
    let mut i: usize = 0;
    assert(s@.skip(0) =~= s@);
    assert(fields.deep_view() + split(s@, sep) =~= split(s@, sep));
    while i < chars.len()
        invariant
            chars@ == s@,
            start <= i <= chars.len(),
            forall|j: int| start <= j < i ==> chars@[j] != sep,
            split(s@, sep) == fields.deep_view() + split(s@.skip(start as int), sep),
        decreases chars.len() - i,
    {
        if chars[i] == sep {
            let field = s.substring_char(start, i).to_owned();
            proof {
                let rest = s@.skip(start as int);
                lemma_first_index(rest, sep, i - start);
                assert(rest.take(i - start) =~= s@.subrange(start as int, i as int));
                assert(rest.skip(i - start + 1) =~= s@.skip(i + 1));
                assert(fields.deep_view().push(field@) + split(s@.skip(i + 1), sep) =~= fields.deep_view()
                    + split(rest, sep));
            }
            let ghost before = fields.deep_view();
            fields.push(field);
            assert(fields.deep_view() =~= before.push(field@));
            start = i + 1;
        }
        i += 1;
    }
    let field = s.substring_char(start, i).to_owned();
    proof {
        let rest = s@.skip(start as int);
        lemma_first_index(rest, sep, i - start);
        assert(rest =~= s@.subrange(start as int, i as int));
        assert(fields.deep_view().push(field@) =~= fields.deep_view() + split(rest, sep));
    }
    let ghost before = fields.deep_view();
    fields.push(field);
    assert(fields.deep_view() =~= before.push(field@));
    fields
}

pub open spec fn is_digit(c: char) -> bool {
    '0' <= c && c <= '9'
}

/// A string of decimal digits, and at least one.
pub open spec fn is_number(s: Seq<char>) -> bool {
    s.len() > 0 && forall|i: int| 0 <= i < s.len() ==> is_digit(#[trigger] s[i])
}

/// The number that a string of decimal digits stands for.
pub open spec fn number_value(s: Seq<char>) -> int
    decreases s.len(),
{
    if s.len() == 0 {
        0
    } else {
        number_value(s.drop_last()) * 10 + (s.last() as int - '0' as int)
    }
}

/// The integer that a string stands for: decimal digits, with `+` or `-`
/// before them or nothing. Anything else stands for no integer.
pub open spec fn signed_value(s: Seq<char>) -> Option<int> {
    if s.len() > 0 && s[0] == '-' {
        if is_number(s.skip(1)) {
            Some(-number_value(s.skip(1)))
        } else {
            None
        }
    } else {
        unsigned_value(s)
    }
}

/// The natural number that a string stands for: decimal digits, with `+`
/// before them or nothing. Anything else stands for no number.
pub open spec fn unsigned_value(s: Seq<char>) -> Option<int> {
    if s.len() > 0 && s[0] == '+' {
        if is_number(s.skip(1)) {
            Some(number_value(s.skip(1)))
        } else {
            None
        }
    } else if is_number(s) {
        Some(number_value(s))
    } else {
        None
    }
}

/// What a string gives when read as an integer of the given range: the
/// integer it stands for, where it stands for one and that one is in range.
pub open spec fn value_within(value: Option<int>, low: int, high: int) -> Option<int> {
    match value {
        Some(v) => if low <= v <= high {
            Some(v)
        } else {
            None
        },
        None => None,
    }
}

/// The value of a digit, where the character is one.
fn digit_of(c: char) -> (digit: Option<u8>)
    ensures
        digit is Some == is_digit(c),
        digit matches Some(d) ==> d == c as int - '0' as int,
{
    if c == '0' {
        Some(0)
    } else if c == '1' {
        Some(1)
    } else if c == '2' {
        Some(2)
    } else if c == '3' {
        Some(3)
    } else if c == '4' {
        Some(4)
    } else if c == '5' {
        Some(5)
    } else if c == '6' {
        Some(6)
    } else if c == '7' {
        Some(7)
    } else if c == '8' {
        Some(8)
    } else if c == '9' {
        Some(9)
    } else {
        None
    }
}

/// A string of digits stands for no less than each of its beginnings.
proof fn lemma_number_value_grows(s: Seq<char>, n: int)
    requires
        0 <= n <= s.len(),
        forall|i: int| 0 <= i < s.len() ==> is_digit(#[trigger] s[i]),
    ensures
        0 <= number_value(s.take(n)) <= number_value(s),
    decreases s.len(),
{
    if s.len() == 0 {
        assert(s.take(n) =~= s);
    } else if n == s.len() {
        assert(s.take(n) =~= s);
        lemma_number_value_grows(s.drop_last(), n - 1);
        assert(s.drop_last().take(n - 1) =~= s.drop_last());
        assert(is_digit(s[s.len() - 1]));
    } else {
        lemma_number_value_grows(s.drop_last(), n);
        assert(s.drop_last().take(n) =~= s.take(n));
        assert(is_digit(s[s.len() - 1]));
    }
}

/// Reads the digits from `start` to the end as a number up to `max`.
fn parse_number(chars: &Vec<char>, start: usize, max: u64) -> (value: Option<u64>)
    requires
        start <= chars.len(),
    ensures
        value is Some == (is_number(chars@.skip(start as int)) && number_value(
            chars@.skip(start as int),
        ) <= max),
        value matches Some(v) ==> v == number_value(chars@.skip(start as int)),
{
    let ghost digits = chars@.skip(start as int);
    if start == chars.len() {
        return None;
    }
    let mut value: u64 = 0;
    let mut i: usize = start;
    assert(digits.take(0) =~= Seq::<char>::empty());
    while i < chars.len()
        invariant
            start <= i <= chars.len(),
            start < chars.len(),
            digits == chars@.skip(start as int),
            forall|j: int| 0 <= j < i - start ==> is_digit(#[trigger] digits[j]),
            value == number_value(digits.take(i - start)),
            value <= max,
        decreases chars.len() - i,
    {
        let digit = match digit_of(chars[i]) {
            Some(digit) => digit,
            None => {
                assert(!is_digit(digits[i - start]));
                return None;
            },
        };
        proof {
            let next = digits.take(i - start + 1);
            assert(next.drop_last() =~= digits.take(i - start));
            assert(next.last() == chars@[i as int]);
        }
        let wide: u128 = (value as u128) * 10 + (digit as u128);
        if wide > max as u128 {
            proof {
                if is_number(digits) {
                    lemma_number_value_grows(digits, i - start + 1);
                }
            }
            return None;
        }
        value = wide as u64;
        i += 1;
    }
    assert(digits.take(i - start) =~= digits);
    Some(value)
}

/// Reads a string as an integer from `low` to `high`: decimal digits with
/// `+` or `-` before them or nothing, and nothing else. Gives nothing where
/// the string stands for no integer, or for one that is out of range.
fn parse_integer(s: &str, low: i64, high: i64) -> (value: Option<i64>)
    requires
        low <= 0 <= high,
    ensures
        value is Some == value_within(signed_value(s@), low as int, high as int) is Some,
        value matches Some(v) ==> Some(v as int) == signed_value(s@),
{
    let chars = chars_of(s);
    if chars.len() > 0 && chars[0] == '-' {
        let most: u64 = if low == i64::MIN {
            0x8000_0000_0000_0000
        } else {
            (-low) as u64
        };
        match parse_number(&chars, 1, most) {
            Some(size) => if size == 0x8000_0000_0000_0000 {
                Some(i64::MIN)
            } else {
                Some(-(size as i64))
            },
            None => None,
        }
    } else if chars.len() > 0 && chars[0] == '+' {
        match parse_number(&chars, 1, high as u64) {
            Some(size) => Some(size as i64),
            None => None,
        }
    } else {
        assert(chars@.skip(0) =~= chars@);
        match parse_number(&chars, 0, high as u64) {
            Some(size) => Some(size as i64),
            None => None,
        }
    }
}

/// Reads a string as an integer of 64 bits.
pub fn parse_i64(s: &str) -> (value: Option<i64>)
    ensures
        value is Some == value_within(signed_value(s@), i64::MIN as int, i64::MAX as int) is Some,
        value matches Some(v) ==> Some(v as int) == signed_value(s@),
{
    parse_integer(s, i64::MIN, i64::MAX)
}

/// Reads a string as an integer of 32 bits.
pub fn parse_i32(s: &str) -> (value: Option<i32>)
    ensures
        value is Some == value_within(signed_value(s@), i32::MIN as int, i32::MAX as int) is Some,
        value matches Some(v) ==> Some(v as int) == signed_value(s@),
{
    match parse_integer(s, -0x8000_0000, 0x7fff_ffff) {
        Some(v) => Some(v as i32),
        None => None,
    }
}

/// Reads a string as a number up to 255: decimal digits with `+` before them
/// or nothing, and nothing else.
pub fn parse_u8(s: &str) -> (value: Option<u8>)
    ensures
        value is Some == value_within(unsigned_value(s@), 0, u8::MAX as int) is Some,
        value matches Some(v) ==> Some(v as int) == unsigned_value(s@),
{
    let chars = chars_of(s);
    let start: usize = if chars.len() > 0 && chars[0] == '+' {
        1
    } else {
        0
    };
    assert(chars@.skip(0) =~= chars@);
    match parse_number(&chars, start, 255) {
        Some(v) => Some(v as u8),
        None => None,
    }
}

/// What `str::to_lowercase` makes of a string: its lower-case form by the
/// rules of Unicode.
pub uninterp spec fn lowercase(s: Seq<char>) -> Seq<char>;

/// `str::to_lowercase`.
#[verifier::external_body]
pub(crate) fn to_lowercase(s: &str) -> (lower: String)
    ensures
        lower@ == lowercase(s@),
{
    s.to_lowercase()
}

/// Whether two strings hold the same characters.
pub fn same_text(a: &str, b: &str) -> (same: bool)
    ensures
        same == (a@ == b@),
{
    let left = chars_of(a);
    let right = chars_of(b);
    if left.len() != right.len() {
        return false;
    }
    let mut i: usize = 0;
    while i < left.len()
        invariant
            left@ == a@,
            right@ == b@,
            left.len() == right.len(),
            i <= left.len(),
            forall|j: int| 0 <= j < i ==> left@[j] == right@[j],
        decreases left.len() - i,
    {
        if left[i] != right[i] {
            return false;
        }
        i += 1;
    }
    assert(left@ =~= right@);
    true
}

/// Where `sep` last occurs in `s`, if it does: the place that an index with
/// no later occurrence behind it names.
pub proof fn lemma_last_index(s: Seq<char>, sep: char, at: int)
    requires
        -1 <= at < s.len(),
        forall|j: int| at < j < s.len() ==> s[j] != sep,
        at >= 0 ==> s[at] == sep,
    ensures
        at >= 0 ==> s.index_of_last(sep) == Some(at),
        at < 0 ==> s.index_of_last(sep) is None,
{
    s.index_of_last_ensures(sep);
    if at >= 0 {
        assert(s.contains(sep));
    }
}

/// Where `sep` last occurs in a string, counted in characters.
pub fn last_index_of(s: &str, sep: char) -> (at: Option<usize>)
    ensures
        at is Some == s@.index_of_last(sep) is Some,
        at matches Some(i) ==> s@.index_of_last(sep) == Some(i as int) && i < s@.len(),
{
    let chars = chars_of(s);
    let mut i: usize = chars.len();
    while i > 0
        invariant
            chars@ == s@,
            i <= chars.len(),
            forall|j: int| i <= j < chars.len() ==> chars@[j] != sep,
        decreases i,
    {
        i -= 1;
        if chars[i] == sep {
            proof {
                lemma_last_index(s@, sep, i as int);
            }
            return Some(i);
        }
    }
    proof {
        lemma_last_index(s@, sep, -1);
    }
    None
}

/// A copy of a list of strings.
pub fn clone_strings(list: &Vec<String>) -> (copy: Vec<String>)
    ensures
        copy.deep_view() == list.deep_view(),
{
    let mut copy: Vec<String> = Vec::new();
    let mut i: usize = 0;
    while i < list.len()
        invariant
            i <= list.len(),
            copy.len() == i,
            forall|j: int| 0 <= j < i ==> copy@[j]@ == list@[j]@,
        decreases list.len() - i,
    {
        copy.push(list[i].clone());
        i += 1;
    }
    assert(copy.deep_view() =~= list.deep_view());
    copy
}

/// The character for a digit.
pub open spec fn digit_char(digit: int) -> char {
    if digit == 0 {
        '0'
    } else if digit == 1 {
        '1'
    } else if digit == 2 {
        '2'
    } else if digit == 3 {
        '3'
    } else if digit == 4 {
        '4'
    } else if digit == 5 {
        '5'
    } else if digit == 6 {
        '6'
    } else if digit == 7 {
        '7'
    } else if digit == 8 {
        '8'
    } else {
        '9'
    }
}

/// A natural number written in decimal, without leading zeros.
pub open spec fn decimal(n: nat) -> Seq<char>
    decreases n,
{
    if n < 10 {
        seq![digit_char(n as int)]
    } else {
        decimal(n / 10).push(digit_char((n % 10) as int))
    }
}

/// A natural number written in decimal with at least two digits.
pub open spec fn two_digits(n: nat) -> Seq<char> {
    if n < 10 {
        seq!['0'] + decimal(n)
    } else {
        decimal(n)
    }
}

fn digit_str(digit: u64) -> (s: &'static str)
    requires
        digit < 10,
    ensures
        s@ == seq![digit_char(digit as int)],
{
    proof {
        reveal_strlit("0");
        reveal_strlit("1");
        reveal_strlit("2");
        reveal_strlit("3");
        reveal_strlit("4");
        reveal_strlit("5");
        reveal_strlit("6");
        reveal_strlit("7");
        reveal_strlit("8");
        reveal_strlit("9");
    }
    let s = if digit == 0 {
        "0"
    } else if digit == 1 {
        "1"
    } else if digit == 2 {
        "2"
    } else if digit == 3 {
        "3"
    } else if digit == 4 {
        "4"
    } else if digit == 5 {
        "5"
    } else if digit == 6 {
        "6"
    } else if digit == 7 {
        "7"
    } else if digit == 8 {
        "8"
    } else {
        "9"
    };
    assert(s@ =~= seq![digit_char(digit as int)]);
    s
}

/// Writes a number in decimal behind what a string holds.
pub fn append_decimal(s: &mut String, n: u64)
    ensures
        final(s)@ == old(s)@ + decimal(n as nat),
    decreases n,
{
    if n >= 10 {
        append_decimal(s, n / 10);
    }
    s.append(digit_str(n % 10));
    proof {
        if n >= 10 {
            assert(old(s)@ + decimal((n / 10) as nat) + seq![digit_char((n % 10) as int)] =~= old(
                s,
            )@ + decimal(n as nat));
        } else {
            assert(old(s)@ + seq![digit_char((n % 10) as int)] =~= old(s)@ + decimal(n as nat));
        }
    }
}

/// Writes a number in decimal, with at least two digits, behind what a string
/// holds.
pub fn append_two_digits(s: &mut String, n: u64)
    ensures
        final(s)@ == old(s)@ + two_digits(n as nat),
{
    if n < 10 {
        s.append(digit_str(0));
    }
    append_decimal(s, n);
    proof {
        if n < 10 {
            assert(old(s)@ + seq!['0'] + decimal(n as nat) =~= old(s)@ + two_digits(n as nat));
        }
    }
}

} // verus!
