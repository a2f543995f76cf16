//! Character-level helpers: UUID comparison, substring search, trimming,
//! and decimal numbers written and read.

use vstd::prelude::*;
use vstd::string::{StrSliceExecFns, StringExecFns};

verus! {

/// The lower-case form of a hexadecimal letter; any other character unchanged.
pub open spec fn fold_hex(c: char) -> char {
    if c == 'A' {
        'a'
    } else if c == 'B' {
        'b'
    } else if c == 'C' {
        'c'
    } else if c == 'D' {
        'd'
    } else if c == 'E' {
        'e'
    } else if c == 'F' {
        'f'
    } else {
        c
    }
}

/// A text with each of its hexadecimal letters in lower case.
pub open spec fn fold_hex_text(s: Seq<char>) -> Seq<char> {
    s.map_values(|c: char| fold_hex(c))
}

/// Two UUID texts name the same UUID when they differ at most in the case of
/// their hexadecimal letters.
pub open spec fn same_uuid(a: Seq<char>, b: Seq<char>) -> bool {
    fold_hex_text(a) == fold_hex_text(b)
}

/// `needle` stands in `hay` at position `at`.
pub open spec fn occurs_at(hay: Seq<char>, needle: Seq<char>, at: int) -> bool {
    &&& 0 <= at
    &&& at + needle.len() <= hay.len()
    &&& hay.subrange(at, at + needle.len()) == needle
}

/// `needle` stands somewhere in `hay`, letter for letter.
pub open spec fn has_substring(hay: Seq<char>, needle: Seq<char>) -> bool {
    exists|at: int| occurs_at(hay, needle, at)
}

/// The characters of a string slice, in order.
pub fn chars_of(s: &str) -> (v: Vec<char>)
    ensures
        v@ == s@,
{
    broadcast use vstd::string::group_string_axioms;

    let mut v: Vec<char> = Vec::new();
    for c in it: s.chars()
        invariant
            it.seq() == s@,
            v@ == s@.take(it.index()),
    {
        assert(s@.take(it.index() + 1) == s@.take(it.index()).push(c));
        v.push(c);
    }
    assert(s@.take(s@.len() as int) == s@);
    v
}

/// Lower-cases one hexadecimal letter.
pub fn fold_hex_char(c: char) -> (r: char)
    ensures
        r == fold_hex(c),
{
    if c == 'A' {
        'a'
    } else if c == 'B' {
        'b'
    } else if c == 'C' {
        'c'
    } else if c == 'D' {
        'd'
    } else if c == 'E' {
        'e'
    } else if c == 'F' {
        'f'
    } else {
        c
    }
}

/// Compares two UUID texts, ignoring the case of hexadecimal letters.
pub fn uuid_matches(a: &str, b: &str) -> (r: bool)
    ensures
        r == same_uuid(a@, b@),
{
    let x = chars_of(a);
    let y = chars_of(b);
    if x.len() != y.len() {
        assert(fold_hex_text(a@).len() != fold_hex_text(b@).len());
        return false;
    }
    let mut i: usize = 0;
    while i < x.len()
        invariant
            i <= x.len(),
            x.len() == y.len(),
            x@ == a@,
            y@ == b@,
            forall|j: int| 0 <= j < i ==> fold_hex(x@[j]) == fold_hex(y@[j]),
        decreases x.len() - i,
    {
        if fold_hex_char(x[i]) != fold_hex_char(y[i]) {
            assert(fold_hex_text(a@)[i as int] != fold_hex_text(b@)[i as int]);
            return false;
        }
        i = i + 1;
    }
    assert(fold_hex_text(a@) =~= fold_hex_text(b@));
    true
}

/// Whether `needle` stands in `hay` at index `at`.
fn matches_at(hay: &Vec<char>, needle: &Vec<char>, at: usize) -> (r: bool)
    requires
        at + needle.len() <= hay.len(),
    ensures
        r == occurs_at(hay@, needle@, at as int),
{
    let mut j: usize = 0;
    while j < needle.len()
        invariant
            j <= needle.len(),
            at + needle.len() <= hay.len(),
            forall|k: int| 0 <= k < j ==> hay@[at + k] == needle@[k],
        decreases needle.len() - j,
    {
        if hay[at + j] != needle[j] {
            assert(hay@.subrange(at as int, at + needle.len())[j as int] != needle@[j as int]);
            return false;
        }
        j = j + 1;
    }
    assert(hay@.subrange(at as int, at + needle.len()) =~= needle@);
    true
}

/// Case-sensitive substring test.
pub fn contains_substring(hay: &str, needle: &str) -> (r: bool)
    ensures
        r == has_substring(hay@, needle@),
{
    let x = chars_of(hay);
    let y = chars_of(needle);
    if y.len() > x.len() {
        return false;
    }
    let last: usize = x.len() - y.len();
    let mut at: usize = 0;
    while at < last
        invariant
            at <= last,
            last == x.len() - y.len(),
            y.len() <= x.len(),
            x@ == hay@,
            y@ == needle@,
            forall|k: int| 0 <= k < at ==> !occurs_at(x@, y@, k),
        decreases last - at,
    {
        if matches_at(&x, &y, at) {
            return true;
        }
        at = at + 1;
    }
    matches_at(&x, &y, last)
}

/// Equality of texts.
pub fn same_text(a: &str, b: &str) -> (r: bool)
    ensures
        r == (a@ == b@),
{
    let x = chars_of(a);
    let y = chars_of(b);
    if x.len() != y.len() {
        return false;
    }
    let mut i: usize = 0;
    while i < x.len()
        invariant
            i <= x.len(),
            x.len() == y.len(),
            x@ == a@,
            y@ == b@,
            forall|j: int| 0 <= j < i ==> x@[j] == y@[j],
        decreases x.len() - i,
    {
        if x[i] != y[i] {
            return false;
        }
        i = i + 1;
    }
    assert(x@ =~= y@);
    true
}

/// Comparison of UUID texts is reflexive, symmetric and transitive, so the
/// texts fall into classes that each name one UUID.
pub proof fn lemma_same_uuid_is_equivalence(a: Seq<char>, b: Seq<char>, c: Seq<char>)
    ensures
        same_uuid(a, a),
        same_uuid(a, b) ==> same_uuid(b, a),
        same_uuid(a, b) && same_uuid(b, c) ==> same_uuid(a, c),
{
}

/// A text is the same UUID as its own lower-cased form.
pub proof fn lemma_same_uuid_ignores_case(a: Seq<char>)
    ensures
        same_uuid(a, fold_hex_text(a)),
{
    assert(fold_hex_text(fold_hex_text(a)) =~= fold_hex_text(a));
}

/// The decimal digit of a number below ten.
pub open spec fn digit(d: nat) -> char {
    if d == 0 {
        '0'
    } else if d == 1 {
        '1'
    } else if d == 2 {
        '2'
    } else if d == 3 {
        '3'
    } else if d == 4 {
        '4'
    } else if d == 5 {
        '5'
    } else if d == 6 {
        '6'
    } else if d == 7 {
        '7'
    } else if d == 8 {
        '8'
    } else {
        '9'
    }
}

/// A number in decimal, without leading zeros.
pub open spec fn decimal(n: nat) -> Seq<char>
    decreases n,
{
    if n < 10 {
        seq![digit(n)]
    } else {
        decimal(n / 10).push(digit(n % 10))
    }
}

/// A number in decimal, with a minus sign in front where it is negative.
pub open spec fn signed_decimal(n: int) -> Seq<char> {
    if n < 0 {
        seq!['-'] + decimal((-n) as nat)
    } else {
        decimal(n as nat)
    }
}

/// One decimal digit as a string slice.
fn digit_text(d: u64) -> (text: &'static str)
    requires
        d < 10,
    ensures
        text@ == seq![digit(d as nat)],
{
    proof {
        reveal_strlit("0");
        reveal_strlit("1");
        reveal_strlit("2");
        reveal_strlit("3");
        reveal_strlit("4");
        reveal_strlit("5");
        reveal_strlit("6");
        reveal_strlit("7");
        reveal_strlit("8");
        reveal_strlit("9");
    }
    let text = if d == 0 {
        "0"
    } else if d == 1 {
        "1"
    } else if d == 2 {
        "2"
    } else if d == 3 {
        "3"
    } else if d == 4 {
        "4"
    } else if d == 5 {
        "5"
    } else if d == 6 {
        "6"
    } else if d == 7 {
        "7"
    } else if d == 8 {
        "8"
    } else {
        "9"
    };
    assert(text@ =~= seq![digit(d as nat)]);
    text
}

/// Appends a number in decimal.
pub fn push_decimal(out: &mut String, n: u64)
    ensures
        final(out)@ == old(out)@ + decimal(n as nat),
    decreases n,
{
    if n >= 10 {
        push_decimal(out, n / 10);
    }
    out.append(digit_text(n % 10));
    assert(final(out)@ =~= old(out)@ + decimal(n as nat));
}

/// Appends a number in decimal, with its sign where it is negative.
pub fn push_signed_decimal(out: &mut String, n: i32)
    ensures
        final(out)@ == old(out)@ + signed_decimal(n as int),
{
    if n < 0 {
        proof {
            reveal_strlit("-");
        }
        out.append("-");
        let magnitude: u64 = (-(n as i64)) as u64;
        push_decimal(out, magnitude);
        assert(final(out)@ =~= old(out)@ + signed_decimal(n as int));
    } else {
        push_decimal(out, n as u64);
    }
}

/// Blank, tab, line feed or carriage return.
pub open spec fn is_space(c: char) -> bool {
    c == ' ' || c == '\t' || c == '\n' || c == '\r'
}

/// The number of space characters at the front of a text.
pub open spec fn leading_spaces(s: Seq<char>) -> nat
    decreases s.len(),
{
    if s.len() > 0 && is_space(s[0]) {
        1 + leading_spaces(s.drop_first())
    } else {
        0
    }
}

/// The number of space characters at the end of a text.
pub open spec fn trailing_spaces(s: Seq<char>) -> nat
    decreases s.len(),
{
    if s.len() > 0 && is_space(s.last()) {
        1 + trailing_spaces(s.drop_last())
    } else {
        0
    }
}

/// A text without the space characters at its front and, of what is left,
/// without those at its end.
pub open spec fn trimmed(s: Seq<char>) -> Seq<char> {
    let rest = s.skip(leading_spaces(s) as int);
    rest.take(rest.len() - trailing_spaces(rest))
}

/// The spaces counted at the front are spaces, and what follows them is none.
pub proof fn lemma_leading_spaces(s: Seq<char>)
    ensures
        leading_spaces(s) <= s.len(),
        leading_spaces(s) < s.len() ==> !is_space(s[leading_spaces(s) as int]),
    decreases s.len(),
{
    if s.len() > 0 && is_space(s[0]) {
        lemma_leading_spaces(s.drop_first());
    }
}

/// The spaces counted at the end are spaces, and what stands before them
/// is none.
pub proof fn lemma_trailing_spaces(s: Seq<char>)
    ensures
        trailing_spaces(s) <= s.len(),
        trailing_spaces(s) < s.len() ==> !is_space(s[s.len() - 1 - trailing_spaces(s)]),
    decreases s.len(),
{
    if s.len() > 0 && is_space(s.last()) {
        lemma_trailing_spaces(s.drop_last());
    }
}

/// A character that is no space is not among the spaces at the end.
pub proof fn lemma_trailing_spaces_stop(s: Seq<char>, at: int)
    requires
        0 <= at < s.len(),
        !is_space(s[at]),
    ensures
        trailing_spaces(s) <= s.len() - 1 - at,
    decreases s.len(),
{
    if is_space(s.last()) {
        lemma_trailing_spaces_stop(s.drop_last(), at);
    }
}

/// What is left of a text after trimming neither begins nor ends with a
/// space, and is empty only where the text was all spaces.
pub proof fn lemma_trimmed(s: Seq<char>)
    ensures
        trimmed(s).len() > 0 ==> !is_space(trimmed(s)[0]) && !is_space(trimmed(s).last()),
        trimmed(s).len() == 0 <==> leading_spaces(s) == s.len(),
{
    lemma_leading_spaces(s);
    let rest = s.skip(leading_spaces(s) as int);
    lemma_trailing_spaces(rest);
    if rest.len() > 0 {
        lemma_trailing_spaces_stop(rest, 0);
    }
}

/// Whether a character is a space.
pub fn is_space_char(c: char) -> (r: bool)
    ensures
        r == is_space(c),
{
    c == ' ' || c == '\t' || c == '\n' || c == '\r'
}

/// Cuts the spaces off both ends of a line.
pub fn trim_line(line: &str) -> (r: &str)
    ensures
        r@ == trimmed(line@),
{
    let chars = chars_of(line);
    let mut from: usize = 0;
    assert(chars@.skip(0) =~= chars@);
    while from < chars.len() && is_space_char(chars[from])
        invariant
            from <= chars.len(),
            leading_spaces(chars@) == from + leading_spaces(chars@.skip(from as int)),
        decreases chars.len() - from,
    {
        assert(chars@.skip(from as int).drop_first() =~= chars@.skip(from + 1));
        from = from + 1;
    }
    let ghost rest = chars@.skip(from as int);
    let mut to: usize = chars.len();
    assert(chars@.subrange(from as int, to as int) =~= rest);
    while to > from && is_space_char(chars[to - 1])
        invariant
            from <= to <= chars.len(),
            rest == chars@.skip(from as int),
            trailing_spaces(rest) == (chars.len() - to) + trailing_spaces(
                chars@.subrange(from as int, to as int),
            ),
        decreases to,
    {
        assert(chars@.subrange(from as int, to as int).drop_last() =~= chars@.subrange(
            from as int,
            to - 1,
        ));
        to = to - 1;
    }
    assert(chars@.subrange(from as int, to as int) =~= rest.take(
        rest.len() - trailing_spaces(rest),
    ));
    line.substring_char(from, to)
}

/// The value of a decimal digit; nothing for any other character.
pub open spec fn digit_value(c: char) -> Option<nat> {
    if c == '0' {
        Some(0)
    } else if c == '1' {
        Some(1)
    } else if c == '2' {
        Some(2)
    } else if c == '3' {
        Some(3)
    } else if c == '4' {
        Some(4)
    } else if c == '5' {
        Some(5)
    } else if c == '6' {
        Some(6)
    } else if c == '7' {
        Some(7)
    } else if c == '8' {
        Some(8)
    } else if c == '9' {
        Some(9)
    } else {
        None
    }
}

/// The value of a decimal digit.
pub fn digit_value_of(c: char) -> (r: Option<u8>)
    ensures
        match r {
            Some(v) => digit_value(c) == Some(v as nat),
            None => digit_value(c) is None,
        },
{
    if c == '0' {
        Some(0)
    } else if c == '1' {
        Some(1)
    } else if c == '2' {
        Some(2)
    } else if c == '3' {
        Some(3)
    } else if c == '4' {
        Some(4)
    } else if c == '5' {
        Some(5)
    } else if c == '6' {
        Some(6)
    } else if c == '7' {
        Some(7)
    } else if c == '8' {
        Some(8)
    } else if c == '9' {
        Some(9)
    } else {
        None
    }
}

/// Every character of the text is a decimal digit.
pub open spec fn all_digits(s: Seq<char>) -> bool {
    forall|i: int| 0 <= i < s.len() ==> digit_value(#[trigger] s[i]) is Some
}

/// The number that a text of decimal digits writes.
pub open spec fn number_of(s: Seq<char>) -> nat
    decreases s.len(),
{
    if s.len() == 0 {
        0
    } else {
        number_of(s.drop_last()) * 10 + match digit_value(s.last()) {
            Some(v) => v,
            None => 0,
        }
    }
}

/// A text without the plus sign that may stand at its front.
pub open spec fn unsigned_part(s: Seq<char>) -> Seq<char> {
    if s.len() > 0 && s[0] == '+' {
        s.drop_first()
    } else {
        s
    }
}

/// The number that a line holds: spaces at both ends are passed over, a
/// plus sign may stand in front, and what is left must be one decimal digit
/// or more that write a number up to `max`.
pub open spec fn spec_parse_decimal(line: Seq<char>, max: u32) -> Option<u32> {
    let digits = unsigned_part(trimmed(line));
    if digits.len() > 0 && all_digits(digits) && number_of(digits) <= max {
        Some(number_of(digits) as u32)
    } else {
        None
    }
}

/// The number that the first digits of a text write is no larger than the
/// number that the whole text writes.
pub proof fn lemma_number_of_prefix(s: Seq<char>, k: int)
    requires
        0 <= k <= s.len(),
    ensures
        number_of(s.take(k)) <= number_of(s),
    decreases s.len() - k,
{
    if k == s.len() {
        assert(s.take(k) =~= s);
    } else {
        lemma_number_of_prefix(s.drop_last(), k);
        assert(s.drop_last().take(k) =~= s.take(k));
    }
}

/// Reads the number that a line holds.
pub fn parse_decimal(line: &str, max: u32) -> (r: Option<u32>)
    ensures
        r == spec_parse_decimal(line@, max),
{
    let chars = chars_of(trim_line(line));
    let start: usize = if chars.len() > 0 && chars[0] == '+' {
        1
    } else {
        0
    };
    let ghost digits = unsigned_part(chars@);
    assert(digits =~= chars@.skip(start as int));
    if start == chars.len() {
        return None;
    }
    let mut value: u64 = 0;
    let mut i: usize = start;
    assert(digits.take(0) =~= Seq::<char>::empty());
    while i < chars.len()
        invariant
            start <= i <= chars.len(),
            chars@ == trimmed(line@),
            digits == unsigned_part(chars@),
            digits == chars@.skip(start as int),
            all_digits(digits.take(i - start)),
            value == number_of(digits.take(i - start)),
            value <= max,
        decreases chars.len() - i,
    {
        let ghost seen = digits.take(i - start);
        let ghost more = digits.take(i + 1 - start);
        proof {
            assert(more.drop_last() =~= seen);
            assert(more.last() == chars@[i as int]);
        }
        match digit_value_of(chars[i]) {
            None => {
                assert(digit_value(digits[i - start]) is None);
                return None;
            },
            Some(d) => {
                value = value * 10 + d as u64;
                assert(value == number_of(more));
                if value > max as u64 {
                    proof {
                        lemma_number_of_prefix(digits, i + 1 - start);
                    }
                    return None;
                }
                assert forall|j: int| 0 <= j < more.len() implies digit_value(
                    #[trigger] more[j],
                ) is Some by {
                    if j < seen.len() {
                        assert(more[j] == seen[j]);
                    }
                }
            },
        }
        i = i + 1;
    }
    assert(digits.take(chars.len() - start) =~= digits);
    Some(value as u32)
}

/// What is written in decimal is read back as the same number.
pub proof fn lemma_parse_reads_decimal(n: u32, max: u32)
    requires
        n <= max,
    ensures
        spec_parse_decimal(decimal(n as nat), max) == Some(n),
{
    let text = decimal(n as nat);
    lemma_decimal_is_digits(n as nat);
    assert(!is_space(text[0]));
    assert(!is_space(text.last()));
    assert(leading_spaces(text) == 0);
    assert(text.skip(0) =~= text);
    assert(trailing_spaces(text) == 0);
    assert(text.take(text.len() as int) =~= text);
    assert(trimmed(text) == text);
}

/// The decimal form of a number is one digit or more, and writes the number.
pub proof fn lemma_decimal_is_digits(n: nat)
    ensures
        decimal(n).len() > 0,
        all_digits(decimal(n)),
        number_of(decimal(n)) == n,
    decreases n,
{
    reveal_with_fuel(number_of, 2);
    if n < 10 {
        assert(decimal(n).drop_last() =~= Seq::<char>::empty());
    } else {
        lemma_decimal_is_digits(n / 10);
        assert(decimal(n).drop_last() =~= decimal(n / 10));
        assert(digit_value(digit(n % 10)) == Some(n % 10));
    }
}

} // verus!
