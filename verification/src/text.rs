//! Text: decimal numbers, JSON strings and whitespace.

use vstd::prelude::*;

verus! {

/// `String::push` appends one character to the end of the string.
pub assume_specification[ String::push ](string: &mut String, c: char)
    ensures
        final(string)@ == old(string)@.push(c),
;

/// `r` is the outcome `expected`, with the text of its error.
pub open spec fn agrees<T>(r: Result<T, String>, expected: Result<T, Seq<char>>) -> bool {
    match (r, expected) {
        (Ok(value), Ok(wanted)) => value == wanted,
        (Err(error), Err(wanted)) => error@ == wanted,
        _ => false,
    }
}

/// Whether two texts hold the same characters.
pub fn same_text(a: &str, b: &str) -> (same: bool)
    ensures
        same == (a@ == b@),
{
    a.to_owned() == b.to_owned()
}

/// The characters of `text`, one by one.
pub fn characters(text: &str) -> (chars: Vec<char>)
    ensures
        chars@ == text@,
{
    let mut chars: Vec<char> = Vec::new();
    for c in it: text.chars()
        invariant
            chars@ == text@.subrange(0, it.index()),
            it.seq() == text@,
    {
        chars.push(c);
        assert(text@.subrange(0, it.index() + 1) =~= text@.subrange(0, it.index()).push(c));
    }
    assert(text@.subrange(0, text@.len() as int) =~= text@);
    chars
}

// Decimal numbers.

/// The character of the decimal digit `d`.
pub open spec fn digit_char(d: nat) -> char {
    (48 + d) as char
}

/// `n` in decimal, without leading zeros.
pub open spec fn decimal(n: nat) -> Seq<char>
    decreases n,
{
    if n < 10 {
        seq![digit_char(n)]
    } else {
        decimal(n / 10).push(digit_char(n % 10))
    }
}

/// Appends `n` in decimal.
pub fn push_decimal(text: &mut String, n: u64)
    ensures
        final(text)@ == old(text)@ + decimal(n as nat),
    decreases n,
{
    let ghost before = text@;
    if n >= 10 {
        push_decimal(text, n / 10);
    }
    let digit: u8 = (n % 10) as u8;
    text.push((48 + digit) as char);
    assert(text@ =~= before + decimal(n as nat));
}

/// `n` in decimal.
pub fn decimal_text(n: u64) -> (text: String)
    ensures
        text@ == decimal(n as nat),
{
    let mut text: String = String::new();
    push_decimal(&mut text, n);
    assert(text@ =~= decimal(n as nat));
    text
}

/// How far `value` is from zero.
pub fn magnitude(value: i64) -> (r: u64)
    ensures
        r == if value < 0 {
            -value
        } else {
            value as int
        },
{
    if value >= 0 {
        value as u64
    } else if value == i64::MIN {
        9_223_372_036_854_775_808
    } else {
        (-value) as u64
    }
}

/// `n` thousandths, with three digits after the point.
pub open spec fn thousandths(n: int) -> Seq<char> {
    let size = if n < 0 {
        -n
    } else {
        n
    };
    let whole = decimal((size / 1000) as nat) + seq![
        '.',
        digit_char((size / 100 % 10) as nat),
        digit_char((size / 10 % 10) as nat),
        digit_char((size % 10) as nat),
    ];
    if n < 0 {
        seq!['-'] + whole
    } else {
        whole
    }
}

/// Writes `n` thousandths with three digits after the point.
pub fn thousandths_text(n: i64) -> (r: String)
    ensures
        r@ == thousandths(n as int),
{
    let size: u64 = magnitude(n);
    let mut r: String = String::new();
    if n < 0 {
        r.push('-');
    }
    push_decimal(&mut r, size / 1000);
    r.push('.');
    r.push((48 + (size / 100 % 10) as u8) as char);
    r.push((48 + (size / 10 % 10) as u8) as char);
    r.push((48 + (size % 10) as u8) as char);
    assert(r@ =~= thousandths(n as int));
    r
}

/// Whether `c` is one of `0` to `9`.
pub open spec fn is_digit(c: char) -> bool {
    '0' <= c <= '9'
}

/// The value of the decimal digit `c`.
pub open spec fn digit_value(c: char) -> nat {
    if is_digit(c) {
        (c as int - 48) as nat
    } else {
        0
    }
}

/// The number that the decimal digits `s` spell.
pub open spec fn digits_value(s: Seq<char>) -> nat
    decreases s.len(),
{
    if s.len() == 0 {
        0
    } else {
        digits_value(s.drop_last()) * 10 + digit_value(s.last())
    }
}

/// Whether `s` holds digits alone.
pub open spec fn all_digits(s: Seq<char>) -> bool {
    forall|i: int| 0 <= i < s.len() ==> is_digit(#[trigger] s[i])
}

/// The digits of a decimal number: all of `s` but a leading plus sign.
pub open spec fn unsigned_body(s: Seq<char>) -> Seq<char> {
    if s.len() > 0 && s[0] == '+' {
        s.subrange(1, s.len() as int)
    } else {
        s
    }
}

/// The number that `s` spells: at least one digit, after an optional plus sign.
pub open spec fn number(s: Seq<char>) -> Option<nat> {
    let body = unsigned_body(s);
    if body.len() > 0 && all_digits(body) {
        Some(digits_value(body))
    } else {
        None
    }
}

/// The number that `s` spells, where it does not exceed `max`.
pub open spec fn number_up_to(s: Seq<char>, max: nat) -> Option<nat> {
    match number(s) {
        Some(n) => if n <= max {
            Some(n)
        } else {
            None
        },
        None => None,
    }
}

/// Appending digits does not make a number smaller.
proof fn lemma_prefix_is_smaller(s: Seq<char>, k: int)
    requires
        0 <= k <= s.len(),
    ensures
        digits_value(s.subrange(0, k)) <= digits_value(s),
    decreases s.len() - k,
{
    if k == s.len() {
        assert(s.subrange(0, k) =~= s);
    } else {
        lemma_prefix_is_smaller(s, k + 1);
        assert(s.subrange(0, k + 1).drop_last() =~= s.subrange(0, k));
    }
}

/// Whether `c` is a decimal digit.
pub fn is_digit_char(c: char) -> (r: bool)
    ensures
        r == is_digit(c),
{
    '0' <= c && c <= '9'
}

/// Reads the digits of `chars` from `start` up to `end` as a number up to `max`.
pub fn parse_digits(chars: &Vec<char>, start: usize, end: usize, max: u64) -> (r: Option<u64>)
    requires
        start <= end <= chars@.len(),
    ensures
        r matches Some(n) ==> all_digits(chars@.subrange(start as int, end as int)) && n
            == digits_value(chars@.subrange(start as int, end as int)) && n <= max,
        r is None ==> !all_digits(chars@.subrange(start as int, end as int)) || digits_value(
            chars@.subrange(start as int, end as int),
        ) > max,
{
    let ghost body = chars@.subrange(start as int, end as int);
    let mut value: u64 = 0;
    let mut i: usize = start;
    while i < end
        invariant
            start <= i <= end <= chars@.len(),
            body == chars@.subrange(start as int, end as int),
            all_digits(body.subrange(0, i - start)),
            value == digits_value(body.subrange(0, i - start)),
            value <= max,
        decreases end - i,
    {
        let c: char = chars[i];
        assert(body[i - start] == c);
        if !is_digit_char(c) {
            return None;
        }
        let digit: u64 = (c as u32 - 48) as u64;
        let ghost longer = body.subrange(0, i - start + 1);
        proof {
            assert(longer.drop_last() =~= body.subrange(0, i - start));
            lemma_prefix_is_smaller(body, i - start + 1);
            assert forall|j: int| 0 <= j < longer.len() implies is_digit(#[trigger] longer[j]) by {
                if j < i - start {
                    assert(body.subrange(0, i - start)[j] == longer[j]);
                }
            }
        }
        let next: Option<u64> = match value.checked_mul(10) {
            Some(scaled) => scaled.checked_add(digit),
            None => None,
        };
        match next {
            Some(n) => {
                if n > max {
                    return None;
                }
                value = n;
            },
            None => {
                return None;
            },
        }
        i = i + 1;
    }
    assert(body.subrange(0, end - start) =~= body);
    Some(value)
}

/// Reads `text` as a decimal number up to `max`.
pub fn parse_number(text: &str, max: u64) -> (r: Option<u64>)
    ensures
        r is Some == number_up_to(text@, max as nat) is Some,
        r matches Some(n) ==> number_up_to(text@, max as nat) == Some(n as nat),
{
    let chars: Vec<char> = characters(text);
    let start: usize = if chars.len() > 0 && chars[0] == '+' {
        1
    } else {
        0
    };
    assert(unsigned_body(text@) =~= chars@.subrange(start as int, chars@.len() as int));
    if start == chars.len() {
        return None;
    }
    parse_digits(&chars, start, chars.len(), max)
}

/// A number written in decimal reads back as itself.
pub proof fn law_number_of_decimal(n: nat)
    ensures
        number(decimal(n)) == Some(n),
        all_digits(decimal(n)),
        decimal(n).len() > 0,
        digits_value(decimal(n)) == n,
    decreases n,
{
    if n < 10 {
        assert(decimal(n).drop_last() =~= Seq::empty());
        assert(digits_value(decimal(n).drop_last()) == 0);
        assert(decimal(n).last() == digit_char(n));
        assert(digit_value(digit_char(n)) == n);
    } else {
        law_number_of_decimal(n / 10);
        let front = decimal(n / 10);
        assert(decimal(n).drop_last() =~= front);
        assert(digit_value(digit_char(n % 10)) == n % 10);
        assert forall|j: int| 0 <= j < decimal(n).len() implies is_digit(
            #[trigger] decimal(n)[j],
        ) by {
            if j < front.len() {
                assert(front[j] == decimal(n)[j]);
            }
        }
    }
    assert(is_digit(decimal(n)[0]));
    assert(unsigned_body(decimal(n)) == decimal(n));
}

// Whitespace.

/// Whether `c` has the Unicode property `White_Space`.
pub open spec fn is_space(c: char) -> bool {
    ||| 9 <= c as int <= 13
    ||| c == ' '
    ||| c as int == 0x85
    ||| c as int == 0xA0
    ||| c as int == 0x1680
    ||| 0x2000 <= c as int <= 0x200A
    ||| c as int == 0x2028
    ||| c as int == 0x2029
    ||| c as int == 0x202F
    ||| c as int == 0x205F
    ||| c as int == 0x3000
}

/// Whether `s` holds whitespace alone.
pub open spec fn is_blank(s: Seq<char>) -> bool {
    forall|i: int| 0 <= i < s.len() ==> is_space(#[trigger] s[i])
}

/// The first position from `from` on whose character is not whitespace.
pub open spec fn skip_space(s: Seq<char>, from: int) -> int
    decreases s.len() - from,
{
    if 0 <= from < s.len() && is_space(s[from]) {
        skip_space(s, from + 1)
    } else {
        from
    }
}

/// Whether `c` is whitespace.
pub fn is_space_char(c: char) -> (r: bool)
    ensures
        r == is_space(c),
{
    let code: u32 = c as u32;
    (9 <= code && code <= 13) || code == 32 || code == 0x85 || code == 0xA0 || code == 0x1680 || (
    0x2000 <= code && code <= 0x200A) || code == 0x2028 || code == 0x2029 || code == 0x202F || code
        == 0x205F || code == 0x3000
}

/// Finds the first position from `from` on whose character is not whitespace.
pub fn skip_spaces(chars: &Vec<char>, from: usize) -> (end: usize)
    requires
        from <= chars@.len(),
    ensures
        end == skip_space(chars@, from as int),
        from <= end <= chars@.len(),
{
    let mut i: usize = from;
    while i < chars.len() && is_space_char(chars[i])
        invariant
            from <= i <= chars@.len(),
            skip_space(chars@, i as int) == skip_space(chars@, from as int),
        decreases chars@.len() - i,
    {
        i = i + 1;
    }
    i
}

/// Whether `text` holds nothing but whitespace.
pub fn is_blank_text(text: &str) -> (r: bool)
    ensures
        r == is_blank(text@),
{
    for c in it: text.chars()
        invariant
            it.seq() == text@,
            forall|i: int| 0 <= i < it.index() ==> is_space(#[trigger] text@[i]),
    {
        if !is_space_char(c) {
            assert(text@[it.index()] == c);
            return false;
        }
    }
    true
}

// JSON.

/// What stands for `c` inside a JSON string; line breaks are escaped only where
/// `breaks` asks for it.
pub open spec fn escaped_char(c: char, breaks: bool) -> Seq<char> {
    if c == '\\' {
        seq!['\\', '\\']
    } else if c == '"' {
        seq!['\\', '"']
    } else if breaks && c == '\r' {
        seq!['\\', 'r']
    } else if breaks && c == '\n' {
        seq!['\\', 'n']
    } else {
        seq![c]
    }
}

/// `s` with each character escaped.
pub open spec fn escaped(s: Seq<char>, breaks: bool) -> Seq<char>
    decreases s.len(),
{
    if s.len() == 0 {
        Seq::empty()
    } else {
        escaped(s.drop_last(), breaks) + escaped_char(s.last(), breaks)
    }
}

/// Escapes `text` for use inside a JSON string.
pub fn escape_text(text: &str, breaks: bool) -> (r: String)
    ensures
        r@ == escaped(text@, breaks),
{
    let mut r: String = String::new();
    let chars: Vec<char> = characters(text);
    let mut i: usize = 0;
    while i < chars.len()
        invariant
            i <= chars@.len(),
            r@ == escaped(chars@.subrange(0, i as int), breaks),
        decreases chars@.len() - i,
    {
        let c: char = chars[i];
        let ghost before = r@;
        if c == '\\' {
            r.push('\\');
            r.push('\\');
        } else if c == '"' {
            r.push('\\');
            r.push('"');
        } else if breaks && c == '\r' {
            r.push('\\');
            r.push('r');
        } else if breaks && c == '\n' {
            r.push('\\');
            r.push('n');
        } else {
            r.push(c);
        }
        assert(r@ =~= before + escaped_char(c, breaks));
        assert(chars@.subrange(0, i + 1).drop_last() =~= chars@.subrange(0, i as int));
        i = i + 1;
    }
    assert(chars@.subrange(0, i as int) =~= chars@);
    r
}

/// `"invalid {name}: {s}"`
pub open spec fn invalid(name: Seq<char>, s: Seq<char>) -> Seq<char> {
    "invalid "@ + name + ": "@ + s
}

pub fn invalid_message(name: &str, text: &str) -> (r: String)
    ensures
        r@ == invalid(name@, text@),
{
    let mut r: String = "invalid ".to_string();
    r.append(name);
    r.append(": ");
    r.append(text);
    r
}

/// The view of a result whose error is a text.
pub open spec fn result<T>(r: Result<T, String>) -> Result<T, Seq<char>> {
    match r {
        Ok(v) => Ok(v),
        Err(error) => Err(error@),
    }
}

/// The view of an optional text.
pub open spec fn optional(text: Option<String>) -> Option<Seq<char>> {
    match text {
        Some(text) => Some(text@),
        None => None,
    }
}

/// `text`, or `otherwise` where there is none.
pub fn text_or(text: Option<String>, otherwise: &str) -> (r: String)
    ensures
        r@ == optional(text).unwrap_or(otherwise@),
{
    match text {
        Some(text) => text,
        None => otherwise.to_string(),
    }
}

/// The texts one after another, with `separator` between them.
pub open spec fn joined(texts: Seq<Seq<char>>, separator: Seq<char>) -> Seq<char>
    decreases texts.len(),
{
    if texts.len() == 0 {
        Seq::empty()
    } else if texts.len() == 1 {
        texts[0]
    } else {
        joined(texts.drop_last(), separator) + separator + texts.last()
    }
}

/// The views of texts.
pub open spec fn views(texts: Seq<String>) -> Seq<Seq<char>> {
    Seq::new(texts.len(), |i: int| texts[i]@)
}

/// Joins texts.
pub fn join_texts(texts: &Vec<String>, separator: &str) -> (r: String)
    ensures
        r@ == joined(views(texts@), separator@),
{
    let mut r: String = String::new();
    let ghost all = views(texts@);
    let mut i: usize = 0;
    while i < texts.len()
        invariant
            i <= texts@.len(),
            all == views(texts@),
            r@ == joined(all.take(i as int), separator@),
        decreases texts@.len() - i,
    {
        let ghost before = r@;
        if i > 0 {
            r.append(separator);
        }
        r.append(texts[i].as_str());
        proof {
            assert(all.take(i + 1).drop_last() =~= all.take(i as int));
            assert(all.take(i + 1).last() == all[i as int]);
            if i == 0 {
                assert(r@ =~= all[0]);
                assert(all.take(1)[0] == all[0]);
            } else {
                assert(r@ =~= before + separator@ + all[i as int]);
            }
        }
        i = i + 1;
    }
    assert(all.take(texts@.len() as int) =~= all);
    r
}

/// Whether `part` stands somewhere in `whole`.
pub open spec fn contains(whole: Seq<char>, part: Seq<char>) -> bool {
    exists|i: int|
        0 <= i <= whole.len() - part.len() && #[trigger] whole.subrange(i, i + part.len()) == part
}

/// Whether `whole` begins with `part`.
pub open spec fn begins_with(whole: Seq<char>, part: Seq<char>) -> bool {
    part.len() <= whole.len() && whole.subrange(0, part.len() as int) == part
}

/// Whether `part` stands in `whole` at `at`.
fn stands_at(whole: &Vec<char>, at: usize, part: &Vec<char>) -> (r: bool)
    requires
        at + part@.len() <= whole@.len(),
    ensures
        r == (whole@.subrange(at as int, at + part@.len()) == part@),
{
    let length: usize = whole.len();
    let mut i: usize = 0;
    while i < part.len()
        invariant
            i <= part@.len(),
            length == whole@.len(),
            at + part@.len() <= length,
            forall|j: int| 0 <= j < i ==> whole@[at + j] == part@[j],
        decreases part@.len() - i,
    {
        if whole[at + i] != part[i] {
            assert(whole@.subrange(at as int, at + part@.len())[i as int] != part@[i as int]);
            return false;
        }
        i = i + 1;
    }
    assert(whole@.subrange(at as int, at + part@.len()) =~= part@);
    true
}

/// Whether `part` stands somewhere in `whole`.
pub fn contains_text(whole: &str, part: &str) -> (r: bool)
    ensures
        r == contains(whole@, part@),
{
    let whole_chars: Vec<char> = characters(whole);
    let part_chars: Vec<char> = characters(part);
    if part_chars.len() > whole_chars.len() {
        return false;
    }
    let last: usize = whole_chars.len() - part_chars.len();
    let mut at: usize = 0;
    loop
        invariant
            whole_chars@ == whole@,
            part_chars@ == part@,
            last == whole@.len() - part@.len(),
            at <= last,
            forall|i: int| 0 <= i < at ==> #[trigger] whole@.subrange(i, i + part@.len()) != part@,
        ensures
            forall|i: int| 0 <= i <= last ==> #[trigger] whole@.subrange(i, i + part@.len())
                != part@,
        decreases last - at,
    {
        if stands_at(&whole_chars, at, &part_chars) {
            return true;
        }
        if at == last {
            break ;
        }
        at = at + 1;
    }
    false
}

/// Whether `whole` begins with `part`.
pub fn starts_with_text(whole: &str, part: &str) -> (r: bool)
    ensures
        r == begins_with(whole@, part@),
{
    let whole_chars: Vec<char> = characters(whole);
    let part_chars: Vec<char> = characters(part);
    part_chars.len() <= whole_chars.len() && stands_at(&whole_chars, 0, &part_chars)
}

// What holds of every text.

/// Decimal numbers have no leading zero, and each further digit stands for ten times less.
pub proof fn law_decimal_digits(n: nat, d: nat)
    requires
        d < 10,
    ensures
        n > 0 ==> decimal(n * 10 + d) == decimal(n).push(digit_char(d)),
        n > 0 ==> decimal(n)[0] != '0',
        decimal(0) == seq!['0'],
        0 <= d < 10 ==> decimal(d) == seq![(('0' as int) + d) as char],
    decreases n,
{
    assert((n * 10 + d) / 10 == n && (n * 10 + d) % 10 == d);
    if n >= 10 {
        law_decimal_digits(n / 10, 0);
        law_number_of_decimal(n / 10);
    }
}

/// Thousandths are written with three digits behind the point, so that the digits without
/// the point spell the number, and a minus sign before negative ones.
pub proof fn law_thousandths_are_read_back(n: nat)
    ensures
        ({
            let s = thousandths(n as int);
            let point = s.len() - 4;
            &&& point >= 1
            &&& s[point] == '.'
            &&& digits_value(s.subrange(0, point) + s.subrange(point + 1, s.len() as int)) == n
            &&& n > 0 ==> thousandths(-(n as int)) == seq!['-'] + s
        }),
{
    let s = thousandths(n as int);
    let front = decimal(n / 1000);
    law_number_of_decimal(n / 1000);
    let point = s.len() - 4;
    assert(s.len() == front.len() + 4);
    assert(s.subrange(0, point) =~= front);
    let a = digit_char((n as int / 100 % 10) as nat);
    let b = digit_char((n as int / 10 % 10) as nat);
    let c = digit_char((n as int % 10) as nat);
    let digits = s.subrange(0, point) + s.subrange(point + 1, s.len() as int);
    assert(digits =~= front.push(a).push(b).push(c));
    assert(front.push(a).push(b).push(c).drop_last() =~= front.push(a).push(b));
    assert(front.push(a).push(b).drop_last() =~= front.push(a));
    assert(front.push(a).drop_last() =~= front);
    assert(digit_value(a) == n / 100 % 10 && digit_value(b) == n / 10 % 10 && digit_value(c) == n
        % 10);
    assert(digits_value(front.push(a)) == (n / 1000) * 10 + n / 100 % 10);
    assert(digits_value(front.push(a).push(b)) == digits_value(front.push(a)) * 10 + n / 10 % 10);
    assert(digits_value(digits) == digits_value(front.push(a).push(b)) * 10 + n % 10);
}

/// A quote and a backslash are escaped by a backslash, and line breaks by their letters
/// where breaks are not allowed; everything else stays, and texts are escaped piece by
/// piece.
pub proof fn law_texts_are_escaped_piece_by_piece(
    a: Seq<char>,
    b: Seq<char>,
    c: char,
    breaks: bool,
)
    ensures
        escaped(a + b, breaks) == escaped(a, breaks) + escaped(b, breaks),
        escaped(seq!['"'], breaks) == seq!['\\', '"'],
        escaped(seq!['\\'], breaks) == seq!['\\', '\\'],
        escaped(seq!['\n'], true) == seq!['\\', 'n'],
        escaped(seq!['\r'], true) == seq!['\\', 'r'],
        escaped(seq!['\n'], false) == seq!['\n'],
        escaped(seq!['\r'], false) == seq!['\r'],
        c != '"' && c != '\\' && c != '\n' && c != '\r' ==> escaped(seq![c], breaks) == seq![c],
    decreases b.len(),
{
    lemma_one_is_escaped('"', breaks);
    lemma_one_is_escaped('\\', breaks);
    lemma_one_is_escaped('\n', true);
    lemma_one_is_escaped('\r', true);
    lemma_one_is_escaped('\n', false);
    lemma_one_is_escaped('\r', false);
    lemma_one_is_escaped(c, breaks);
    if b.len() == 0 {
        assert(a + b =~= a);
        assert(escaped(a, breaks) + escaped(b, breaks) =~= escaped(a, breaks));
    } else {
        law_texts_are_escaped_piece_by_piece(a, b.drop_last(), c, breaks);
        assert((a + b).drop_last() =~= a + b.drop_last());
        assert((a + b).last() == b.last());
        assert(escaped(a, breaks) + (escaped(b.drop_last(), breaks) + escaped_char(
            b.last(),
            breaks,
        )) =~= (escaped(a, breaks) + escaped(b.drop_last(), breaks)) + escaped_char(
            b.last(),
            breaks,
        ));
    }
}

proof fn lemma_one_is_escaped(c: char, breaks: bool)
    ensures
        escaped(seq![c], breaks) == escaped_char(c, breaks),
{
    assert(seq![c].drop_last() =~= Seq::<char>::empty());
    assert(escaped(Seq::<char>::empty(), breaks) =~= Seq::<char>::empty());
    assert(escaped(seq![c], breaks) =~= escaped_char(c, breaks));
}

/// Texts are joined with the separator between them and nowhere else.
pub proof fn law_texts_are_joined(texts: Seq<Seq<char>>, last: Seq<char>, separator: Seq<char>)
    ensures
        joined(Seq::empty(), separator).len() == 0,
        joined(seq![last], separator) == last,
        texts.len() > 0 ==> joined(texts.push(last), separator) == joined(texts, separator)
            + separator + last,
{
    assert(texts.push(last).drop_last() =~= texts);
}

/// The blanks before a text are skipped, and nothing else.
pub proof fn law_blanks_are_skipped(s: Seq<char>, from: int, to: int)
    requires
        0 <= from <= to <= s.len(),
        forall|i: int| from <= i < to ==> is_space(#[trigger] s[i]),
        to == s.len() || !is_space(s[to]),
    ensures
        skip_space(s, from) == to,
    decreases to - from,
{
    if from < to {
        law_blanks_are_skipped(s, from + 1, to);
    }
}

} // verus!
