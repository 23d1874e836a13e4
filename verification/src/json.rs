//! Fragments of JSON objects: members in order, with commas between them.

use vstd::prelude::*;

use crate::text;
use crate::text::{escape_text, push_decimal};

verus! {

/// The value of a member.
pub enum Value {
    Number(u64),
    Signed(i64),
    Flag(bool),
    /// A number, or `null`.
    Maybe(Option<u64>),
    /// A text between quotes, escaped.
    Quoted(Seq<char>),
    /// A text between quotes, as it is.
    Name(Seq<char>),
    /// An escaped text between quotes, or `null`.
    MaybeQuoted(Option<Seq<char>>),
    /// A text as it is.
    Raw(Seq<char>),
}

/// What stands between two commas.
pub enum Member {
    Pair(Seq<char>, Value),
    /// Members that are written already.
    Fragment(Seq<char>),
}

/// `s` between quotes.
pub open spec fn in_quotes(s: Seq<char>) -> Seq<char> {
    seq!['"'] + s + seq!['"']
}

impl Value {
    pub open spec fn text(self) -> Seq<char> {
        match self {
            Value::Number(n) => text::decimal(n as nat),
            Value::Signed(n) => if n < 0 {
                seq!['-'] + text::decimal((-n) as nat)
            } else {
                text::decimal(n as nat)
            },
            Value::Flag(true) => "true"@,
            Value::Flag(false) => "false"@,
            Value::Maybe(Some(n)) => text::decimal(n as nat),
            Value::Maybe(None) => "null"@,
            Value::Quoted(s) => in_quotes(text::escaped(s, true)),
            Value::Name(s) => in_quotes(s),
            Value::MaybeQuoted(Some(s)) => in_quotes(text::escaped(s, true)),
            Value::MaybeQuoted(None) => "null"@,
            Value::Raw(s) => s,
        }
    }
}

impl Member {
    pub open spec fn text(self) -> Seq<char> {
        match self {
            Member::Pair(key, value) => in_quotes(key) + seq![':'] + value.text(),
            Member::Fragment(s) => s,
        }
    }
}

/// The members one after another, with commas between them.
pub open spec fn render(members: Seq<Member>) -> Seq<char>
    decreases members.len(),
{
    if members.len() == 0 {
        Seq::empty()
    } else if members.len() == 1 {
        members[0].text()
    } else {
        render(members.drop_last()) + seq![','] + members.last().text()
    }
}

/// The view of an optional text.
pub open spec fn optional_view(value: Option<&str>) -> Option<Seq<char>> {
    match value {
        Some(value) => Some(value@),
        None => None,
    }
}

/// `render` between braces.
pub open spec fn object(members: Seq<Member>) -> Seq<char> {
    seq!['{'] + render(members) + seq!['}']
}

/// Members that are being written.
pub struct Fragment {
    written: String,
    empty: bool,
    members: Ghost<Seq<Member>>,
}

impl View for Fragment {
    type V = Seq<Member>;

    closed spec fn view(&self) -> Seq<Member> {
        self.members@
    }
}

impl Fragment {
    #[verifier::type_invariant]
    spec fn inv(self) -> bool {
        self.written@ == render(self.members@) && self.empty == (self.members@.len() == 0)
    }

    pub fn new() -> (r: Fragment)
        ensures
            r@ == Seq::<Member>::empty(),
    {
        Fragment { written: String::new(), empty: true, members: Ghost(Seq::empty()) }
    }

    /// Adds a member that reads `text`.
    fn with(self, text: &str, Ghost(member): Ghost<Member>) -> (r: Fragment)
        requires
            text@ == member.text(),
        ensures
            r@ == self@.push(member),
    {
        proof {
            use_type_invariant(&self);
        }
        let ghost before = self.members@;
        let first: bool = self.empty;
        let mut written: String = self.written;
        if !first {
            written.push(',');
        }
        written.append(text);
        proof {
            assert(before.push(member).drop_last() =~= before);
            if first {
                assert(written@ =~= member.text());
            } else {
                assert(written@ =~= render(before) + seq![','] + member.text());
            }
        }
        Fragment { written, empty: false, members: Ghost(before.push(member)) }
    }

    pub fn number(self, key: &str, value: u64) -> (r: Fragment)
        ensures
            r@ == self@.push(Member::Pair(key@, Value::Number(value))),
    {
        let mut text: String = key_text(key);
        push_decimal(&mut text, value);
        self.with(text.as_str(), Ghost(Member::Pair(key@, Value::Number(value))))
    }

    pub fn signed(self, key: &str, value: i64) -> (r: Fragment)
        ensures
            r@ == self@.push(Member::Pair(key@, Value::Signed(value))),
    {
        let mut text: String = key_text(key);
        let ghost start = text@;
        if value < 0 {
            text.push('-');
            let size: u64 = text::magnitude(value);
            push_decimal(&mut text, size);
            assert(text@ =~= start + (seq!['-'] + text::decimal((-value) as nat)));
        } else {
            push_decimal(&mut text, value as u64);
        }
        self.with(text.as_str(), Ghost(Member::Pair(key@, Value::Signed(value))))
    }

    pub fn flag(self, key: &str, value: bool) -> (r: Fragment)
        ensures
            r@ == self@.push(Member::Pair(key@, Value::Flag(value))),
    {
        let mut text: String = key_text(key);
        text.append(flag_text(value));
        self.with(text.as_str(), Ghost(Member::Pair(key@, Value::Flag(value))))
    }

    pub fn maybe(self, key: &str, value: Option<u64>) -> (r: Fragment)
        ensures
            r@ == self@.push(Member::Pair(key@, Value::Maybe(value))),
    {
        let mut text: String = key_text(key);
        match value {
            Some(value) => push_decimal(&mut text, value),
            None => text.append("null"),
        }
        self.with(text.as_str(), Ghost(Member::Pair(key@, Value::Maybe(value))))
    }

    pub fn quoted(self, key: &str, value: &str) -> (r: Fragment)
        ensures
            r@ == self@.push(Member::Pair(key@, Value::Quoted(value@))),
    {
        let mut text: String = key_text(key);
        text.append(quoted_text(value).as_str());
        self.with(text.as_str(), Ghost(Member::Pair(key@, Value::Quoted(value@))))
    }

    pub fn name(self, key: &str, value: &str) -> (r: Fragment)
        ensures
            r@ == self@.push(Member::Pair(key@, Value::Name(value@))),
    {
        let mut text: String = key_text(key);
        let ghost start = text@;
        text.push('"');
        text.append(value);
        text.push('"');
        assert(text@ =~= start + in_quotes(value@));
        self.with(text.as_str(), Ghost(Member::Pair(key@, Value::Name(value@))))
    }

    pub fn maybe_quoted(self, key: &str, value: Option<&str>) -> (r: Fragment)
        ensures
            r@ == self@.push(Member::Pair(key@, Value::MaybeQuoted(optional_view(value)))),
    {
        let mut text: String = key_text(key);
        text.append(optional_json_string(value).as_str());
        self.with(
            text.as_str(),
            Ghost(Member::Pair(key@, Value::MaybeQuoted(optional_view(value)))),
        )
    }

    pub fn raw(self, key: &str, value: &str) -> (r: Fragment)
        ensures
            r@ == self@.push(Member::Pair(key@, Value::Raw(value@))),
    {
        let mut text: String = key_text(key);
        text.append(value);
        self.with(text.as_str(), Ghost(Member::Pair(key@, Value::Raw(value@))))
    }

    pub fn fragment(self, members: &str) -> (r: Fragment)
        ensures
            r@ == self@.push(Member::Fragment(members@)),
    {
        self.with(members, Ghost(Member::Fragment(members@)))
    }

    /// The members as they are written.
    pub fn finish(self) -> (r: String)
        ensures
            r@ == render(self@),
    {
        proof {
            use_type_invariant(&self);
        }
        self.written
    }

    /// An object with the members.
    pub fn finish_object(self) -> (r: String)
        ensures
            r@ == object(self@),
    {
        proof {
            use_type_invariant(&self);
        }
        let ghost members = self.members@;
        let mut r: String = String::new();
        r.push('{');
        r.append(self.written.as_str());
        r.push('}');
        assert(r@ =~= object(members));
        r
    }
}

/// `"key":`
fn key_text(key: &str) -> (r: String)
    ensures
        r@ == in_quotes(key@) + seq![':'],
{
    let mut r: String = String::new();
    r.push('"');
    r.append(key);
    r.push('"');
    r.push(':');
    assert(r@ =~= in_quotes(key@) + seq![':']);
    r
}

fn flag_text(value: bool) -> (r: &'static str)
    ensures
        r@ == Value::Flag(value).text(),
{
    if value {
        "true"
    } else {
        "false"
    }
}

fn quoted_text(value: &str) -> (r: String)
    ensures
        r@ == in_quotes(text::escaped(value@, true)),
{
    let mut r: String = String::new();
    r.push('"');
    r.append(escape_text(value, true).as_str());
    r.push('"');
    assert(r@ =~= in_quotes(text::escaped(value@, true)));
    r
}

/// A text between quotes, or `null`.
pub fn optional_json_string(value: Option<&str>) -> (r: String)
    ensures
        r@ == match value {
            Some(value) => Value::Quoted(value@).text(),
            None => "null"@,
        },
{
    match value {
        Some(value) => quoted_text(value),
        None => "null".to_string(),
    }
}

/// `true`, `false` or `null`.
pub open spec fn optional_flag(value: Option<bool>) -> Seq<char> {
    match value {
        Some(value) => Value::Flag(value).text(),
        None => "null"@,
    }
}

/// `true`, `false` or `null`.
pub fn optional_bool_json(value: Option<bool>) -> (r: String)
    ensures
        r@ == optional_flag(value),
{
    match value {
        Some(value) => flag_text(value).to_string(),
        None => "null".to_string(),
    }
}

/// The items with commas between them.
pub open spec fn listed(items: Seq<Seq<char>>) -> Seq<char>
    decreases items.len(),
{
    if items.len() == 0 {
        Seq::empty()
    } else if items.len() == 1 {
        items[0]
    } else {
        listed(items.drop_last()) + seq![','] + items.last()
    }
}

/// A list of texts.
pub open spec fn string_array(values: Seq<String>) -> Seq<char> {
    seq!['['] + listed(Seq::new(values.len(), |i: int| Value::Quoted(values[i]@).text())) + seq![
        ']',
    ]
}

/// Writes a list of texts.
pub fn json_string_array(values: &[String]) -> (r: String)
    ensures
        r@ == string_array(values@),
{
    let ghost items = Seq::new(values@.len(), |i: int| Value::Quoted(values@[i]@).text());
    let mut r: String = String::new();
    r.push('[');
    let mut i: usize = 0;
    while i < values.len()
        invariant
            i <= values.len(),
            items == Seq::new(values@.len(), |i: int| Value::Quoted(values@[i]@).text()),
            r@ == seq!['['] + listed(items.take(i as int)),
        decreases values.len() - i,
    {
        let ghost before = listed(items.take(i as int));
        if i > 0 {
            r.push(',');
        }
        r.append(quoted_text(values[i].as_str()).as_str());
        proof {
            assert(items.take(i + 1).drop_last() =~= items.take(i as int));
            assert(items.take(i + 1).last() == items[i as int]);
            if i == 0 {
                assert(r@ =~= seq!['['] + items[0]);
            } else {
                assert(r@ =~= seq!['['] + (before + seq![','] + items[i as int]));
            }
        }
        i = i + 1;
    }
    assert(items.take(values@.len() as int) =~= items);
    r.push(']');
    assert(r@ =~= seq!['['] + listed(items) + seq![']']);
    r
}

/// A list of numbers.
pub open spec fn number_array(values: Seq<u64>) -> Seq<char> {
    seq!['['] + listed(Seq::new(values.len(), |i: int| text::decimal(values[i] as nat))) + seq![
        ']',
    ]
}

/// Writes a list of numbers.
pub fn u64_json_array(values: &[u64]) -> (r: String)
    ensures
        r@ == number_array(values@),
{
    let ghost items = Seq::new(values@.len(), |i: int| text::decimal(values@[i] as nat));
    let mut r: String = String::new();
    r.push('[');
    let mut i: usize = 0;
    while i < values.len()
        invariant
            i <= values.len(),
            items == Seq::new(values@.len(), |i: int| text::decimal(values@[i] as nat)),
            r@ == seq!['['] + listed(items.take(i as int)),
        decreases values.len() - i,
    {
        let ghost before = listed(items.take(i as int));
        if i > 0 {
            r.push(',');
        }
        push_decimal(&mut r, values[i]);
        proof {
            assert(items.take(i + 1).drop_last() =~= items.take(i as int));
            assert(items.take(i + 1).last() == items[i as int]);
            if i == 0 {
                assert(r@ =~= seq!['['] + items[0]);
            } else {
                assert(r@ =~= seq!['['] + (before + seq![','] + items[i as int]));
            }
        }
        i = i + 1;
    }
    assert(items.take(values@.len() as int) =~= items);
    r.push(']');
    assert(r@ =~= seq!['['] + listed(items) + seq![']']);
    r
}

/// An optional text, borrowed.
pub fn borrowed(text: &Option<String>) -> (r: Option<&str>)
    ensures
        optional_view(r) == text::optional(*text),
{
    match text {
        Some(text) => Some(text.as_str()),
        None => None,
    }
}

/// Escapes `text` for use inside a JSON string.
pub fn json_escape(text: &str) -> (r: String)
    ensures
        r@ == text::escaped(text@, true),
{
    escape_text(text, true)
}

/// A number of seconds, or that there is no end.
pub fn optional_duration_text(duration_sec: Option<u64>) -> (r: String)
    ensures
        r@ == match duration_sec {
            Some(seconds) => text::decimal(seconds as nat),
            None => "unlimited"@,
        },
{
    match duration_sec {
        Some(seconds) => text::decimal_text(seconds),
        None => "unlimited".to_string(),
    }
}

// What holds of every object.

/// Members are written one after the other with a comma between them, and nothing stands
/// between braces where there are none.
pub proof fn law_members_are_written_in_order(before: Seq<Member>, after: Seq<Member>)
    ensures
        render(Seq::<Member>::empty()).len() == 0,
        before.len() > 0 && after.len() > 0 ==> render(before + after) == render(before) + seq![
            ',',
        ] + render(after),
        after.len() == 0 ==> render(before + after) == render(before),
        before.len() == 0 ==> render(before + after) == render(after),
        object(before) == seq!['{'] + render(before) + seq!['}'],
    decreases after.len(),
{
    if after.len() == 0 {
        assert(before + after =~= before);
    } else if before.len() == 0 {
        assert(before + after =~= after);
    } else if after.len() == 1 {
        assert((before + after).drop_last() =~= before);
        assert((before + after).last() == after[0]);
    } else {
        law_members_are_written_in_order(before, after.drop_last());
        assert((before + after).drop_last() =~= before + after.drop_last());
        assert((before + after).last() == after.last());
        assert(render(before) + seq![','] + (render(after.drop_last()) + seq![',']
            + after.last().text()) =~= (render(before) + seq![','] + render(after.drop_last()))
            + seq![','] + after.last().text());
    }
}

/// A single member is its name between quotes, a colon, and its value: numbers in decimal,
/// yes and no as words, texts between quotes and escaped.
pub proof fn law_member_is_written(key: Seq<char>, value: Value)
    ensures
        render(seq![Member::Pair(key, value)]) == seq!['"'] + key + seq!['"'] + seq![':']
            + value.text(),
        value matches Value::Number(n) ==> text::number(value.text()) == Some(n as nat),
        value matches Value::Signed(n) ==> (n >= 0 ==> text::number(value.text()) == Some(
            n as nat,
        )) && (n < 0 ==> value.text()[0] == '-' && text::number(
            value.text().subrange(1, value.text().len() as int),
        ) == Some((-n) as nat)),
        value matches Value::Maybe(Some(n)) ==> text::number(value.text()) == Some(n as nat),
        value matches Value::Maybe(None) ==> value.text() == "null"@,
        value matches Value::Flag(flag) ==> value.text() == if flag {
            "true"@
        } else {
            "false"@
        },
        value matches Value::Quoted(s) ==> value.text() == seq!['"'] + text::escaped(s, true)
            + seq!['"'],
        value matches Value::Name(s) ==> value.text() == seq!['"'] + s + seq!['"'],
        value matches Value::MaybeQuoted(Some(s)) ==> value.text() == seq!['"'] + text::escaped(
            s,
            true,
        ) + seq!['"'],
        value matches Value::MaybeQuoted(None) ==> value.text() == "null"@,
        value matches Value::Raw(s) ==> value.text() == s,
{
    match value {
        Value::Number(n) => {
            text::law_number_of_decimal(n as nat);
        },
        Value::Signed(n) => {
            if n < 0 {
                text::law_number_of_decimal((-n) as nat);
                assert(value.text().subrange(1, value.text().len() as int) =~= text::decimal(
                    (-n) as nat,
                ));
            } else {
                text::law_number_of_decimal(n as nat);
            }
        },
        Value::Maybe(Some(n)) => {
            text::law_number_of_decimal(n as nat);
        },
        _ => {},
    }
}

/// Lists are written between brackets with commas between the items.
pub proof fn law_lists_are_written_in_order(numbers: Seq<u64>, last: u64, texts: Seq<String>)
    ensures
        number_array(Seq::empty()) == seq!['[', ']'],
        number_array(seq![last]) == seq!['['] + text::decimal(last as nat) + seq![']'],
        numbers.len() > 0 ==> number_array(numbers.push(last)) == number_array(
            numbers,
        ).drop_last() + seq![','] + text::decimal(last as nat) + seq![']'],
        string_array(Seq::empty()) == seq!['[', ']'],
        texts.len() == 1 ==> string_array(texts) == seq!['[', '"'] + text::escaped(
            texts[0]@,
            true,
        ) + seq!['"', ']'],
        texts.len() > 1 ==> string_array(texts) == string_array(texts.drop_last()).drop_last()
            + seq![',', '"'] + text::escaped(texts.last()@, true) + seq!['"', ']'],
{
    let items = |values: Seq<u64>|
        Seq::new(values.len(), |i: int| text::decimal(values[i] as nat));
    assert(number_array(Seq::empty()) =~= seq!['[', ']']);
    assert(items(seq![last])[0] == text::decimal(last as nat));
    assert(number_array(seq![last]) =~= seq!['['] + text::decimal(last as nat) + seq![']']);
    if numbers.len() > 0 {
        assert(items(numbers.push(last)).drop_last() =~= items(numbers));
        assert(items(numbers.push(last)).last() == text::decimal(last as nat));
        assert(number_array(numbers).drop_last() =~= seq!['['] + listed(items(numbers)));
        assert(number_array(numbers.push(last)) =~= number_array(numbers).drop_last() + seq![',']
            + text::decimal(last as nat) + seq![']']);
    }
    let quotes = |values: Seq<String>|
        Seq::new(values.len(), |i: int| Value::Quoted(values[i]@).text());
    assert(string_array(Seq::empty()) =~= seq!['[', ']']);
    if texts.len() == 1 {
        assert(quotes(texts)[0] == Value::Quoted(texts[0]@).text());
        assert(string_array(texts) =~= seq!['[', '"'] + text::escaped(texts[0]@, true) + seq![
            '"',
            ']',
        ]);
    } else if texts.len() > 1 {
        assert(quotes(texts).drop_last() =~= quotes(texts.drop_last()));
        assert(quotes(texts).last() == Value::Quoted(texts.last()@).text());
        assert(string_array(texts.drop_last()).drop_last() =~= seq!['['] + listed(
            quotes(texts.drop_last()),
        ));
        assert(string_array(texts) =~= string_array(texts.drop_last()).drop_last() + seq![',', '"']
            + text::escaped(texts.last()@, true) + seq!['"', ']']);
    }
}

/// A flag that may be missing is written as a word.
pub proof fn law_flags_are_words(flag: bool)
    ensures
        optional_flag(Some(true)) == "true"@,
        optional_flag(Some(false)) == "false"@,
        optional_flag(None) == "null"@,
        optional_flag(Some(flag)) == Value::Flag(flag).text(),
{
}

/// The members hold a number under a name.
pub open spec fn counts(members: Seq<Member>, key: Seq<char>, value: u64) -> bool {
    members.contains(Member::Pair(key, Value::Number(value)))
}

/// The members hold a number, or `null`, under a name.
pub open spec fn counts_if_known(
    members: Seq<Member>,
    key: Seq<char>,
    value: Option<u64>,
) -> bool {
    members.contains(Member::Pair(key, Value::Maybe(value)))
}

/// The members hold yes or no under a name.
pub open spec fn flags(members: Seq<Member>, key: Seq<char>, value: bool) -> bool {
    members.contains(Member::Pair(key, Value::Flag(value)))
}

/// The members hold a word under a name.
pub open spec fn names(members: Seq<Member>, key: Seq<char>, value: Seq<char>) -> bool {
    members.contains(Member::Pair(key, Value::Name(value)))
}

/// The members hold a text, escaped, under a name.
pub open spec fn quotes(members: Seq<Member>, key: Seq<char>, value: Seq<char>) -> bool {
    members.contains(Member::Pair(key, Value::Quoted(value)))
}

/// The members hold all of `part`.
pub open spec fn covers(members: Seq<Member>, part: Seq<Member>) -> bool {
    forall|i: int| 0 <= i < part.len() ==> members.contains(#[trigger] part[i])
}

} // verus!
