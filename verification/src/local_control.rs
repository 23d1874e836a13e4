//! Commands of the local user interface: one JSON object on each line.
//!
//! The objects are flat and small; a member is found by its quoted name.

use vstd::prelude::*;

use crate::shutdown::{CancellationToken, StopReason};
use crate::text;
use crate::text::{characters, is_digit_char, parse_digits, same_text, skip_spaces};

verus! {

pub const LOCAL_STOP_VERSION: u64 = 1;

/// What a line asks for.
#[derive(Clone, Copy, Debug, PartialEq, Eq, Structural)]
pub enum LocalControlAction {
    Ignore,
    Stop,
}

/// `needle` stands in `s` at `at`.
pub open spec fn stands_at(s: Seq<char>, needle: Seq<char>, at: int) -> bool {
    0 <= at && at + needle.len() <= s.len() && s.subrange(at, at + needle.len()) == needle
}

/// The first place from `from` on where `needle` stands in `s`.
pub open spec fn find(s: Seq<char>, needle: Seq<char>, from: int) -> Option<int>
    decreases s.len() - from,
{
    if from >= s.len() {
        None
    } else if stands_at(s, needle, from) {
        Some(from)
    } else {
        find(s, needle, from + 1)
    }
}

/// The name of a member, in quotes.
pub open spec fn quoted(field: Seq<char>) -> Seq<char> {
    seq!['"'] + field + seq!['"']
}

/// Where the value of the member `field` begins: behind the first place that holds
/// its quoted name, a colon and the space around it.
pub open spec fn value_start(s: Seq<char>, field: Seq<char>) -> Option<int> {
    match find(s, quoted(field), 0) {
        None => None,
        Some(at) => {
            let colon = text::skip_space(s, at + quoted(field).len());
            if colon < s.len() && s[colon] == ':' {
                Some(text::skip_space(s, colon + 1))
            } else {
                None
            }
        },
    }
}

/// The text of the member `field`: from its opening quote to the next quote.
pub open spec fn string_field(s: Seq<char>, field: Seq<char>) -> Option<Seq<char>> {
    match value_start(s, field) {
        None => None,
        Some(start) => if start < s.len() && s[start] == '"' {
            match find(s, seq!['"'], start + 1) {
                None => None,
                Some(end) => Some(s.subrange(start + 1, end)),
            }
        } else {
            None
        },
    }
}

/// The first place from `from` on that holds no digit.
pub open spec fn skip_digits(s: Seq<char>, from: int) -> int
    decreases s.len() - from,
{
    if 0 <= from < s.len() && text::is_digit(s[from]) {
        skip_digits(s, from + 1)
    } else {
        from
    }
}

/// The number of the member `field`: the digits at its start.
pub open spec fn number_field(s: Seq<char>, field: Seq<char>) -> Option<nat> {
    match value_start(s, field) {
        None => None,
        Some(start) => {
            let end = skip_digits(s, start);
            let value = text::digits_value(s.subrange(start, end));
            if start < end && value <= u64::MAX {
                Some(value)
            } else {
                None
            }
        },
    }
}

/// A reason that the user interface may give.
pub open spec fn known_reason(reason: Option<Seq<char>>) -> bool {
    reason == Some("gui_stop"@) || reason == Some("app_close"@) || reason == Some("local_stop"@)
}

/// What a line asks for, or why it is malformed.
pub open spec fn local_stop(line: Seq<char>) -> Result<LocalControlAction, Seq<char>> {
    if string_field(line, "type"@) != Some("LOCAL_STOP"@) {
        Ok(LocalControlAction::Ignore)
    } else if number_field(line, "version"@) != Some(LOCAL_STOP_VERSION as nat) {
        Err("LOCAL_STOP version must be 1"@)
    } else if !known_reason(string_field(line, "reason"@)) {
        Err("LOCAL_STOP reason is invalid"@)
    } else {
        Ok(LocalControlAction::Stop)
    }
}

/// Whether `needle` stands in `chars` at `at`.
fn needle_at(chars: &Vec<char>, needle: &Vec<char>, at: usize) -> (r: bool)
    requires
        at + needle@.len() <= chars.len(),
    ensures
        r == stands_at(chars@, needle@, at as int),
{
    let mut k: usize = 0;
    while k < needle.len()
        invariant
            k <= needle@.len(),
            at + needle@.len() <= chars.len(),
            forall|j: int| 0 <= j < k ==> chars@[at + j] == #[trigger] needle@[j],
        decreases needle@.len() - k,
    {
        if chars[at + k] != needle[k] {
            assert(chars@.subrange(at as int, at + needle@.len())[k as int] != needle@[k as int]);
            return false;
        }
        k = k + 1;
    }
    assert(chars@.subrange(at as int, at + needle@.len()) =~= needle@);
    true
}

/// Finds the first place from `from` on where `needle` stands.
fn find_needle(chars: &Vec<char>, needle: &Vec<char>, from: usize) -> (r: Option<usize>)
    requires
        from <= chars@.len(),
    ensures
        match find(chars@, needle@, from as int) {
            Some(at) => r is Some && r->0 == at && from <= at && at + needle@.len()
                <= chars.len(),
            None => r is None,
        },
{
    let mut at: usize = from;
    while at < chars.len()
        invariant
            from <= at <= chars@.len(),
            find(chars@, needle@, at as int) == find(chars@, needle@, from as int),
        decreases chars@.len() - at,
    {
        if needle.len() <= chars.len() - at && needle_at(chars, needle, at) {
            return Some(at);
        }
        at = at + 1;
    }
    None
}

/// Finds where the value of the member `field` begins.
fn field_value_start(chars: &Vec<char>, field: &str) -> (r: Option<usize>)
    ensures
        match value_start(chars@, field@) {
            Some(start) => r is Some && r->0 == start && start <= chars@.len(),
            None => r is None,
        },
{
    let mut needle: Vec<char> = Vec::new();
    needle.push('"');
    let mut name: Vec<char> = characters(field);
    needle.append(&mut name);
    needle.push('"');
    assert(needle@ =~= quoted(field@));
    let at: usize = find_needle(chars, &needle, 0)?;
    let colon: usize = skip_spaces(chars, at + needle.len());
    if colon < chars.len() && chars[colon] == ':' {
        Some(skip_spaces(chars, colon + 1))
    } else {
        None
    }
}

/// The text of the member `field`.
pub fn json_string_field(line: &str, field: &str) -> (r: Option<String>)
    ensures
        match string_field(line@, field@) {
            Some(value) => r is Some && r->0@ == value,
            None => r is None,
        },
{
    let chars: Vec<char> = characters(line);
    let start: usize = field_value_start(&chars, field)?;
    if start >= chars.len() || chars[start] != '"' {
        return None;
    }
    let mut quote: Vec<char> = Vec::new();
    quote.push('"');
    assert(quote@ =~= seq!['"']);
    let end: usize = find_needle(&chars, &quote, start + 1)?;
    Some(line.substring_char(start + 1, end).to_string())
}

/// The number of the member `field`.
pub fn json_u64_field(line: &str, field: &str) -> (r: Option<u64>)
    ensures
        match number_field(line@, field@) {
            Some(value) => r is Some && r->0 == value,
            None => r is None,
        },
{
    let chars: Vec<char> = characters(line);
    let start: usize = field_value_start(&chars, field)?;
    let mut end: usize = start;
    while end < chars.len() && is_digit_char(chars[end])
        invariant
            start <= end <= chars@.len(),
            skip_digits(chars@, end as int) == skip_digits(chars@, start as int),
            text::all_digits(chars@.subrange(start as int, end as int)),
        decreases chars@.len() - end,
    {
        assert(chars@.subrange(start as int, end + 1) =~= chars@.subrange(
            start as int,
            end as int,
        ).push(chars@[end as int]));
        end = end + 1;
    }
    if start == end {
        return None;
    }
    parse_digits(&chars, start, end, u64::MAX)
}

/// Reads one line.
pub fn parse_local_stop(line: &str) -> (r: Result<LocalControlAction, String>)
    ensures
        text::agrees(r, local_stop(line@)),
{
    let is_stop: bool = match json_string_field(line, "type") {
        Some(command) => same_text(command.as_str(), "LOCAL_STOP"),
        None => false,
    };
    if !is_stop {
        return Ok(LocalControlAction::Ignore);
    }
    let version_ok: bool = match json_u64_field(line, "version") {
        Some(version) => version == LOCAL_STOP_VERSION,
        None => false,
    };
    if !version_ok {
        return Err("LOCAL_STOP version must be 1".to_string());
    }
    let reason_ok: bool = match json_string_field(line, "reason") {
        Some(reason) => same_text(reason.as_str(), "gui_stop") || same_text(
            reason.as_str(),
            "app_close",
        ) || same_text(reason.as_str(), "local_stop"),
        None => false,
    };
    if !reason_ok {
        return Err("LOCAL_STOP reason is invalid".to_string());
    }
    Ok(LocalControlAction::Stop)
}

/// The first line from `from` on that is not ignored.
pub open spec fn first_command(lines: Seq<String>, from: int) -> Option<int>
    decreases lines.len() - from,
{
    if from < 0 || from >= lines.len() {
        None
    } else if local_stop(lines[from]@) == Ok::<LocalControlAction, Seq<char>>(
        LocalControlAction::Ignore,
    ) {
        first_command(lines, from + 1)
    } else {
        Some(from)
    }
}

/// Reads lines until one asks for the end, which cancels the run.  A malformed
/// command ends the reading and cancels nothing.
pub fn consume_local_control(lines: &[String], cancellation: &mut CancellationToken) -> (r: Result<
    bool,
    String,
>)
    ensures
        match first_command(lines@, 0) {
            None => r == Ok::<bool, String>(false) && *final(cancellation) == *old(cancellation),
            Some(i) => match local_stop(lines@[i]@) {
                Ok(_) => r == Ok::<bool, String>(true) && *final(cancellation) == old(
                    cancellation,
                ).cancelled(StopReason::LocalStop),
                Err(error) => r is Err && r->Err_0@ == error && *final(cancellation) == *old(
                    cancellation,
                ),
            },
        },
{
    let mut i: usize = 0;
    while i < lines.len()
        invariant
            i <= lines.len(),
            *cancellation == *old(cancellation),
            first_command(lines@, i as int) == first_command(lines@, 0),
        decreases lines.len() - i,
    {
        match parse_local_stop(lines[i].as_str()) {
            Ok(LocalControlAction::Ignore) => {},
            Ok(LocalControlAction::Stop) => {
                let _ = cancellation.cancel(StopReason::LocalStop);
                return Ok(true);
            },
            Err(error) => {
                return Err(error);
            },
        }
        i = i + 1;
    }
    Ok(false)
}

/// Lines that ask for nothing cancel nothing, whatever stands before or between
/// them.
pub proof fn law_ignored_lines_have_no_effect(lines: Seq<String>)
    requires
        forall|i: int|
            0 <= i < lines.len() ==> local_stop((#[trigger] lines[i])@) == Ok::<
                LocalControlAction,
                Seq<char>,
            >(LocalControlAction::Ignore),
    ensures
        first_command(lines, 0) is None,
{
    lemma_no_command_from(lines, 0);
}

proof fn lemma_no_command_from(lines: Seq<String>, from: int)
    requires
        0 <= from <= lines.len(),
        forall|i: int|
            0 <= i < lines.len() ==> local_stop((#[trigger] lines[i])@) == Ok::<
                LocalControlAction,
                Seq<char>,
            >(LocalControlAction::Ignore),
    ensures
        first_command(lines, from) is None,
    decreases lines.len() - from,
{
    if from < lines.len() {
        lemma_no_command_from(lines, from + 1);
    }
}

/// The first place of a needle is where it stands and stands nowhere before.
proof fn lemma_first_place(s: Seq<char>, needle: Seq<char>, from: int, at: int)
    requires
        0 <= from <= at < s.len(),
        stands_at(s, needle, at),
        forall|i: int| from <= i < at ==> !stands_at(s, needle, i),
    ensures
        find(s, needle, from) == Some(at),
    decreases at - from,
{
    if from < at {
        lemma_first_place(s, needle, from + 1, at);
    }
}

/// The value of a member begins behind its quoted name, a colon, and the space around it.
proof fn lemma_value_starts(
    line: Seq<char>,
    before: Seq<char>,
    field: Seq<char>,
    gap: Seq<char>,
    space: Seq<char>,
    value: Seq<char>,
)
    requires
        line == before + quoted(field) + gap + seq![':'] + space + value,
        forall|i: int| 0 <= i < before.len() ==> !stands_at(line, quoted(field), i),
        text::is_blank(gap),
        text::is_blank(space),
        value.len() > 0,
        !text::is_space(value[0]),
    ensures
        value_start(line, field) == Some(line.len() - value.len()),
{
    let at = before.len() as int;
    let name_end = at + quoted(field).len();
    let colon = name_end + gap.len();
    let start = colon + 1 + space.len();
    assert(line.subrange(at, name_end) =~= quoted(field));
    lemma_first_place(line, quoted(field), 0, at);
    assert(line[colon] == ':');
    assert forall|i: int| name_end <= i < colon implies text::is_space(#[trigger] line[i]) by {
        assert(line[i] == gap[i - name_end]);
    }
    text::law_blanks_are_skipped(line, name_end, colon);
    assert forall|i: int| colon + 1 <= i < start implies text::is_space(#[trigger] line[i]) by {
        assert(line[i] == space[i - colon - 1]);
    }
    assert(line[start] == value[0]);
    text::law_blanks_are_skipped(line, colon + 1, start);
}

/// A member that holds a text gives that text, whatever stands around it.
pub proof fn law_texts_of_members_are_found(
    before: Seq<char>,
    field: Seq<char>,
    gap: Seq<char>,
    space: Seq<char>,
    value: Seq<char>,
    after: Seq<char>,
)
    requires
        text::is_blank(gap),
        text::is_blank(space),
        forall|i: int| 0 <= i < value.len() ==> #[trigger] value[i] != '"',
        forall|i: int|
            0 <= i < before.len() ==> !stands_at(
                before + quoted(field) + gap + seq![':'] + space + (seq!['"'] + value + seq!['"']
                    + after),
                quoted(field),
                i,
            ),
    ensures
        string_field(
            before + quoted(field) + gap + seq![':'] + space + (seq!['"'] + value + seq!['"']
                + after),
            field,
        ) == Some(value),
{
    let rest = seq!['"'] + value + seq!['"'] + after;
    let line = before + quoted(field) + gap + seq![':'] + space + rest;
    assert(rest[0] == '"');
    lemma_value_starts(line, before, field, gap, space, rest);
    let start = line.len() - rest.len();
    let end = start + 1 + value.len();
    assert(line[start] == rest[0]);
    assert(line[end] == rest[1 + value.len() as int]);
    assert(line.subrange(end, end + 1) =~= seq!['"']);
    assert forall|i: int| start + 1 <= i < end implies !stands_at(line, seq!['"'], i) by {
        assert(line[i] == rest[i - start]);
        assert(rest[i - start] == value[i - start - 1]);
        assert(line.subrange(i, i + 1)[0] == line[i]);
        assert(line.subrange(i, i + 1) != seq!['"']) by {
            assert(seq!['"'][0] == '"');
        }
    }
    lemma_first_place(line, seq!['"'], start + 1, end);
    assert(line.subrange(start + 1, end) =~= value);
}

/// A member that holds a number gives that number, whatever stands around it.
pub proof fn law_numbers_of_members_are_found(
    before: Seq<char>,
    field: Seq<char>,
    gap: Seq<char>,
    space: Seq<char>,
    n: u64,
    after: Seq<char>,
)
    requires
        text::is_blank(gap),
        text::is_blank(space),
        after.len() == 0 || !text::is_digit(after[0]),
        forall|i: int|
            0 <= i < before.len() ==> !stands_at(
                before + quoted(field) + gap + seq![':'] + space + (text::decimal(n as nat)
                    + after),
                quoted(field),
                i,
            ),
    ensures
        number_field(
            before + quoted(field) + gap + seq![':'] + space + (text::decimal(n as nat) + after),
            field,
        ) == Some(n as nat),
{
    let digits = text::decimal(n as nat);
    let rest = digits + after;
    let line = before + quoted(field) + gap + seq![':'] + space + rest;
    text::law_number_of_decimal(n as nat);
    assert(text::is_digit(digits[0]) && rest[0] == digits[0]);
    lemma_value_starts(line, before, field, gap, space, rest);
    let start = line.len() - rest.len();
    let end = start + digits.len();
    assert forall|i: int| start <= i < end implies text::is_digit(#[trigger] line[i]) by {
        assert(line[i] == digits[i - start]);
    }
    if after.len() > 0 {
        assert(line[end] == after[0]);
    }
    lemma_digits_end(line, start, end);
    assert(line.subrange(start, end) =~= digits);
}

proof fn lemma_digits_end(s: Seq<char>, from: int, to: int)
    requires
        0 <= from <= to <= s.len(),
        forall|i: int| from <= i < to ==> text::is_digit(#[trigger] s[i]),
        to == s.len() || !text::is_digit(s[to]),
    ensures
        skip_digits(s, from) == to,
    decreases to - from,
{
    if from < to {
        lemma_digits_end(s, from + 1, to);
    }
}

/// A line asks for the end exactly when it is of the right type, has version one, and gives
/// one of three reasons; of another type it asks for nothing, and else it is malformed.
pub proof fn law_stop_is_asked_for(line: Seq<char>)
    ensures
        local_stop(line) == Ok::<LocalControlAction, Seq<char>>(LocalControlAction::Stop) <==> {
            &&& string_field(line, "type"@) == Some("LOCAL_STOP"@)
            &&& number_field(line, "version"@) == Some(1nat)
            &&& string_field(line, "reason"@) == Some("gui_stop"@) || string_field(line, "reason"@)
                == Some("app_close"@) || string_field(line, "reason"@) == Some("local_stop"@)
        },
        local_stop(line) == Ok::<LocalControlAction, Seq<char>>(LocalControlAction::Ignore)
            <==> string_field(line, "type"@) != Some("LOCAL_STOP"@),
        string_field(line, "type"@) == Some("LOCAL_STOP"@) && number_field(line, "version"@)
            != Some(1nat) ==> local_stop(line) == Err::<LocalControlAction, Seq<char>>(
            "LOCAL_STOP version must be 1"@,
        ),
        local_stop(line) is Err && number_field(line, "version"@) == Some(1nat) ==> local_stop(line)
            == Err::<LocalControlAction, Seq<char>>("LOCAL_STOP reason is invalid"@),
{
}

/// The first line that is not ignored is the one that counts.
pub proof fn law_first_command_counts(lines: Seq<String>, from: int, at: int)
    requires
        0 <= from <= at < lines.len(),
        forall|i: int|
            from <= i < at ==> local_stop((#[trigger] lines[i])@) == Ok::<
                LocalControlAction,
                Seq<char>,
            >(LocalControlAction::Ignore),
        local_stop(lines[at]@) != Ok::<LocalControlAction, Seq<char>>(LocalControlAction::Ignore),
    ensures
        first_command(lines, from) == Some(at),
    decreases at - from,
{
    if from < at {
        law_first_command_counts(lines, from + 1, at);
    }
}

} // verus!
