//! The self-test of the command line.

use vstd::prelude::*;

use crate::choices::{
    AdaptiveMode, AvSyncMode, DisplayRefreshDetect, MaxFps, RenderBackend, RenderScaleMode,
    WindowMode,
};
use crate::cli;
use crate::cli::{parse_args, Command};
use crate::cli_options;
use crate::cli_options::{
    AdaptiveOptions, CliOption, CommandKind, OptionGroup, OptionsModel, ProbeOptions,
    StreamOptions, TextOptions, ViewOptions,
};
use crate::cli_values;
use crate::cli_values::{
    parse_audio_frame_ms, parse_audio_jitter_buffer_ms, parse_fec_mode,
    parse_keyframe_interval_sec, parse_milliseconds, parse_packet_pacing, parse_reorder_wait_ms,
    parse_udp_payload_size, FecMode,
};
use crate::h264_recv_view::AudioRecvMode;
use crate::h264_send_probe::{AudioSendMode, PacketPacing};
use crate::media_packet::DEFAULT_REALTIME_UDP_PAYLOAD_SIZE;
use crate::real_number::{Real, HALF_BITS};
use crate::text;
use crate::text::same_text;

verus! {

// Numbers and words.

/// What a number of up to five digits spells.
proof fn lemma_digits(s: Seq<char>)
    requires
        1 <= s.len() <= 5,
        text::all_digits(s),
    ensures
        s.len() == 1 ==> text::number(s) == Some(text::digit_value(s[0])),
        s.len() == 2 ==> text::number(s) == Some(
            text::digit_value(s[0]) * 10 + text::digit_value(s[1]),
        ),
        s.len() == 3 ==> text::number(s) == Some(
            text::digit_value(s[0]) * 100 + text::digit_value(s[1]) * 10 + text::digit_value(s[2]),
        ),
        s.len() == 4 ==> text::number(s) == Some(
            text::digit_value(s[0]) * 1000 + text::digit_value(s[1]) * 100 + text::digit_value(s[2])
                * 10 + text::digit_value(s[3]),
        ),
        s.len() == 5 ==> text::number(s) == Some(
            text::digit_value(s[0]) * 10000 + text::digit_value(s[1]) * 1000 + text::digit_value(
                s[2],
            ) * 100 + text::digit_value(s[3]) * 10 + text::digit_value(s[4]),
        ),
{
    reveal_with_fuel(text::digits_value, 6);
    assert(text::is_digit(s[0]));
}

/// The numbers of the self-test.
proof fn lemma_numbers()
    ensures
        text::number("0"@) == Some(0nat),
        text::number("2"@) == Some(2nat),
        text::number("5"@) == Some(5nat),
        text::number("20"@) == Some(20nat),
        text::number("42"@) == Some(42nat),
        text::number("60"@) == Some(60nat),
        text::number("80"@) == Some(80nat),
        text::number("120"@) == Some(120nat),
        text::number("500"@) == Some(500nat),
        text::number("501"@) == Some(501nat),
        text::number("750"@) == Some(750nat),
        text::number("1200"@) == Some(1200nat),
        text::number("1452"@) == Some(1452nat),
        text::number("1472"@) == Some(1472nat),
        text::number("1600"@) == Some(1600nat),
        text::number("55134"@) == Some(55134nat),
        text::number("55135"@) == Some(55135nat),
        text::number("55200"@) == Some(55200nat),
        text::number("-1"@) is None,
{
    reveal_strlit("0");
    assert("0"@.len() == 1);
    assert("0"@[0] == '0');
    lemma_digits("0"@);
    reveal_strlit("2");
    assert("2"@.len() == 1);
    assert("2"@[0] == '2');
    lemma_digits("2"@);
    reveal_strlit("5");
    assert("5"@.len() == 1);
    assert("5"@[0] == '5');
    lemma_digits("5"@);
    reveal_strlit("20");
    assert("20"@.len() == 2);
    assert("20"@[0] == '2');
    assert("20"@[1] == '0');
    lemma_digits("20"@);
    reveal_strlit("42");
    assert("42"@.len() == 2);
    assert("42"@[0] == '4');
    assert("42"@[1] == '2');
    lemma_digits("42"@);
    reveal_strlit("60");
    assert("60"@.len() == 2);
    assert("60"@[0] == '6');
    assert("60"@[1] == '0');
    lemma_digits("60"@);
    reveal_strlit("80");
    assert("80"@.len() == 2);
    assert("80"@[0] == '8');
    assert("80"@[1] == '0');
    lemma_digits("80"@);
    reveal_strlit("120");
    assert("120"@.len() == 3);
    assert("120"@[0] == '1');
    assert("120"@[1] == '2');
    assert("120"@[2] == '0');
    lemma_digits("120"@);
    reveal_strlit("500");
    assert("500"@.len() == 3);
    assert("500"@[0] == '5');
    assert("500"@[1] == '0');
    assert("500"@[2] == '0');
    lemma_digits("500"@);
    reveal_strlit("501");
    assert("501"@.len() == 3);
    assert("501"@[0] == '5');
    assert("501"@[1] == '0');
    assert("501"@[2] == '1');
    lemma_digits("501"@);
    reveal_strlit("750");
    assert("750"@.len() == 3);
    assert("750"@[0] == '7');
    assert("750"@[1] == '5');
    assert("750"@[2] == '0');
    lemma_digits("750"@);
    reveal_strlit("1200");
    assert("1200"@.len() == 4);
    assert("1200"@[0] == '1');
    assert("1200"@[1] == '2');
    assert("1200"@[2] == '0');
    assert("1200"@[3] == '0');
    lemma_digits("1200"@);
    reveal_strlit("1452");
    assert("1452"@.len() == 4);
    assert("1452"@[0] == '1');
    assert("1452"@[1] == '4');
    assert("1452"@[2] == '5');
    assert("1452"@[3] == '2');
    lemma_digits("1452"@);
    reveal_strlit("1472");
    assert("1472"@.len() == 4);
    assert("1472"@[0] == '1');
    assert("1472"@[1] == '4');
    assert("1472"@[2] == '7');
    assert("1472"@[3] == '2');
    lemma_digits("1472"@);
    reveal_strlit("1600");
    assert("1600"@.len() == 4);
    assert("1600"@[0] == '1');
    assert("1600"@[1] == '6');
    assert("1600"@[2] == '0');
    assert("1600"@[3] == '0');
    lemma_digits("1600"@);
    reveal_strlit("55134");
    assert("55134"@.len() == 5);
    assert("55134"@[0] == '5');
    assert("55134"@[1] == '5');
    assert("55134"@[2] == '1');
    assert("55134"@[3] == '3');
    assert("55134"@[4] == '4');
    lemma_digits("55134"@);
    reveal_strlit("55135");
    assert("55135"@.len() == 5);
    assert("55135"@[0] == '5');
    assert("55135"@[1] == '5');
    assert("55135"@[2] == '1');
    assert("55135"@[3] == '3');
    assert("55135"@[4] == '5');
    lemma_digits("55135"@);
    reveal_strlit("55200");
    assert("55200"@.len() == 5);
    assert("55200"@[0] == '5');
    assert("55200"@[1] == '5');
    assert("55200"@[2] == '2');
    assert("55200"@[3] == '0');
    assert("55200"@[4] == '0');
    lemma_digits("55200"@);
    reveal_strlit("-1");
    assert("-1"@.len() == 2 && "-1"@[0] == '-');
    assert(!text::is_digit("-1"@[0]));
}

/// The words of the self-test are written in lower case.
proof fn lemma_words_are_lower()
    ensures
        cli_values::lower("auto"@) == "auto"@,
        cli_values::lower("batch"@) == "batch"@,
        cli_values::lower("off"@) == "off"@,
        cli_values::lower("true"@) == "true"@,
        cli_values::lower("false"@) == "false"@,
        cli_values::lower("single-xor"@) == "single-xor"@,
        cli_values::lower("invalid"@) == "invalid"@,
{
    reveal_strlit("auto");
    assert(cli_values::lower("auto"@) =~= "auto"@);
    reveal_strlit("batch");
    assert(cli_values::lower("batch"@) =~= "batch"@);
    reveal_strlit("off");
    assert(cli_values::lower("off"@) =~= "off"@);
    reveal_strlit("true");
    assert(cli_values::lower("true"@) =~= "true"@);
    reveal_strlit("false");
    assert(cli_values::lower("false"@) =~= "false"@);
    reveal_strlit("single-xor");
    assert(cli_values::lower("single-xor"@) =~= "single-xor"@);
    reveal_strlit("invalid");
    assert(cli_values::lower("invalid"@) =~= "invalid"@);
}

/// What tells the words of the self-test apart: their lengths, and some of their letters.
spec fn words_are_told_apart() -> bool {
    &&& "auto"@.len() == 4 && "auto"@[0] == 'a' && "auto"@[1] == 'u'
    &&& "batch"@.len() == 5 && "batch"@[0] == 'b' && "batch"@[1] == 'a'
    &&& "off"@.len() == 3 && "off"@[0] == 'o' && "off"@[1] == 'f'
    &&& "on"@.len() == 2 && "on"@[0] == 'o' && "on"@[1] == 'n'
    &&& "true"@.len() == 4 && "true"@[0] == 't' && "true"@[1] == 'r'
    &&& "false"@.len() == 5 && "false"@[0] == 'f' && "false"@[1] == 'a'
    &&& "single-xor"@.len() == 10 && "single-xor"@[0] == 's' && "single-xor"@[1] == 'i'
    &&& "invalid"@.len() == 7 && "invalid"@[0] == 'i' && "invalid"@[1] == 'n'
    &&& "yes"@.len() == 3 && "yes"@[0] == 'y' && "yes"@[1] == 'e'
    &&& "no"@.len() == 2 && "no"@[0] == 'n' && "no"@[1] == 'o'
    &&& "1"@.len() == 1 && "1"@[0] == '1'
    &&& "0"@.len() == 1 && "0"@[0] == '0'
    &&& "60"@.len() == 2 && "60"@[0] == '6' && "60"@[1] == '0'
    &&& "75"@.len() == 2 && "75"@[0] == '7' && "75"@[1] == '5'
    &&& "90"@.len() == 2 && "90"@[0] == '9' && "90"@[1] == '0'
    &&& "120"@.len() == 3 && "120"@[0] == '1' && "120"@[1] == '2'
    &&& "smoothness"@.len() == 10 && "smoothness"@[0] == 's' && "smoothness"@[1] == 'm'
    &&& "system"@.len() == 6 && "system"@[0] == 's' && "system"@[1] == 'y'
    &&& "conservative"@.len() == 12 && "conservative"@[0] == 'c' && "conservative"@[1] == 'o'
    &&& "windowed"@.len() == 8 && "windowed"@[0] == 'w' && "windowed"@[1] == 'i'
    &&& "borderless-fullscreen"@.len() == 21 && "borderless-fullscreen"@[0] == 'b'
        && "borderless-fullscreen"@[1] == 'o'
    &&& "42"@.len() == 2 && "42"@[0] == '4' && "42"@[1] == '2'
}

proof fn lemma_words_are_told_apart()
    ensures
        words_are_told_apart(),
{
    reveal_strlit("auto");
    reveal_strlit("batch");
    reveal_strlit("off");
    reveal_strlit("on");
    reveal_strlit("true");
    reveal_strlit("false");
    reveal_strlit("single-xor");
    reveal_strlit("invalid");
    reveal_strlit("yes");
    reveal_strlit("no");
    reveal_strlit("1");
    reveal_strlit("0");
    reveal_strlit("60");
    reveal_strlit("75");
    reveal_strlit("90");
    reveal_strlit("120");
    reveal_strlit("smoothness");
    reveal_strlit("system");
    reveal_strlit("conservative");
    reveal_strlit("windowed");
    reveal_strlit("borderless-fullscreen");
    reveal_strlit("42");
}

// Lines.

/// No argument spells a real number.
spec fn no_numbers(n: nat) -> Seq<Option<Real>> {
    Seq::new(n, |i: int| None)
}

/// What a command line without real numbers asks for.
#[verifier::opaque]
spec fn meaning(args: Seq<String>) -> Result<Command<Seq<char>>, Seq<char>> {
    cli::command(args, no_numbers(args.len()), Err("no quality"@))
}

/// What the options of a line come to that are read from `i` on, after its first word.
#[verifier::opaque]
spec fn reading(kind: CommandKind, args: Seq<String>, i: int, now: OptionsModel) -> Result<
    Option<OptionsModel>,
    Seq<char>,
> {
    cli_options::scan(kind, args.skip(1), no_numbers(args.len()).skip(1), i, now)
}

/// Reads a command line without real numbers.
fn parse_words(args: &Vec<String>) -> (r: Result<Command<String>, String>)
    ensures
        cli::agrees(r, meaning(args@)),
{
    reveal(meaning);
    let mut numbers: Vec<Option<Real>> = Vec::new();
    while numbers.len() < args.len()
        invariant
            numbers@.len() <= args@.len(),
            numbers@ =~= no_numbers(numbers@.len()),
        decreases args@.len() - numbers@.len(),
    {
        numbers.push(None);
    }
    parse_args(args.as_slice(), numbers.as_slice(), &Err("no quality".to_string()))
}

/// A line whose first word names a command is the command with the options that follow.
proof fn lemma_line(kind: CommandKind, args: Seq<String>)
    requires
        args.len() > 0,
        args[0]@ == kind.word(),
    ensures
        meaning(args) == match reading(kind, args, 0, OptionsModel::unset()) {
            Ok(Some(o)) => cli::command_of(kind, o, Err("no quality"@)),
            Ok(None) => Ok(Command::Help),
            Err(error) => Err(error),
        },
{
    reveal(meaning);
    reveal(reading);
    cli_options::law_command_is_found_by_its_name(kind);
}

/// An option with its value is taken, and the rest is read.
proof fn lemma_step(
    kind: CommandKind,
    args: Seq<String>,
    i: int,
    option: CliOption,
    now: OptionsModel,
)
    requires
        0 <= i,
        i + 2 < args.len(),
        args[i + 1]@ == option.word(),
        option != CliOption::Verbose,
        kind.takes(option),
        cli_options::set_option(kind, option, args[i + 2]@, None, now) is Ok,
    ensures
        reading(kind, args, i, now) == reading(
            kind,
            args,
            i + 2,
            cli_options::set_option(kind, option, args[i + 2]@, None, now)->Ok_0,
        ),
{
    reveal(reading);
    cli_options::law_option_is_found_by_its_name(option);
    assert(args.skip(1)[i] == args[i + 1]);
    assert(args.skip(1)[i + 1] == args[i + 2]);
}

/// At the end of the line the options are as they were set.
proof fn lemma_end(kind: CommandKind, args: Seq<String>, now: OptionsModel)
    requires
        args.len() > 0,
    ensures
        reading(kind, args, args.len() - 1, now) == Ok::<Option<OptionsModel>, Seq<char>>(
            Some(now),
        ),
{
    reveal(reading);
}

proof fn lemma_host_step(
    kind: CommandKind,
    args: Seq<String>,
    i: int,
    now: OptionsModel,
)
    requires
        0 <= i,
        i + 2 < args.len(),
        args[i + 1]@ == "--host"@,
        kind.takes(CliOption::Host),
        kind.group(CliOption::Host) == OptionGroup::Texts,
    ensures
        reading(kind, args, i, now) == reading(
            kind,
            args,
            i + 2,
            OptionsModel { texts: TextOptions { host: Some(args[i + 2]@), ..now.texts }, ..now },
        ),
{
    lemma_step(kind, args, i, CliOption::Host, now);
}

proof fn lemma_output_step(
    kind: CommandKind,
    args: Seq<String>,
    i: int,
    now: OptionsModel,
)
    requires
        0 <= i,
        i + 2 < args.len(),
        args[i + 1]@ == "--output"@,
        kind.takes(CliOption::Output),
        kind.group(CliOption::Output) == OptionGroup::Texts,
        !text::is_blank(args[i + 2]@),
    ensures
        reading(kind, args, i, now) == reading(
            kind,
            args,
            i + 2,
            OptionsModel { texts: TextOptions { output: Some(args[i + 2]@), ..now.texts }, ..now },
        ),
{
    lemma_step(kind, args, i, CliOption::Output, now);
}

proof fn lemma_input_step(
    kind: CommandKind,
    args: Seq<String>,
    i: int,
    now: OptionsModel,
)
    requires
        0 <= i,
        i + 2 < args.len(),
        args[i + 1]@ == "--input"@,
        kind.takes(CliOption::Input),
        kind.group(CliOption::Input) == OptionGroup::Texts,
    ensures
        reading(kind, args, i, now) == reading(
            kind,
            args,
            i + 2,
            OptionsModel { texts: TextOptions { input: Some(args[i + 2]@), ..now.texts }, ..now },
        ),
{
    lemma_step(kind, args, i, CliOption::Input, now);
}

proof fn lemma_port_step(
    kind: CommandKind,
    args: Seq<String>,
    i: int,
    now: OptionsModel,
    value: nat,
)
    requires
        0 <= i,
        i + 2 < args.len(),
        args[i + 1]@ == "--port"@,
        kind.takes(CliOption::Port),
        kind.group(CliOption::Port) == OptionGroup::Stream,
        cli_values::port_value(args[i + 2]@) == Ok::<nat, Seq<char>>(value),
    ensures
        reading(kind, args, i, now) == reading(
            kind,
            args,
            i + 2,
            OptionsModel {
                stream: StreamOptions { port: Some(value as u16), ..now.stream },
                ..now
            },
        ),
{
    lemma_step(kind, args, i, CliOption::Port, now);
}

proof fn lemma_fps_step(
    kind: CommandKind,
    args: Seq<String>,
    i: int,
    now: OptionsModel,
    value: nat,
)
    requires
        0 <= i,
        i + 2 < args.len(),
        args[i + 1]@ == "--fps"@,
        kind.takes(CliOption::Fps),
        kind.group(CliOption::Fps) == OptionGroup::Stream,
        cli_values::fps_value(args[i + 2]@) == Ok::<nat, Seq<char>>(value),
    ensures
        reading(kind, args, i, now) == reading(
            kind,
            args,
            i + 2,
            OptionsModel { stream: StreamOptions { fps: Some(value as u32), ..now.stream }, ..now },
        ),
{
    lemma_step(kind, args, i, CliOption::Fps, now);
}

proof fn lemma_duration_sec_step(
    kind: CommandKind,
    args: Seq<String>,
    i: int,
    now: OptionsModel,
    value: nat,
)
    requires
        0 <= i,
        i + 2 < args.len(),
        args[i + 1]@ == "--duration-sec"@,
        kind.takes(CliOption::DurationSec),
        kind.group(CliOption::DurationSec) == OptionGroup::Stream,
        cli_values::duration_value(args[i + 2]@) == Ok::<nat, Seq<char>>(value),
    ensures
        reading(kind, args, i, now) == reading(
            kind,
            args,
            i + 2,
            OptionsModel {
                stream: StreamOptions { duration_sec: Some(value as u64), ..now.stream },
                ..now
            },
        ),
{
    lemma_step(kind, args, i, CliOption::DurationSec, now);
}

proof fn lemma_send_audio_step(
    kind: CommandKind,
    args: Seq<String>,
    i: int,
    now: OptionsModel,
    value: AudioSendMode,
)
    requires
        0 <= i,
        i + 2 < args.len(),
        args[i + 1]@ == "--audio"@,
        kind.takes(CliOption::Audio),
        kind.group(CliOption::Audio) == OptionGroup::Stream,
        AudioSendMode::named(args[i + 2]@) == Ok::<AudioSendMode, Seq<char>>(value),
    ensures
        reading(kind, args, i, now) == reading(
            kind,
            args,
            i + 2,
            OptionsModel { stream: StreamOptions { audio_mode: Some(value), ..now.stream }, ..now },
        ),
{
    lemma_step(kind, args, i, CliOption::Audio, now);
}

proof fn lemma_frame_ms_step(
    kind: CommandKind,
    args: Seq<String>,
    i: int,
    now: OptionsModel,
    value: nat,
)
    requires
        0 <= i,
        i + 2 < args.len(),
        args[i + 1]@ == "--frame-ms"@,
        kind.takes(CliOption::FrameMs),
        kind.group(CliOption::FrameMs) == OptionGroup::Probe,
        cli_values::audio_frame_value(args[i + 2]@) == Ok::<nat, Seq<char>>(value),
    ensures
        reading(kind, args, i, now) == reading(
            kind,
            args,
            i + 2,
            OptionsModel {
                probe: ProbeOptions { frame_ms: Some(value as u32), ..now.probe },
                ..now
            },
        ),
{
    lemma_step(kind, args, i, CliOption::FrameMs, now);
}

proof fn lemma_jitter_buffer_ms_step(
    kind: CommandKind,
    args: Seq<String>,
    i: int,
    now: OptionsModel,
    value: nat,
)
    requires
        0 <= i,
        i + 2 < args.len(),
        args[i + 1]@ == "--jitter-buffer-ms"@,
        kind.takes(CliOption::JitterBufferMs),
        kind.group(CliOption::JitterBufferMs) == OptionGroup::Viewer,
        cli_values::jitter_value(args[i + 2]@) == Ok::<nat, Seq<char>>(value),
    ensures
        reading(kind, args, i, now) == reading(
            kind,
            args,
            i + 2,
            OptionsModel {
                viewer: ViewOptions { jitter_buffer_ms: Some(value as u32), ..now.viewer },
                ..now
            },
        ),
{
    lemma_step(kind, args, i, CliOption::JitterBufferMs, now);
}

proof fn lemma_drop_damaged_gop_step(
    kind: CommandKind,
    args: Seq<String>,
    i: int,
    now: OptionsModel,
    value: bool,
)
    requires
        0 <= i,
        i + 2 < args.len(),
        args[i + 1]@ == "--drop-damaged-gop"@,
        kind.takes(CliOption::DropDamagedGop),
        kind.group(CliOption::DropDamagedGop) == OptionGroup::Viewer,
        cli_values::bool_value(args[i + 2]@) == Ok::<bool, Seq<char>>(value),
    ensures
        reading(kind, args, i, now) == reading(
            kind,
            args,
            i + 2,
            OptionsModel {
                viewer: ViewOptions { drop_damaged_gop: Some(value), ..now.viewer },
                ..now
            },
        ),
{
    lemma_step(kind, args, i, CliOption::DropDamagedGop, now);
}

proof fn lemma_recv_audio_step(
    kind: CommandKind,
    args: Seq<String>,
    i: int,
    now: OptionsModel,
    value: AudioRecvMode,
)
    requires
        0 <= i,
        i + 2 < args.len(),
        args[i + 1]@ == "--audio"@,
        kind.takes(CliOption::Audio),
        kind.group(CliOption::Audio) == OptionGroup::Viewer,
        AudioRecvMode::named(args[i + 2]@) == Ok::<AudioRecvMode, Seq<char>>(value),
    ensures
        reading(kind, args, i, now) == reading(
            kind,
            args,
            i + 2,
            OptionsModel { viewer: ViewOptions { audio_mode: Some(value), ..now.viewer }, ..now },
        ),
{
    lemma_step(kind, args, i, CliOption::Audio, now);
}

proof fn lemma_av_sync_step(
    kind: CommandKind,
    args: Seq<String>,
    i: int,
    now: OptionsModel,
    value: AvSyncMode,
)
    requires
        0 <= i,
        i + 2 < args.len(),
        args[i + 1]@ == "--av-sync"@,
        kind.takes(CliOption::AvSync),
        kind.group(CliOption::AvSync) == OptionGroup::Viewer,
        AvSyncMode::named(args[i + 2]@) == Ok::<AvSyncMode, Seq<char>>(value),
    ensures
        reading(kind, args, i, now) == reading(
            kind,
            args,
            i + 2,
            OptionsModel { viewer: ViewOptions { av_sync_mode: Some(value), ..now.viewer }, ..now },
        ),
{
    lemma_step(kind, args, i, CliOption::AvSync, now);
}

proof fn lemma_window_mode_step(
    kind: CommandKind,
    args: Seq<String>,
    i: int,
    now: OptionsModel,
    value: WindowMode,
)
    requires
        0 <= i,
        i + 2 < args.len(),
        args[i + 1]@ == "--window-mode"@,
        kind.takes(CliOption::WindowMode),
        kind.group(CliOption::WindowMode) == OptionGroup::Viewer,
        WindowMode::named(args[i + 2]@) == Ok::<WindowMode, Seq<char>>(value),
    ensures
        reading(kind, args, i, now) == reading(
            kind,
            args,
            i + 2,
            OptionsModel { viewer: ViewOptions { window_mode: Some(value), ..now.viewer }, ..now },
        ),
{
    lemma_step(kind, args, i, CliOption::WindowMode, now);
}

proof fn lemma_adaptive_quality_step(
    kind: CommandKind,
    args: Seq<String>,
    i: int,
    now: OptionsModel,
    value: AdaptiveMode,
)
    requires
        0 <= i,
        i + 2 < args.len(),
        args[i + 1]@ == "--adaptive-quality"@,
        kind.takes(CliOption::AdaptiveQuality),
        kind.group(CliOption::AdaptiveQuality) == OptionGroup::Adaptive,
        AdaptiveMode::named(args[i + 2]@) == Ok::<AdaptiveMode, Seq<char>>(value),
    ensures
        reading(kind, args, i, now) == reading(
            kind,
            args,
            i + 2,
            OptionsModel { adaptive: AdaptiveOptions { mode: Some(value), ..now.adaptive }, ..now },
        ),
{
    lemma_step(kind, args, i, CliOption::AdaptiveQuality, now);
}

proof fn lemma_max_fps_step(
    kind: CommandKind,
    args: Seq<String>,
    i: int,
    now: OptionsModel,
    value: MaxFps,
)
    requires
        0 <= i,
        i + 2 < args.len(),
        args[i + 1]@ == "--max-fps"@,
        kind.takes(CliOption::MaxFps),
        kind.group(CliOption::MaxFps) == OptionGroup::Adaptive,
        MaxFps::named(args[i + 2]@) == Ok::<MaxFps, Seq<char>>(value),
    ensures
        reading(kind, args, i, now) == reading(
            kind,
            args,
            i + 2,
            OptionsModel {
                adaptive: AdaptiveOptions { max_fps: Some(value), ..now.adaptive },
                ..now
            },
        ),
{
    lemma_step(kind, args, i, CliOption::MaxFps, now);
}

proof fn lemma_enable_high_refresh_step(
    kind: CommandKind,
    args: Seq<String>,
    i: int,
    now: OptionsModel,
    value: bool,
)
    requires
        0 <= i,
        i + 2 < args.len(),
        args[i + 1]@ == "--enable-high-refresh"@,
        kind.takes(CliOption::EnableHighRefresh),
        kind.group(CliOption::EnableHighRefresh) == OptionGroup::Adaptive,
        cli_values::bool_value(args[i + 2]@) == Ok::<bool, Seq<char>>(value),
    ensures
        reading(kind, args, i, now) == reading(
            kind,
            args,
            i + 2,
            OptionsModel {
                adaptive: AdaptiveOptions { enable_high_refresh: Some(value), ..now.adaptive },
                ..now
            },
        ),
{
    lemma_step(kind, args, i, CliOption::EnableHighRefresh, now);
}

proof fn lemma_adaptive_feedback_ms_step(
    kind: CommandKind,
    args: Seq<String>,
    i: int,
    now: OptionsModel,
    value: nat,
)
    requires
        0 <= i,
        i + 2 < args.len(),
        args[i + 1]@ == "--adaptive-feedback-ms"@,
        kind.takes(CliOption::AdaptiveFeedbackMs),
        kind.group(CliOption::AdaptiveFeedbackMs) == OptionGroup::Adaptive,
        cli_values::ranged_value(
            args[i + 2]@,
            "adaptive-feedback-ms"@,
            500,
            2000,
            u64::MAX as nat,
        ) == Ok::<nat, Seq<char>>(value),
    ensures
        reading(kind, args, i, now) == reading(
            kind,
            args,
            i + 2,
            OptionsModel {
                adaptive: AdaptiveOptions { feedback_ms: Some(value as u64), ..now.adaptive },
                ..now
            },
        ),
{
    lemma_step(kind, args, i, CliOption::AdaptiveFeedbackMs, now);
}

proof fn lemma_audio_capture_probe_line(args: Seq<String>, o: OptionsModel)
    requires
        args.len() > 0,
        args[0]@ == "audio-capture-probe"@,
        reading(CommandKind::AudioCaptureProbe, args, 0, OptionsModel::unset()) == Ok::<
            Option<OptionsModel>,
            Seq<char>,
        >(Some(o)),
    ensures
        meaning(args) == cli::audio_capture_probe_command(o),
{
    lemma_line(CommandKind::AudioCaptureProbe, args);
}

proof fn lemma_audio_send_line(args: Seq<String>, o: OptionsModel)
    requires
        args.len() > 0,
        args[0]@ == "audio-send"@,
        reading(CommandKind::AudioSend, args, 0, OptionsModel::unset()) == Ok::<
            Option<OptionsModel>,
            Seq<char>,
        >(Some(o)),
    ensures
        meaning(args) == cli::audio_send_command(o),
{
    lemma_line(CommandKind::AudioSend, args);
}

proof fn lemma_audio_recv_play_line(args: Seq<String>, o: OptionsModel)
    requires
        args.len() > 0,
        args[0]@ == "audio-recv-play"@,
        reading(CommandKind::AudioRecvPlay, args, 0, OptionsModel::unset()) == Ok::<
            Option<OptionsModel>,
            Seq<char>,
        >(Some(o)),
    ensures
        meaning(args) == cli::audio_recv_play_command(o),
{
    lemma_line(CommandKind::AudioRecvPlay, args);
}

proof fn lemma_h264_recv_dump_line(args: Seq<String>, o: OptionsModel)
    requires
        args.len() > 0,
        args[0]@ == "h264-recv-dump"@,
        reading(CommandKind::H264RecvDump, args, 0, OptionsModel::unset()) == Ok::<
            Option<OptionsModel>,
            Seq<char>,
        >(Some(o)),
    ensures
        meaning(args) == cli::h264_recv_dump_command(o),
{
    lemma_line(CommandKind::H264RecvDump, args);
}

proof fn lemma_screen_send_line(args: Seq<String>, o: OptionsModel)
    requires
        args.len() > 0,
        args[0]@ == "screen-send"@,
        reading(CommandKind::ScreenSend, args, 0, OptionsModel::unset()) == Ok::<
            Option<OptionsModel>,
            Seq<char>,
        >(Some(o)),
    ensures
        meaning(args) == cli::screen_send_command(o, Err("no quality"@)),
{
    lemma_line(CommandKind::ScreenSend, args);
}

proof fn lemma_screen_recv_line(args: Seq<String>, o: OptionsModel)
    requires
        args.len() > 0,
        args[0]@ == "screen-recv"@,
        reading(CommandKind::ScreenRecv, args, 0, OptionsModel::unset()) == Ok::<
            Option<OptionsModel>,
            Seq<char>,
        >(Some(o)),
    ensures
        meaning(args) == cli::screen_recv_command(o),
{
    lemma_line(CommandKind::ScreenRecv, args);
}

proof fn lemma_h264_recv_view_line(args: Seq<String>, o: OptionsModel)
    requires
        args.len() > 0,
        args[0]@ == "h264-recv-view"@,
        reading(CommandKind::H264RecvView, args, 0, OptionsModel::unset()) == Ok::<
            Option<OptionsModel>,
            Seq<char>,
        >(Some(o)),
    ensures
        meaning(args) == cli::h264_recv_view_command(o),
{
    lemma_line(CommandKind::H264RecvView, args);
}

proof fn lemma_h264_file_viewer_line(args: Seq<String>, o: OptionsModel)
    requires
        args.len() > 0,
        args[0]@ == "h264-file-viewer"@,
        reading(CommandKind::H264FileViewer, args, 0, OptionsModel::unset()) == Ok::<
            Option<OptionsModel>,
            Seq<char>,
        >(Some(o)),
    ensures
        meaning(args) == cli::h264_file_viewer_command(o),
{
    lemma_line(CommandKind::H264FileViewer, args);
}

fn audio_capture_probe_line() -> (r: Result<(), String>)
    ensures
        r is Ok,
{
    let args: Vec<String> = vec![
        "audio-capture-probe".to_string(),
        "--duration-sec".to_string(),
        "2".to_string(),
        "--output".to_string(),
        "test_audio.pcm".to_string(),
    ];
    proof {
        lemma_numbers();
        lemma_words_are_told_apart();
        lemma_words_are_lower();
        let o0 = OptionsModel::unset();
        lemma_duration_sec_step(CommandKind::AudioCaptureProbe, args@, 0, o0, 2);
        let o1 = OptionsModel {
            stream: StreamOptions { duration_sec: Some(2), ..o0.stream },
            ..o0
        };
        reveal_strlit("test_audio.pcm");
        assert(!text::is_space("test_audio.pcm"@[0]));
        lemma_output_step(CommandKind::AudioCaptureProbe, args@, 2, o1);
        let o2 = OptionsModel {
            texts: TextOptions { output: Some("test_audio.pcm"@), ..o1.texts },
            ..o1
        };
        lemma_end(CommandKind::AudioCaptureProbe, args@, o2);
        lemma_audio_capture_probe_line(args@, o2);
    }
    match parse_words(&args)? {
        Command::AudioCaptureProbe(config) => {
            if config.duration_sec == 2 && same_text(config.output.as_str(), "test_audio.pcm") {
                return Ok(());
            }
        },
        _ => {},
    }
    Err("audio-capture-probe parsing failed".to_string())
}

fn audio_send_line() -> (r: Result<(), String>)
    ensures
        r is Ok,
{
    let args: Vec<String> = vec![
        "audio-send".to_string(),
        "--host".to_string(),
        "127.0.0.1".to_string(),
        "--port".to_string(),
        "55200".to_string(),
        "--frame-ms".to_string(),
        "20".to_string(),
    ];
    proof {
        lemma_numbers();
        lemma_words_are_told_apart();
        lemma_words_are_lower();
        let o0 = OptionsModel::unset();
        reveal_strlit("127.0.0.1");
        assert(!text::is_space("127.0.0.1"@[0]));
        lemma_host_step(CommandKind::AudioSend, args@, 0, o0);
        let o1 = OptionsModel {
            texts: TextOptions { host: Some("127.0.0.1"@), ..o0.texts },
            ..o0
        };
        lemma_port_step(CommandKind::AudioSend, args@, 2, o1, 55200);
        let o2 = OptionsModel {
            stream: StreamOptions { port: Some(55200), ..o1.stream },
            ..o1
        };
        lemma_frame_ms_step(CommandKind::AudioSend, args@, 4, o2, 20);
        let o3 = OptionsModel {
            probe: ProbeOptions { frame_ms: Some(20), ..o2.probe },
            ..o2
        };
        lemma_end(CommandKind::AudioSend, args@, o3);
        lemma_audio_send_line(args@, o3);
    }
    match parse_words(&args)? {
        Command::AudioSend(config) => {
            if same_text(config.host.as_str(), "127.0.0.1") && config.port == 55200
                    && config.frame_ms == 20 {
                return Ok(());
            }
        },
        _ => {},
    }
    Err("audio-send parsing failed".to_string())
}

fn audio_recv_play_line() -> (r: Result<(), String>)
    ensures
        r is Ok,
{
    let args: Vec<String> = vec![
        "audio-recv-play".to_string(),
        "--port".to_string(),
        "55200".to_string(),
        "--jitter-buffer-ms".to_string(),
        "80".to_string(),
    ];
    proof {
        lemma_numbers();
        lemma_words_are_told_apart();
        lemma_words_are_lower();
        let o0 = OptionsModel::unset();
        lemma_port_step(CommandKind::AudioRecvPlay, args@, 0, o0, 55200);
        let o1 = OptionsModel {
            stream: StreamOptions { port: Some(55200), ..o0.stream },
            ..o0
        };
        lemma_jitter_buffer_ms_step(CommandKind::AudioRecvPlay, args@, 2, o1, 80);
        let o2 = OptionsModel {
            viewer: ViewOptions { jitter_buffer_ms: Some(80), ..o1.viewer },
            ..o1
        };
        lemma_end(CommandKind::AudioRecvPlay, args@, o2);
        lemma_audio_recv_play_line(args@, o2);
    }
    match parse_words(&args)? {
        Command::AudioRecvPlay(config) => {
            if same_text(config.bind.as_str(), "0.0.0.0") && config.port == 55200
                    && config.jitter_buffer_ms == 80 {
                return Ok(());
            }
        },
        _ => {},
    }
    Err("audio-recv-play parsing failed".to_string())
}

fn damaged_gop_line() -> (r: Result<(), String>)
    ensures
        r is Ok,
{
    let args: Vec<String> = vec![
        "h264-recv-dump".to_string(),
        "--drop-damaged-gop".to_string(),
        "false".to_string(),
    ];
    proof {
        lemma_numbers();
        lemma_words_are_told_apart();
        lemma_words_are_lower();
        let o0 = OptionsModel::unset();
        lemma_drop_damaged_gop_step(CommandKind::H264RecvDump, args@, 0, o0, false);
        let o1 = OptionsModel {
            viewer: ViewOptions { drop_damaged_gop: Some(false), ..o0.viewer },
            ..o0
        };
        lemma_end(CommandKind::H264RecvDump, args@, o1);
        lemma_h264_recv_dump_line(args@, o1);
    }
    match parse_words(&args)? {
        Command::H264RecvDump(config) => {
            if !config.drop_damaged_gop {
                return Ok(());
            }
        },
        _ => {},
    }
    Err("drop-damaged-gop parsing failed".to_string())
}

fn screen_send_default_line() -> (r: Result<(), String>)
    ensures
        r is Ok,
{
    let args: Vec<String> = vec![
        "screen-send".to_string(),
        "--host".to_string(),
        "127.0.0.1".to_string(),
        "--port".to_string(),
        "55134".to_string(),
    ];
    proof {
        lemma_numbers();
        lemma_words_are_told_apart();
        lemma_words_are_lower();
        let o0 = OptionsModel::unset();
        reveal_strlit("127.0.0.1");
        assert(!text::is_space("127.0.0.1"@[0]));
        lemma_host_step(CommandKind::ScreenSend, args@, 0, o0);
        let o1 = OptionsModel {
            texts: TextOptions { host: Some("127.0.0.1"@), ..o0.texts },
            ..o0
        };
        lemma_port_step(CommandKind::ScreenSend, args@, 2, o1, 55134);
        let o2 = OptionsModel {
            stream: StreamOptions { port: Some(55134), ..o1.stream },
            ..o1
        };
        lemma_end(CommandKind::ScreenSend, args@, o2);
        lemma_screen_send_line(args@, o2);
    }
    match parse_words(&args)? {
        Command::ScreenSend(config) => {
            if config.udp_payload_size == DEFAULT_REALTIME_UDP_PAYLOAD_SIZE
                    && config.audio_mode == AudioSendMode::Off
                    && config.adaptive.quality.mode == AdaptiveMode::Off
                    && config.adaptive.max_fps == MaxFps::Fixed(60)
                    && !config.adaptive.enable_high_refresh
                    && config.adaptive.feedback_ms == 1000 {
                return Ok(());
            }
        },
        _ => {},
    }
    Err("screen-send UDP payload default mismatch".to_string())
}

fn screen_send_adaptive_line() -> (r: Result<(), String>)
    ensures
        r is Ok,
{
    let args: Vec<String> = vec![
        "screen-send".to_string(),
        "--host".to_string(),
        "127.0.0.1".to_string(),
        "--port".to_string(),
        "55134".to_string(),
        "--adaptive-quality".to_string(),
        "smoothness".to_string(),
        "--max-fps".to_string(),
        "120".to_string(),
        "--enable-high-refresh".to_string(),
        "true".to_string(),
        "--adaptive-feedback-ms".to_string(),
        "750".to_string(),
    ];
    proof {
        lemma_numbers();
        lemma_words_are_told_apart();
        lemma_words_are_lower();
        let o0 = OptionsModel::unset();
        reveal_strlit("127.0.0.1");
        assert(!text::is_space("127.0.0.1"@[0]));
        lemma_host_step(CommandKind::ScreenSend, args@, 0, o0);
        let o1 = OptionsModel {
            texts: TextOptions { host: Some("127.0.0.1"@), ..o0.texts },
            ..o0
        };
        lemma_port_step(CommandKind::ScreenSend, args@, 2, o1, 55134);
        let o2 = OptionsModel {
            stream: StreamOptions { port: Some(55134), ..o1.stream },
            ..o1
        };
        lemma_adaptive_quality_step(
            CommandKind::ScreenSend,
            args@,
            4,
            o2,
            AdaptiveMode::Smoothness,
        );
        let o3 = OptionsModel {
            adaptive: AdaptiveOptions { mode: Some(AdaptiveMode::Smoothness), ..o2.adaptive },
            ..o2
        };
        lemma_max_fps_step(CommandKind::ScreenSend, args@, 6, o3, MaxFps::Fixed(120));
        let o4 = OptionsModel {
            adaptive: AdaptiveOptions { max_fps: Some(MaxFps::Fixed(120)), ..o3.adaptive },
            ..o3
        };
        lemma_enable_high_refresh_step(CommandKind::ScreenSend, args@, 8, o4, true);
        let o5 = OptionsModel {
            adaptive: AdaptiveOptions { enable_high_refresh: Some(true), ..o4.adaptive },
            ..o4
        };
        lemma_adaptive_feedback_ms_step(CommandKind::ScreenSend, args@, 10, o5, 750);
        let o6 = OptionsModel {
            adaptive: AdaptiveOptions { feedback_ms: Some(750), ..o5.adaptive },
            ..o5
        };
        lemma_end(CommandKind::ScreenSend, args@, o6);
        lemma_screen_send_line(args@, o6);
    }
    match parse_words(&args)? {
        Command::ScreenSend(config) => {
            if config.adaptive.quality.mode == AdaptiveMode::Smoothness
                    && config.adaptive.max_fps == MaxFps::Fixed(120)
                    && config.adaptive.enable_high_refresh && config.adaptive.feedback_ms == 750 {
                return Ok(());
            }
        },
        _ => {},
    }
    Err("screen-send adaptive option parsing failed".to_string())
}

fn screen_send_audio_line() -> (r: Result<(), String>)
    ensures
        r is Ok,
{
    let args: Vec<String> = vec![
        "screen-send".to_string(),
        "--host".to_string(),
        "127.0.0.1".to_string(),
        "--port".to_string(),
        "55134".to_string(),
        "--audio".to_string(),
        "system".to_string(),
    ];
    proof {
        lemma_numbers();
        lemma_words_are_told_apart();
        lemma_words_are_lower();
        let o0 = OptionsModel::unset();
        reveal_strlit("127.0.0.1");
        assert(!text::is_space("127.0.0.1"@[0]));
        lemma_host_step(CommandKind::ScreenSend, args@, 0, o0);
        let o1 = OptionsModel {
            texts: TextOptions { host: Some("127.0.0.1"@), ..o0.texts },
            ..o0
        };
        lemma_port_step(CommandKind::ScreenSend, args@, 2, o1, 55134);
        let o2 = OptionsModel {
            stream: StreamOptions { port: Some(55134), ..o1.stream },
            ..o1
        };
        lemma_send_audio_step(CommandKind::ScreenSend, args@, 4, o2, AudioSendMode::System);
        let o3 = OptionsModel {
            stream: StreamOptions { audio_mode: Some(AudioSendMode::System), ..o2.stream },
            ..o2
        };
        lemma_end(CommandKind::ScreenSend, args@, o3);
        lemma_screen_send_line(args@, o3);
    }
    match parse_words(&args)? {
        Command::ScreenSend(config) => {
            if config.audio_mode == AudioSendMode::System {
                return Ok(());
            }
        },
        _ => {},
    }
    Err("screen-send audio parsing failed".to_string())
}

fn screen_recv_default_line() -> (r: Result<(), String>)
    ensures
        r is Ok,
{
    let args: Vec<String> = vec![
        "screen-recv".to_string(),
        "--port".to_string(),
        "55134".to_string(),
        "--fps".to_string(),
        "60".to_string(),
    ];
    proof {
        lemma_numbers();
        lemma_words_are_told_apart();
        lemma_words_are_lower();
        let o0 = OptionsModel::unset();
        lemma_port_step(CommandKind::ScreenRecv, args@, 0, o0, 55134);
        let o1 = OptionsModel {
            stream: StreamOptions { port: Some(55134), ..o0.stream },
            ..o0
        };
        lemma_fps_step(CommandKind::ScreenRecv, args@, 2, o1, 60);
        let o2 = OptionsModel {
            stream: StreamOptions { fps: Some(60), ..o1.stream },
            ..o1
        };
        lemma_end(CommandKind::ScreenRecv, args@, o2);
        lemma_screen_recv_line(args@, o2);
    }
    match parse_words(&args)? {
        Command::ScreenRecv(config) => {
            if config.playout_delay_ms == 120 && config.decoder_fps == 60
                    && config.render_scale == RenderScaleMode::Exact
                    && config.window_mode == WindowMode::Windowed
                    && config.render_backend == RenderBackend::D3d11
                    && config.audio_mode == AudioRecvMode::Off
                    && config.display_refresh_detect == DisplayRefreshDetect::Auto
                    && config.capability_feedback_ms == 1000 {
                return Ok(());
            }
        },
        _ => {},
    }
    Err("screen-recv playout delay default mismatch".to_string())
}

fn screen_recv_audio_line() -> (r: Result<(), String>)
    ensures
        r is Ok,
{
    let args: Vec<String> = vec![
        "screen-recv".to_string(),
        "--port".to_string(),
        "55134".to_string(),
        "--audio".to_string(),
        "on".to_string(),
    ];
    proof {
        lemma_numbers();
        lemma_words_are_told_apart();
        lemma_words_are_lower();
        let o0 = OptionsModel::unset();
        lemma_port_step(CommandKind::ScreenRecv, args@, 0, o0, 55134);
        let o1 = OptionsModel {
            stream: StreamOptions { port: Some(55134), ..o0.stream },
            ..o0
        };
        lemma_recv_audio_step(CommandKind::ScreenRecv, args@, 2, o1, AudioRecvMode::On);
        let o2 = OptionsModel {
            viewer: ViewOptions { audio_mode: Some(AudioRecvMode::On), ..o1.viewer },
            ..o1
        };
        lemma_end(CommandKind::ScreenRecv, args@, o2);
        lemma_screen_recv_line(args@, o2);
    }
    match parse_words(&args)? {
        Command::ScreenRecv(config) => {
            if config.audio_mode == AudioRecvMode::On && config.playout_delay_ms == 250
                    && config.audio_jitter_buffer_ms == 120
                    && config.av_sync_mode == AvSyncMode::Conservative {
                return Ok(());
            }
        },
        _ => {},
    }
    Err("screen-recv audio parsing failed".to_string())
}

fn screen_recv_free_line() -> (r: Result<(), String>)
    ensures
        r is Ok,
{
    let args: Vec<String> = vec![
        "screen-recv".to_string(),
        "--port".to_string(),
        "55134".to_string(),
        "--audio".to_string(),
        "on".to_string(),
        "--av-sync".to_string(),
        "off".to_string(),
    ];
    proof {
        lemma_numbers();
        lemma_words_are_told_apart();
        lemma_words_are_lower();
        let o0 = OptionsModel::unset();
        lemma_port_step(CommandKind::ScreenRecv, args@, 0, o0, 55134);
        let o1 = OptionsModel {
            stream: StreamOptions { port: Some(55134), ..o0.stream },
            ..o0
        };
        lemma_recv_audio_step(CommandKind::ScreenRecv, args@, 2, o1, AudioRecvMode::On);
        let o2 = OptionsModel {
            viewer: ViewOptions { audio_mode: Some(AudioRecvMode::On), ..o1.viewer },
            ..o1
        };
        lemma_av_sync_step(CommandKind::ScreenRecv, args@, 4, o2, AvSyncMode::Off);
        let o3 = OptionsModel {
            viewer: ViewOptions { av_sync_mode: Some(AvSyncMode::Off), ..o2.viewer },
            ..o2
        };
        lemma_end(CommandKind::ScreenRecv, args@, o3);
        lemma_screen_recv_line(args@, o3);
    }
    match parse_words(&args)? {
        Command::ScreenRecv(config) => {
            if config.av_sync_mode == AvSyncMode::Off {
                return Ok(());
            }
        },
        _ => {},
    }
    Err("screen-recv av-sync off parsing failed".to_string())
}

fn screen_recv_silent_line() -> (r: Result<(), String>)
    ensures
        r is Ok,
{
    let args: Vec<String> = vec![
        "screen-recv".to_string(),
        "--port".to_string(),
        "55134".to_string(),
        "--audio".to_string(),
        "off".to_string(),
        "--av-sync".to_string(),
        "conservative".to_string(),
    ];
    proof {
        lemma_numbers();
        lemma_words_are_told_apart();
        lemma_words_are_lower();
        let o0 = OptionsModel::unset();
        lemma_port_step(CommandKind::ScreenRecv, args@, 0, o0, 55134);
        let o1 = OptionsModel {
            stream: StreamOptions { port: Some(55134), ..o0.stream },
            ..o0
        };
        lemma_recv_audio_step(CommandKind::ScreenRecv, args@, 2, o1, AudioRecvMode::Off);
        let o2 = OptionsModel {
            viewer: ViewOptions { audio_mode: Some(AudioRecvMode::Off), ..o1.viewer },
            ..o1
        };
        lemma_av_sync_step(CommandKind::ScreenRecv, args@, 4, o2, AvSyncMode::Conservative);
        let o3 = OptionsModel {
            viewer: ViewOptions { av_sync_mode: Some(AvSyncMode::Conservative), ..o2.viewer },
            ..o2
        };
        lemma_end(CommandKind::ScreenRecv, args@, o3);
        lemma_screen_recv_line(args@, o3);
    }
    match parse_words(&args)? {
        Command::ScreenRecv(config) => {
            if config.av_sync_mode == AvSyncMode::Off {
                return Ok(());
            }
        },
        _ => {},
    }
    Err("audio-off did not force AV sync off".to_string())
}

fn recv_view_line() -> (r: Result<(), String>)
    ensures
        r is Ok,
{
    let args: Vec<String> = vec![
        "h264-recv-view".to_string(),
        "--port".to_string(),
        "55135".to_string(),
        "--fps".to_string(),
        "60".to_string(),
    ];
    proof {
        lemma_numbers();
        lemma_words_are_told_apart();
        lemma_words_are_lower();
        let o0 = OptionsModel::unset();
        lemma_port_step(CommandKind::H264RecvView, args@, 0, o0, 55135);
        let o1 = OptionsModel {
            stream: StreamOptions { port: Some(55135), ..o0.stream },
            ..o0
        };
        lemma_fps_step(CommandKind::H264RecvView, args@, 2, o1, 60);
        let o2 = OptionsModel {
            stream: StreamOptions { fps: Some(60), ..o1.stream },
            ..o1
        };
        lemma_end(CommandKind::H264RecvView, args@, o2);
        lemma_h264_recv_view_line(args@, o2);
    }
    match parse_words(&args)? {
        Command::H264RecvView(config) => {
            if config.playout_delay_ms == 120 && config.decoder_fps == 60
                    && config.render_scale == RenderScaleMode::Exact
                    && config.window_mode == WindowMode::Windowed
                    && config.render_backend == RenderBackend::D3d11 {
                return Ok(());
            }
        },
        _ => {},
    }
    Err("h264-recv-view playout delay default mismatch".to_string())
}

fn file_viewer_line() -> (r: Result<(), String>)
    ensures
        r is Ok,
{
    let args: Vec<String> = vec![
        "h264-file-viewer".to_string(),
        "--input".to_string(),
        "test.h264".to_string(),
    ];
    proof {
        lemma_numbers();
        lemma_words_are_told_apart();
        lemma_words_are_lower();
        let o0 = OptionsModel::unset();
        reveal_strlit("test.h264");
        assert(!text::is_space("test.h264"@[0]));
        lemma_input_step(CommandKind::H264FileViewer, args@, 0, o0);
        let o1 = OptionsModel {
            texts: TextOptions { input: Some("test.h264"@), ..o0.texts },
            ..o0
        };
        lemma_end(CommandKind::H264FileViewer, args@, o1);
        lemma_h264_file_viewer_line(args@, o1);
    }
    match parse_words(&args)? {
        Command::H264FileViewer(config) => {
            if config.render_scale == RenderScaleMode::Exact
                    && config.window_mode == WindowMode::Windowed
                    && config.render_backend == RenderBackend::Gdi {
                return Ok(());
            }
        },
        _ => {},
    }
    Err("h264-file-viewer render defaults mismatch".to_string())
}

fn file_viewer_window_line() -> (r: Result<(), String>)
    ensures
        r is Ok,
{
    let args: Vec<String> = vec![
        "h264-file-viewer".to_string(),
        "--input".to_string(),
        "test.h264".to_string(),
        "--window-mode".to_string(),
        "borderless-fullscreen".to_string(),
    ];
    proof {
        lemma_numbers();
        lemma_words_are_told_apart();
        lemma_words_are_lower();
        let o0 = OptionsModel::unset();
        reveal_strlit("test.h264");
        assert(!text::is_space("test.h264"@[0]));
        lemma_input_step(CommandKind::H264FileViewer, args@, 0, o0);
        let o1 = OptionsModel {
            texts: TextOptions { input: Some("test.h264"@), ..o0.texts },
            ..o0
        };
        lemma_window_mode_step(
            CommandKind::H264FileViewer,
            args@,
            2,
            o1,
            WindowMode::BorderlessFullscreen,
        );
        let o2 = OptionsModel {
            viewer: ViewOptions {
                window_mode: Some(WindowMode::BorderlessFullscreen),
                ..o1.viewer
            },
            ..o1
        };
        lemma_end(CommandKind::H264FileViewer, args@, o2);
        lemma_h264_file_viewer_line(args@, o2);
    }
    match parse_words(&args)? {
        Command::H264FileViewer(config) => {
            if config.render_scale == RenderScaleMode::Exact
                    && config.window_mode == WindowMode::BorderlessFullscreen {
                return Ok(());
            }
        },
        _ => {},
    }
    Err("h264-file-viewer window mode parsing mismatch".to_string())
}

// Values.

fn is_payload_size(text: &str, expected: usize) -> (r: Result<bool, String>)
    ensures
        match cli_values::udp_payload_value(text@) {
            Ok(n) => r is Ok && r->Ok_0 == (n as usize == expected),
            Err(error) => r is Err && r->Err_0@ == error,
        },
{
    let size: usize = parse_udp_payload_size(text)?;
    Ok(size == expected)
}

fn payload_size_values() -> (r: Result<(), String>)
    ensures
        r is Ok,
{
    proof {
        lemma_numbers();
    }
    if !is_payload_size("1200", 1200)? {
        return Err("UDP payload size parsing failed for 1200".to_string());
    }
    if !is_payload_size("1452", 1452)? {
        return Err("UDP payload size parsing failed for 1452".to_string());
    }
    if !is_payload_size("1472", 1472)? {
        return Err("UDP payload size parsing failed for 1472".to_string());
    }
    if parse_udp_payload_size("500").is_ok() || parse_udp_payload_size("1600").is_ok() {
        return Err("invalid UDP payload size was accepted".to_string());
    }
    Ok(())
}

fn pacing_values() -> (r: Result<(), String>)
    ensures
        r is Ok,
{
    proof {
        lemma_words_are_lower();
        lemma_words_are_told_apart();
    }
    let batch: PacketPacing = parse_packet_pacing("batch")?;
    let auto: PacketPacing = parse_packet_pacing("auto")?;
    if batch != PacketPacing::Batch || !same_text(auto.effective_name(), "batch") {
        return Err("batch packet pacing parsing failed".to_string());
    }
    Ok(())
}

fn audio_values() -> (r: Result<(), String>)
    ensures
        r is Ok,
{
    proof {
        lemma_numbers();
    }
    if parse_audio_frame_ms("5").is_ok() || parse_audio_jitter_buffer_ms("501").is_ok() {
        return Err("invalid audio UDP argument was accepted".to_string());
    }
    Ok(())
}

fn playout_values() -> (r: Result<(), String>)
    ensures
        r is Ok,
{
    proof {
        lemma_numbers();
    }
    parse_milliseconds("0", "playout-delay-ms", 0, 500)?;
    parse_milliseconds("120", "playout-delay-ms", 0, 500)?;
    parse_milliseconds("500", "playout-delay-ms", 0, 500)?;
    if parse_milliseconds("-1", "playout-delay-ms", 0, 500).is_ok() || parse_milliseconds(
        "501",
        "playout-delay-ms",
        0,
        500,
    ).is_ok() {
        return Err("invalid playout delay was accepted".to_string());
    }
    Ok(())
}

fn transport_values() -> (r: Result<(), String>)
    ensures
        r is Ok,
{
    proof {
        lemma_numbers();
        lemma_words_are_lower();
        lemma_words_are_told_apart();
    }
    let off: FecMode = parse_fec_mode("off")?;
    let parity: FecMode = parse_fec_mode("single-xor")?;
    if off != FecMode::Off || parity != FecMode::SingleXor || parse_fec_mode("invalid").is_ok() {
        return Err("FEC mode parsing failed".to_string());
    }
    let half: Real = Real { bits: HALF_BITS };
    let interval: Real = parse_keyframe_interval_sec("0.5", Some(half))?;
    if interval != half {
        return Err("fractional keyframe interval parsing failed".to_string());
    }
    let auto: Option<u64> = parse_reorder_wait_ms("auto")?;
    proof {
        assert(cli_values::lower("42"@).len() == 2);
    }
    let fixed: Option<u64> = parse_reorder_wait_ms("42")?;
    if auto.is_some() || fixed != Some(42u64) {
        return Err("reorder-wait-ms parsing failed".to_string());
    }
    Ok(())
}

/// Checks what command lines mean.
pub fn command_line_self_test() -> (r: Result<(), String>)
    ensures
        r is Ok,
{
    pacing_values()?;
    payload_size_values()?;
    audio_values()?;
    playout_values()?;
    transport_values()?;
    audio_capture_probe_line()?;
    audio_send_line()?;
    audio_recv_play_line()?;
    damaged_gop_line()?;
    screen_send_default_line()?;
    screen_send_adaptive_line()?;
    screen_send_audio_line()?;
    screen_recv_default_line()?;
    screen_recv_audio_line()?;
    screen_recv_free_line()?;
    screen_recv_silent_line()?;
    recv_view_line()?;
    file_viewer_line()?;
    file_viewer_window_line()
}

} // verus!
