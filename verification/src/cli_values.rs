//! The values of command line options.
//!
//! For each kind of value a spec function gives what a text means, or the error
//! that it causes; the executable function of the same purpose returns it.

use vstd::prelude::*;

use crate::h264_send_probe::PacketPacing;
use crate::media_packet;
use crate::media_packet::validate_udp_payload_size;
use crate::real_number::{
    Real, HALF_BITS, INFINITY_BITS, NEGATIVE_ZERO_BITS, ONE_BITS, SIXTY_BITS, THOUSAND_BITS,
};
use crate::text;
use crate::text::{characters, invalid_message, parse_number, push_decimal, same_text};

verus! {

/// Forward error correction.
#[derive(Clone, Copy, Debug, PartialEq, Eq, Structural)]
pub enum FecMode {
    Off,
    SingleXor,
}

/// Which encoder is asked for.
#[derive(Clone, Copy, Debug, PartialEq, Eq, Structural)]
pub enum EncoderChoice {
    Auto,
    Software,
    Microsoft,
    Hardware,
    IntelQsv,
}

/// What converts captured pictures.
#[derive(Clone, Copy, Debug, PartialEq, Eq, Structural)]
pub enum ConvertBackend {
    Auto,
    Cpu,
    D3d11,
}

impl FecMode {
    pub open spec fn text(self) -> Seq<char> {
        match self {
            FecMode::Off => "off"@,
            FecMode::SingleXor => "single-xor"@,
        }
    }

    pub fn name(self) -> (r: &'static str)
        ensures
            r@ == self.text(),
    {
        match self {
            FecMode::Off => "off",
            FecMode::SingleXor => "single-xor",
        }
    }
}

impl EncoderChoice {
    pub open spec fn text(self) -> Seq<char> {
        match self {
            EncoderChoice::Auto => "auto"@,
            EncoderChoice::Software => "software"@,
            EncoderChoice::Microsoft => "microsoft"@,
            EncoderChoice::Hardware => "hardware"@,
            EncoderChoice::IntelQsv => "intel-qsv"@,
        }
    }

    pub fn name(self) -> (r: &'static str)
        ensures
            r@ == self.text(),
    {
        match self {
            EncoderChoice::Auto => "auto",
            EncoderChoice::Software => "software",
            EncoderChoice::Microsoft => "microsoft",
            EncoderChoice::Hardware => "hardware",
            EncoderChoice::IntelQsv => "intel-qsv",
        }
    }
}

impl ConvertBackend {
    pub open spec fn text(self) -> Seq<char> {
        match self {
            ConvertBackend::Auto => "auto"@,
            ConvertBackend::Cpu => "cpu"@,
            ConvertBackend::D3d11 => "d3d11"@,
        }
    }

    pub fn name(self) -> (r: &'static str)
        ensures
            r@ == self.text(),
    {
        match self {
            ConvertBackend::Auto => "auto",
            ConvertBackend::Cpu => "cpu",
            ConvertBackend::D3d11 => "d3d11",
        }
    }
}

// Letters.

/// `c` with an ASCII letter in lower case.
pub open spec fn lower_char(c: char) -> char {
    if 'A' <= c <= 'Z' {
        (c as int + 32) as char
    } else {
        c
    }
}

/// `s` with its ASCII letters in lower case.
pub open spec fn lower(s: Seq<char>) -> Seq<char> {
    Seq::new(s.len(), |i: int| lower_char(s[i]))
}

/// `text` with its ASCII letters in lower case.
pub fn lowercase(text: &str) -> (r: String)
    ensures
        r@ == lower(text@),
{
    let mut r: String = String::new();
    let chars: Vec<char> = characters(text);
    let mut i: usize = 0;
    while i < chars.len()
        invariant
            chars@ == text@,
            i <= chars@.len(),
            r@.len() == i,
            forall|j: int| 0 <= j < i ==> #[trigger] r@[j] == lower_char(text@[j]),
        decreases chars@.len() - i,
    {
        let c: char = chars[i];
        if 'A' <= c && c <= 'Z' {
            let lowered: u8 = (c as u32 + 32) as u8;
            r.push(lowered as char);
        } else {
            r.push(c);
        }
        i = i + 1;
    }
    assert(r@ =~= lower(text@));
    r
}

// Numbers.

/// `"{name} must be between {minimum} and {maximum}"`
pub open spec fn between(name: Seq<char>, minimum: nat, maximum: nat) -> Seq<char> {
    name + " must be between "@ + text::decimal(minimum) + " and "@ + text::decimal(maximum)
}

fn between_message(name: &str, minimum: u64, maximum: u64) -> (r: String)
    ensures
        r@ == between(name@, minimum as nat, maximum as nat),
{
    let mut r: String = name.to_string();
    r.append(" must be between ");
    push_decimal(&mut r, minimum);
    r.append(" and ");
    push_decimal(&mut r, maximum);
    r
}

/// A number from `minimum` to `maximum`, named `name` in errors.
pub open spec fn ranged_value(
    s: Seq<char>,
    name: Seq<char>,
    minimum: nat,
    maximum: nat,
    representable: nat,
) -> Result<nat, Seq<char>> {
    match text::number_up_to(s, representable) {
        None => Err(text::invalid(name, s)),
        Some(n) => if minimum <= n <= maximum {
            Ok(n)
        } else {
            Err(between(name, minimum, maximum))
        },
    }
}

/// Agreement of a machine integer with a number.
pub open spec fn agrees_number(r: Result<u64, String>, expected: Result<nat, Seq<char>>) -> bool {
    match (r, expected) {
        (Ok(value), Ok(wanted)) => value == wanted,
        (Err(error), Err(wanted)) => error@ == wanted,
        _ => false,
    }
}

fn parse_ranged(text: &str, name: &str, minimum: u64, maximum: u64, representable: u64) -> (r:
    Result<u64, String>)
    ensures
        agrees_number(
            r,
            ranged_value(
                text@,
                name@,
                minimum as nat,
                maximum as nat,
                representable as nat,
            ),
        ),
{
    match parse_number(text, representable) {
        None => Err(invalid_message(name, text)),
        Some(value) => if minimum <= value && value <= maximum {
            Ok(value)
        } else {
            Err(between_message(name, minimum, maximum))
        },
    }
}

pub open spec fn seconds_value(s: Seq<char>, name: Seq<char>, minimum: nat, maximum: nat) -> Result<
    nat,
    Seq<char>,
> {
    match text::number_up_to(s, u64::MAX as nat) {
        None => Err(name + " must be an integer"@),
        Some(n) => if minimum <= n <= maximum {
            Ok(n)
        } else {
            Err(between(name, minimum, maximum))
        },
    }
}

/// A number of seconds from `minimum` to `maximum`.
pub fn parse_seconds_range(text: &str, name: &str, minimum: u64, maximum: u64) -> (r: Result<
    u64,
    String,
>)
    ensures
        agrees_number(r, seconds_value(text@, name@, minimum as nat, maximum as nat)),
{
    match parse_number(text, u64::MAX) {
        None => Err(name.to_string().concat(" must be an integer")),
        Some(value) => if minimum <= value && value <= maximum {
            Ok(value)
        } else {
            Err(between_message(name, minimum, maximum))
        },
    }
}

pub open spec fn port_value(s: Seq<char>) -> Result<nat, Seq<char>> {
    match text::number_up_to(s, u16::MAX as nat) {
        None => Err("invalid port: "@ + s),
        Some(n) => if n == 0 {
            Err("port must be greater than zero"@)
        } else {
            Ok(n)
        },
    }
}

/// A port other than zero.
pub fn parse_port(text: &str) -> (r: Result<u16, String>)
    ensures
        match port_value(text@) {
            Ok(n) => r == Ok::<u16, String>(n as u16),
            Err(error) => r is Err && r->Err_0@ == error,
        },
{
    match parse_number(text, u16::MAX as u64) {
        None => Err("invalid port: ".to_string().concat(text)),
        Some(port) => if port == 0 {
            Err("port must be greater than zero".to_string())
        } else {
            Ok(port as u16)
        },
    }
}

pub open spec fn bool_value(s: Seq<char>) -> Result<bool, Seq<char>> {
    let word = lower(s);
    if word == "true"@ || word == "1"@ || word == "yes"@ || word == "on"@ {
        Ok(true)
    } else if word == "false"@ || word == "0"@ || word == "no"@ || word == "off"@ {
        Ok(false)
    } else {
        Err("invalid boolean value: "@ + s)
    }
}

/// Yes or no, in any case of the letters.
pub fn parse_bool(text: &str) -> (r: Result<bool, String>)
    ensures
        text::agrees(r, bool_value(text@)),
{
    let word: String = lowercase(text);
    if same_text(word.as_str(), "true") || same_text(word.as_str(), "1") || same_text(
        word.as_str(),
        "yes",
    ) || same_text(word.as_str(), "on") {
        Ok(true)
    } else if same_text(word.as_str(), "false") || same_text(word.as_str(), "0") || same_text(
        word.as_str(),
        "no",
    ) || same_text(word.as_str(), "off") {
        Ok(false)
    } else {
        Err("invalid boolean value: ".to_string().concat(text))
    }
}

pub open spec fn fps_value(s: Seq<char>) -> Result<nat, Seq<char>> {
    match text::number_up_to(s, u32::MAX as nat) {
        None => Err("invalid fps: "@ + s),
        Some(n) => if 1 <= n <= 240 {
            Ok(n)
        } else {
            Err("fps must be between 1 and 240"@)
        },
    }
}

/// A frame rate.
pub fn parse_fps(text: &str) -> (r: Result<u32, String>)
    ensures
        match fps_value(text@) {
            Ok(n) => r == Ok::<u32, String>(n as u32),
            Err(error) => r is Err && r->Err_0@ == error,
        },
{
    match parse_number(text, u32::MAX as u64) {
        None => Err("invalid fps: ".to_string().concat(text)),
        Some(fps) => if 1 <= fps && fps <= 240 {
            Ok(fps as u32)
        } else {
            Err("fps must be between 1 and 240".to_string())
        },
    }
}

pub open spec fn duration_value(s: Seq<char>) -> Result<nat, Seq<char>> {
    match text::number_up_to(s, u64::MAX as nat) {
        None => Err("invalid duration-sec: "@ + s),
        Some(n) => if 1 <= n <= 3600 {
            Ok(n)
        } else {
            Err("duration-sec must be between 1 and 3600"@)
        },
    }
}

/// How long a run lasts.
pub fn parse_duration_sec(text: &str) -> (r: Result<u64, String>)
    ensures
        agrees_number(r, duration_value(text@)),
{
    match parse_number(text, u64::MAX) {
        None => Err("invalid duration-sec: ".to_string().concat(text)),
        Some(duration) => if 1 <= duration && duration <= 3600 {
            Ok(duration)
        } else {
            Err("duration-sec must be between 1 and 3600".to_string())
        },
    }
}

pub open spec fn audio_frame_value(s: Seq<char>) -> Result<nat, Seq<char>> {
    match text::number_up_to(s, u32::MAX as nat) {
        None => Err("invalid frame-ms: "@ + s),
        Some(n) => if n == 10 || n == 20 {
            Ok(n)
        } else {
            Err("frame-ms must be 10 or 20"@)
        },
    }
}

/// The length of an audio packet.
pub fn parse_audio_frame_ms(text: &str) -> (r: Result<u32, String>)
    ensures
        match audio_frame_value(text@) {
            Ok(n) => r == Ok::<u32, String>(n as u32),
            Err(error) => r is Err && r->Err_0@ == error,
        },
{
    match parse_number(text, u32::MAX as u64) {
        None => Err("invalid frame-ms: ".to_string().concat(text)),
        Some(value) => if value == 10 || value == 20 {
            Ok(value as u32)
        } else {
            Err("frame-ms must be 10 or 20".to_string())
        },
    }
}

pub open spec fn jitter_value(s: Seq<char>) -> Result<nat, Seq<char>> {
    match text::number_up_to(s, u32::MAX as nat) {
        None => Err("invalid jitter-buffer-ms: "@ + s),
        Some(n) => if n <= 500 {
            Ok(n)
        } else {
            Err("jitter-buffer-ms must be between 0 and 500"@)
        },
    }
}

/// The length of the audio jitter buffer.
pub fn parse_audio_jitter_buffer_ms(text: &str) -> (r: Result<u32, String>)
    ensures
        match jitter_value(text@) {
            Ok(n) => r == Ok::<u32, String>(n as u32),
            Err(error) => r is Err && r->Err_0@ == error,
        },
{
    match parse_number(text, u32::MAX as u64) {
        None => Err("invalid jitter-buffer-ms: ".to_string().concat(text)),
        Some(value) => if value <= 500 {
            Ok(value as u32)
        } else {
            Err("jitter-buffer-ms must be between 0 and 500".to_string())
        },
    }
}

pub open spec fn idle_timeout_value(s: Seq<char>) -> Result<nat, Seq<char>> {
    match text::number_up_to(s, u64::MAX as nat) {
        None => Err("invalid idle-timeout-sec: "@ + s),
        Some(n) => if n <= 3600 {
            Ok(n)
        } else {
            Err("idle-timeout-sec must be between 0 and 3600"@)
        },
    }
}

/// How long a receiver waits for packets.
pub fn parse_idle_timeout(text: &str) -> (r: Result<u64, String>)
    ensures
        agrees_number(r, idle_timeout_value(text@)),
{
    match parse_number(text, u64::MAX) {
        None => Err("invalid idle-timeout-sec: ".to_string().concat(text)),
        Some(duration) => if duration <= 3600 {
            Ok(duration)
        } else {
            Err("idle-timeout-sec must be between 0 and 3600".to_string())
        },
    }
}

/// A number of milliseconds from `minimum` to `maximum`.
pub fn parse_milliseconds(text: &str, name: &str, minimum: u64, maximum: u64) -> (r: Result<
    u64,
    String,
>)
    ensures
        agrees_number(
            r,
            ranged_value(text@, name@, minimum as nat, maximum as nat, u64::MAX as nat),
        ),
{
    parse_ranged(text, name, minimum, maximum, u64::MAX)
}

/// `None` stands for the automatic choice.
pub open spec fn reorder_value(s: Seq<char>) -> Result<Option<nat>, Seq<char>> {
    if lower(s) == "auto"@ {
        Ok(None)
    } else {
        match ranged_value(s, "reorder-wait-ms"@, 1, 1000, u64::MAX as nat) {
            Ok(n) => Ok(Some(n)),
            Err(error) => Err(error),
        }
    }
}

/// How long packets may be out of order.
pub fn parse_reorder_wait_ms(text: &str) -> (r: Result<Option<u64>, String>)
    ensures
        match reorder_value(text@) {
            Ok(None) => r == Ok::<Option<u64>, String>(None),
            Ok(Some(n)) => r == Ok::<Option<u64>, String>(Some(n as u64)),
            Err(error) => r is Err && r->Err_0@ == error,
        },
{
    let word: String = lowercase(text);
    if same_text(word.as_str(), "auto") {
        return Ok(None);
    }
    match parse_milliseconds(text, "reorder-wait-ms", 1, 1000) {
        Ok(value) => Ok(Some(value)),
        Err(error) => Err(error),
    }
}

/// A count from `minimum` to `maximum`.
pub fn parse_count(text: &str, name: &str, minimum: usize, maximum: usize) -> (r: Result<
    usize,
    String,
>)
    ensures
        match ranged_value(text@, name@, minimum as nat, maximum as nat, usize::MAX as nat) {
            Ok(n) => r == Ok::<usize, String>(n as usize),
            Err(error) => r is Err && r->Err_0@ == error,
        },
{
    match parse_ranged(text, name, minimum as u64, maximum as u64, usize::MAX as u64) {
        Ok(value) => Ok(value as usize),
        Err(error) => Err(error),
    }
}

pub open spec fn dimension_value(s: Seq<char>, name: Seq<char>) -> Result<nat, Seq<char>> {
    match text::number_up_to(s, u32::MAX as nat) {
        None => Err(text::invalid(name, s)),
        Some(n) => if n < 16 || n > 8192 {
            Err(name + " must be between 16 and 8192"@)
        } else if n % 2 != 0 {
            Err(name + " must be even for NV12"@)
        } else {
            Ok(n)
        },
    }
}

/// A side of a picture.
pub fn parse_dimension(text: &str, name: &str) -> (r: Result<u32, String>)
    ensures
        match dimension_value(text@, name@) {
            Ok(n) => r == Ok::<u32, String>(n as u32),
            Err(error) => r is Err && r->Err_0@ == error,
        },
{
    match parse_number(text, u32::MAX as u64) {
        None => Err(invalid_message(name, text)),
        Some(value) => if value < 16 || value > 8192 {
            Err(name.to_string().concat(" must be between 16 and 8192"))
        } else if value % 2 != 0 {
            Err(name.to_string().concat(" must be even for NV12"))
        } else {
            Ok(value as u32)
        },
    }
}

pub open spec fn udp_payload_value(s: Seq<char>) -> Result<nat, Seq<char>> {
    match text::number_up_to(s, usize::MAX as nat) {
        None => Err("invalid udp-payload-size: "@ + s),
        Some(n) => if media_packet::payload_size_ok(n as int) {
            Ok(n)
        } else {
            Err(media_packet::payload_size_error())
        },
    }
}

/// The size of the datagrams.
pub fn parse_udp_payload_size(text: &str) -> (r: Result<usize, String>)
    ensures
        match udp_payload_value(text@) {
            Ok(n) => r == Ok::<usize, String>(n as usize),
            Err(error) => r is Err && r->Err_0@ == error,
        },
{
    match parse_number(text, usize::MAX as u64) {
        None => Err("invalid udp-payload-size: ".to_string().concat(text)),
        Some(value) => {
            validate_udp_payload_size(value as usize)?;
            Ok(value as usize)
        },
    }
}

// Choices.

pub open spec fn pacing_value(s: Seq<char>) -> Result<PacketPacing, Seq<char>> {
    let word = lower(s);
    if word == "auto"@ {
        Ok(PacketPacing::Auto)
    } else if word == "batch"@ {
        Ok(PacketPacing::Batch)
    } else if word == "off"@ {
        Ok(PacketPacing::Off)
    } else {
        Err("invalid packet-pacing: "@ + s + "; expected auto, batch, or off"@)
    }
}

pub fn parse_packet_pacing(text: &str) -> (r: Result<PacketPacing, String>)
    ensures
        text::agrees(r, pacing_value(text@)),
{
    let word: String = lowercase(text);
    if same_text(word.as_str(), "auto") {
        Ok(PacketPacing::Auto)
    } else if same_text(word.as_str(), "batch") {
        Ok(PacketPacing::Batch)
    } else if same_text(word.as_str(), "off") {
        Ok(PacketPacing::Off)
    } else {
        Err(
            "invalid packet-pacing: ".to_string().concat(text).concat(
                "; expected auto, batch, or off",
            ),
        )
    }
}

pub open spec fn fec_value(s: Seq<char>) -> Result<FecMode, Seq<char>> {
    let word = lower(s);
    if word == "off"@ {
        Ok(FecMode::Off)
    } else if word == "single-xor"@ {
        Ok(FecMode::SingleXor)
    } else {
        Err("invalid fec mode: "@ + s + "; expected off or single-xor"@)
    }
}

pub fn parse_fec_mode(text: &str) -> (r: Result<FecMode, String>)
    ensures
        text::agrees(r, fec_value(text@)),
{
    let word: String = lowercase(text);
    if same_text(word.as_str(), "off") {
        Ok(FecMode::Off)
    } else if same_text(word.as_str(), "single-xor") {
        Ok(FecMode::SingleXor)
    } else {
        Err("invalid fec mode: ".to_string().concat(text).concat("; expected off or single-xor"))
    }
}

pub open spec fn encoder_value(s: Seq<char>) -> Result<EncoderChoice, Seq<char>> {
    if s == "auto"@ {
        Ok(EncoderChoice::Auto)
    } else if s == "software"@ {
        Ok(EncoderChoice::Software)
    } else if s == "microsoft"@ {
        Ok(EncoderChoice::Microsoft)
    } else if s == "hardware"@ {
        Ok(EncoderChoice::Hardware)
    } else if s == "intel-qsv"@ {
        Ok(EncoderChoice::IntelQsv)
    } else {
        Err("encoder must be auto, hardware, software, microsoft, or intel-qsv"@)
    }
}

pub fn parse_encoder_choice(text: &str) -> (r: Result<EncoderChoice, String>)
    ensures
        text::agrees(r, encoder_value(text@)),
{
    if same_text(text, "auto") {
        Ok(EncoderChoice::Auto)
    } else if same_text(text, "software") {
        Ok(EncoderChoice::Software)
    } else if same_text(text, "microsoft") {
        Ok(EncoderChoice::Microsoft)
    } else if same_text(text, "hardware") {
        Ok(EncoderChoice::Hardware)
    } else if same_text(text, "intel-qsv") {
        Ok(EncoderChoice::IntelQsv)
    } else {
        Err("encoder must be auto, hardware, software, microsoft, or intel-qsv".to_string())
    }
}

pub open spec fn convert_value(s: Seq<char>) -> Result<ConvertBackend, Seq<char>> {
    if s == "auto"@ {
        Ok(ConvertBackend::Auto)
    } else if s == "cpu"@ {
        Ok(ConvertBackend::Cpu)
    } else if s == "d3d11"@ {
        Ok(ConvertBackend::D3d11)
    } else {
        Err("convert-backend must be auto, cpu, or d3d11"@)
    }
}

pub fn parse_convert_backend(text: &str) -> (r: Result<ConvertBackend, String>)
    ensures
        text::agrees(r, convert_value(text@)),
{
    if same_text(text, "auto") {
        Ok(ConvertBackend::Auto)
    } else if same_text(text, "cpu") {
        Ok(ConvertBackend::Cpu)
    } else if same_text(text, "d3d11") {
        Ok(ConvertBackend::D3d11)
    } else {
        Err("convert-backend must be auto, cpu, or d3d11".to_string())
    }
}

// Real numbers.

pub open spec fn bitrate_value(s: Seq<char>, number: Option<Real>) -> Result<Real, Seq<char>> {
    match number {
        None => Err("invalid bitrate-mbps: "@ + s),
        Some(value) => if 0 < value.bits <= THOUSAND_BITS {
            Ok(value)
        } else {
            Err("bitrate-mbps must be > 0 and <= 1000"@)
        },
    }
}

/// A bitrate; `number` is what `text` reads as, if it is a number.
pub fn parse_bitrate(text: &str, number: Option<Real>) -> (r: Result<Real, String>)
    ensures
        text::agrees(r, bitrate_value(text@, number)),
{
    match number {
        None => Err("invalid bitrate-mbps: ".to_string().concat(text)),
        Some(value) => if 0 < value.bits && value.bits <= THOUSAND_BITS {
            Ok(value)
        } else {
            Err("bitrate-mbps must be > 0 and <= 1000".to_string())
        },
    }
}

pub open spec fn quality_value(s: Seq<char>, number: Option<Real>) -> Result<Real, Seq<char>> {
    match number {
        None => Err("invalid quality-bpf: "@ + s),
        Some(value) => if 0 < value.bits < INFINITY_BITS {
            Ok(value)
        } else {
            Err("quality-bpf must be a finite value greater than zero"@)
        },
    }
}

/// Bits for each pixel and frame; `number` is what `text` reads as, if it is a number.
pub fn parse_quality_bpf(text: &str, number: Option<Real>) -> (r: Result<Real, String>)
    ensures
        text::agrees(r, quality_value(text@, number)),
{
    match number {
        None => Err("invalid quality-bpf: ".to_string().concat(text)),
        Some(value) => if 0 < value.bits && value.bits < INFINITY_BITS {
            Ok(value)
        } else {
            Err("quality-bpf must be a finite value greater than zero".to_string())
        },
    }
}

pub open spec fn keyframe_value(s: Seq<char>, number: Option<Real>) -> Result<Real, Seq<char>> {
    match number {
        None => Err("invalid keyframe-interval-sec: "@ + s),
        Some(value) => if HALF_BITS <= value.bits <= SIXTY_BITS {
            Ok(value)
        } else {
            Err("keyframe-interval-sec must be between 0.5 and 60"@)
        },
    }
}

/// The time between keyframes; `number` is what `text` reads as, if it is a number.
pub fn parse_keyframe_interval_sec(text: &str, number: Option<Real>) -> (r: Result<Real, String>)
    ensures
        text::agrees(r, keyframe_value(text@, number)),
{
    match number {
        None => Err("invalid keyframe-interval-sec: ".to_string().concat(text)),
        Some(value) => if HALF_BITS <= value.bits && value.bits <= SIXTY_BITS {
            Ok(value)
        } else {
            Err("keyframe-interval-sec must be between 0.5 and 60".to_string())
        },
    }
}

pub open spec fn loss_rate_value(number: Option<Real>) -> Result<Real, Seq<char>> {
    match number {
        Some(value) => if value.bits <= ONE_BITS || value.bits == NEGATIVE_ZERO_BITS {
            Ok(value)
        } else {
            Err("loss-rate must be between 0 and 1"@)
        },
        None => Err("loss-rate must be between 0 and 1"@),
    }
}

/// The share of lost packets; `number` is what the text reads as, if it is a number.
pub fn parse_loss_rate(number: Option<Real>) -> (r: Result<Real, String>)
    ensures
        text::agrees(r, loss_rate_value(number)),
{
    match number {
        Some(value) => if value.bits <= ONE_BITS || value.bits == NEGATIVE_ZERO_BITS {
            Ok(value)
        } else {
            Err("loss-rate must be between 0 and 1".to_string())
        },
        None => Err("loss-rate must be between 0 and 1".to_string()),
    }
}

/// A positive number up to `max`; `refused` where it is none, `zero` where it is zero.
pub open spec fn positive_value(
    s: Seq<char>,
    max: nat,
    refused: Seq<char>,
    zero: Seq<char>,
) -> Result<
    nat,
    Seq<char>,
> {
    match text::number_up_to(s, max) {
        None => Err(refused),
        Some(n) => if n == 0 {
            Err(zero)
        } else {
            Ok(n)
        },
    }
}

/// A positive number up to `max`, with the errors that the caller names.
pub fn parse_positive(text: &str, max: u64, refused: &str, zero: &str) -> (r: Result<u64, String>)
    ensures
        agrees_number(r, positive_value(text@, max as nat, refused@, zero@)),
{
    match parse_number(text, max) {
        None => Err(refused.to_string()),
        Some(n) => if n == 0 {
            Err(zero.to_string())
        } else {
            Ok(n)
        },
    }
}

pub open spec fn packet_payload_value(s: Seq<char>) -> Result<nat, Seq<char>> {
    match text::number_up_to(s, usize::MAX as nat) {
        None => Err("payload-size must be a positive integer"@),
        Some(n) => if n == 0 || n > media_packet::MAX_MEDIA_PAYLOAD {
            Err(
                "payload-size must be between 1 and "@ + text::decimal(
                    media_packet::MAX_MEDIA_PAYLOAD as nat,
                ),
            )
        } else {
            Ok(n)
        },
    }
}

/// The payload of a packet in a benchmark.
pub fn parse_packet_payload(text: &str) -> (r: Result<usize, String>)
    ensures
        match packet_payload_value(text@) {
            Ok(n) => r == Ok::<usize, String>(n as usize),
            Err(error) => r is Err && r->Err_0@ == error,
        },
{
    match parse_number(text, usize::MAX as u64) {
        None => Err("payload-size must be a positive integer".to_string()),
        Some(n) => if n == 0 || n > media_packet::MAX_MEDIA_PAYLOAD as u64 {
            let mut error: String = "payload-size must be between 1 and ".to_string();
            push_decimal(&mut error, media_packet::MAX_MEDIA_PAYLOAD as u64);
            Err(error)
        } else {
            Ok(n as usize)
        },
    }
}

// What holds of every value.

/// A number that is written out in decimal is taken exactly when it lies within its limits,
/// and then as it is.
pub proof fn law_numbers_are_taken_within_limits(n: nat, name: Seq<char>)
    requires
        n <= u64::MAX,
    ensures
        fps_value(text::decimal(n)) is Ok <==> 1 <= n <= 240,
        fps_value(text::decimal(n)) is Ok ==> fps_value(text::decimal(n))->Ok_0 == n,
        duration_value(text::decimal(n)) is Ok <==> 1 <= n <= 3600,
        duration_value(text::decimal(n)) is Ok ==> duration_value(text::decimal(n))->Ok_0 == n,
        port_value(text::decimal(n)) is Ok <==> 1 <= n <= 65535,
        port_value(text::decimal(n)) is Ok ==> port_value(text::decimal(n))->Ok_0 == n,
        audio_frame_value(text::decimal(n)) is Ok <==> n == 10 || n == 20,
        audio_frame_value(text::decimal(n)) is Ok ==> audio_frame_value(text::decimal(n))->Ok_0
            == n,
        jitter_value(text::decimal(n)) is Ok <==> n <= 500,
        jitter_value(text::decimal(n)) is Ok ==> jitter_value(text::decimal(n))->Ok_0 == n,
        idle_timeout_value(text::decimal(n)) is Ok <==> n <= 3600,
        idle_timeout_value(text::decimal(n)) is Ok ==> idle_timeout_value(text::decimal(n))->Ok_0
            == n,
        dimension_value(text::decimal(n), name) is Ok <==> 16 <= n <= 8192 && n % 2 == 0,
        dimension_value(text::decimal(n), name) is Ok ==> dimension_value(
            text::decimal(n),
            name,
        )->Ok_0 == n,
        udp_payload_value(text::decimal(n)) is Ok <==> 576 <= n <= 1472,
        udp_payload_value(text::decimal(n)) is Ok ==> udp_payload_value(text::decimal(n))->Ok_0
            == n,
{
    text::law_number_of_decimal(n);
}

/// A number with limits of its own is taken exactly within them.
pub proof fn law_ranges_are_kept(n: nat, name: Seq<char>, minimum: nat, maximum: nat)
    requires
        n <= u64::MAX,
    ensures
        minimum <= n <= maximum ==> ranged_value(
            text::decimal(n),
            name,
            minimum,
            maximum,
            u64::MAX as nat,
        ) == Ok::<nat, Seq<char>>(n),
        !(minimum <= n <= maximum) ==> ranged_value(
            text::decimal(n),
            name,
            minimum,
            maximum,
            u64::MAX as nat,
        ) == Err::<nat, Seq<char>>(
            name + " must be between "@ + text::decimal(minimum) + " and "@ + text::decimal(
                maximum,
            ),
        ),
        minimum <= n <= maximum ==> seconds_value(text::decimal(n), name, minimum, maximum) == Ok::<
            nat,
            Seq<char>,
        >(n),
        !(minimum <= n <= maximum) ==> seconds_value(
            text::decimal(n),
            name,
            minimum,
            maximum,
        ) == Err::<nat, Seq<char>>(
            name + " must be between "@ + text::decimal(minimum) + " and "@ + text::decimal(
                maximum,
            ),
        ),
{
    text::law_number_of_decimal(n);
}

/// What is no number is refused by its own words.
pub proof fn law_other_texts_are_no_numbers(s: Seq<char>, name: Seq<char>)
    requires
        text::number(s) is None,
    ensures
        fps_value(s) == Err::<nat, Seq<char>>("invalid fps: "@ + s),
        duration_value(s) == Err::<nat, Seq<char>>("invalid duration-sec: "@ + s),
        port_value(s) == Err::<nat, Seq<char>>("invalid port: "@ + s),
        audio_frame_value(s) == Err::<nat, Seq<char>>("invalid frame-ms: "@ + s),
        jitter_value(s) == Err::<nat, Seq<char>>("invalid jitter-buffer-ms: "@ + s),
        idle_timeout_value(s) == Err::<nat, Seq<char>>("invalid idle-timeout-sec: "@ + s),
        udp_payload_value(s) == Err::<nat, Seq<char>>("invalid udp-payload-size: "@ + s),
        dimension_value(s, name) == Err::<nat, Seq<char>>("invalid "@ + name + ": "@ + s),
{
}

/// Letters of either case are the same, and other characters stay.
pub proof fn law_lower_case(s: Seq<char>, i: int)
    requires
        0 <= i < s.len(),
    ensures
        lower(s).len() == s.len(),
        'A' <= s[i] <= 'Z' ==> lower(s)[i] as int == s[i] as int + ('a' as int - 'A' as int),
        !('A' <= s[i] <= 'Z') ==> lower(s)[i] == s[i],
        lower(lower(s)) == lower(s),
{
    assert(lower(lower(s)) =~= lower(s));
}

/// Yes and no, each in four words and in any case of the letters; nothing else is either.
pub proof fn law_yes_and_no(s: Seq<char>)
    ensures
        lower(s) == "true"@ || lower(s) == "1"@ || lower(s) == "yes"@ || lower(s) == "on"@
            ==> bool_value(s) == Ok::<bool, Seq<char>>(true),
        lower(s) == "false"@ || lower(s) == "0"@ || lower(s) == "no"@ || lower(s) == "off"@
            ==> bool_value(s) == Ok::<bool, Seq<char>>(false),
        bool_value(s) == Ok::<bool, Seq<char>>(true) ==> lower(s) == "true"@ || lower(s) == "1"@
            || lower(s) == "yes"@ || lower(s) == "on"@,
        bool_value(s) == Ok::<bool, Seq<char>>(false) ==> lower(s) == "false"@ || lower(s) == "0"@
            || lower(s) == "no"@ || lower(s) == "off"@,
{
    reveal_strlit("true");
    reveal_strlit("1");
    reveal_strlit("yes");
    reveal_strlit("on");
    reveal_strlit("false");
    reveal_strlit("0");
    reveal_strlit("no");
    reveal_strlit("off");
    assert("false"@.len() == 5 && "0"@[0] == '0' && "1"@[0] == '1' && "no"@[0] == 'n' && "on"@[0]
        == 'o' && "off"@[0] == 'o' && "yes"@[0] == 'y');
    assert("true"@.len() == 4 && "0"@.len() == 1 && "1"@.len() == 1 && "no"@.len() == 2
        && "on"@.len() == 2 && "off"@.len() == 3 && "yes"@.len() == 3);
}

/// A real number is taken exactly within its limits, and then as it is.
pub proof fn law_real_numbers_are_taken_within_limits(s: Seq<char>, value: Real)
    ensures
        bitrate_value(s, Some(value)) is Ok <==> 0 < value.bits <= 0x408f_4000_0000_0000,
        bitrate_value(s, Some(value)) is Ok ==> bitrate_value(s, Some(value))->Ok_0 == value,
        quality_value(s, Some(value)) is Ok <==> 0 < value.bits < 0x7ff0_0000_0000_0000,
        quality_value(s, Some(value)) is Ok ==> quality_value(s, Some(value))->Ok_0 == value,
        keyframe_value(s, Some(value)) is Ok <==> 0x3fe0_0000_0000_0000 <= value.bits
            <= 0x404e_0000_0000_0000,
        keyframe_value(s, Some(value)) is Ok ==> keyframe_value(s, Some(value))->Ok_0 == value,
        bitrate_value(s, None) is Err && quality_value(s, None) is Err && keyframe_value(
            s,
            None,
        ) is Err,
{
}

/// The wait for packets out of order is a number of milliseconds, or is chosen automatically.
pub proof fn law_reorder_wait(n: nat, s: Seq<char>)
    requires
        n <= u64::MAX,
    ensures
        lower(s) == "auto"@ ==> reorder_value(s) == Ok::<Option<nat>, Seq<char>>(None),
        1 <= n <= 1000 <==> reorder_value(text::decimal(n)) == Ok::<Option<nat>, Seq<char>>(
            Some(n),
        ),
        reorder_value(text::decimal(n)) != Ok::<Option<nat>, Seq<char>>(None),
{
    text::law_number_of_decimal(n);
    reveal_strlit("auto");
    assert(text::is_digit(text::decimal(n)[0]));
    assert(lower(text::decimal(n))[0] == text::decimal(n)[0]);
    assert("auto"@[0] == 'a');
}

/// What a name says is what it is read as.
pub proof fn law_choices_of_the_sender_are_read_back(
    pacing: PacketPacing,
    fec: FecMode,
    encoder: EncoderChoice,
    convert: ConvertBackend,
)
    ensures
        pacing_value(pacing.text()) == Ok::<PacketPacing, Seq<char>>(pacing),
        fec_value(fec.text()) == Ok::<FecMode, Seq<char>>(fec),
        encoder_value(encoder.text()) == Ok::<EncoderChoice, Seq<char>>(encoder),
        convert_value(convert.text()) == Ok::<ConvertBackend, Seq<char>>(convert),
        PacketPacing::Auto.text() == "auto"@ && PacketPacing::Batch.text() == "batch"@
            && PacketPacing::Off.text() == "off"@,
        FecMode::Off.text() == "off"@ && FecMode::SingleXor.text() == "single-xor"@,
        EncoderChoice::Auto.text() == "auto"@ && EncoderChoice::Software.text() == "software"@
            && EncoderChoice::Microsoft.text() == "microsoft"@ && EncoderChoice::Hardware.text()
            == "hardware"@ && EncoderChoice::IntelQsv.text() == "intel-qsv"@,
        ConvertBackend::Auto.text() == "auto"@ && ConvertBackend::Cpu.text() == "cpu"@
            && ConvertBackend::D3d11.text() == "d3d11"@,
{
    reveal_strlit("auto");
    reveal_strlit("batch");
    reveal_strlit("off");
    reveal_strlit("single-xor");
    reveal_strlit("software");
    reveal_strlit("microsoft");
    reveal_strlit("hardware");
    reveal_strlit("intel-qsv");
    reveal_strlit("cpu");
    reveal_strlit("d3d11");
    assert(lower("auto"@) =~= "auto"@);
    assert(lower("batch"@) =~= "batch"@);
    assert(lower("off"@) =~= "off"@);
    assert(lower("single-xor"@) =~= "single-xor"@);
    assert("auto"@.len() == 4 && "batch"@.len() == 5 && "off"@.len() == 3 && "single-xor"@.len()
        == 10 && "software"@.len() == 8 && "microsoft"@.len() == 9 && "hardware"@.len() == 8
        && "intel-qsv"@.len() == 9 && "cpu"@.len() == 3 && "d3d11"@.len() == 5);
    assert("software"@[0] == 's' && "hardware"@[0] == 'h' && "microsoft"@[0] == 'm'
        && "intel-qsv"@[0] == 'i');
}

/// The other numbers: a share from none to all, a count of at least one, and a payload that
/// fits into a packet.
pub proof fn law_other_numbers_are_taken_within_limits(
    value: Real,
    n: nat,
    max: nat,
    refused: Seq<char>,
    zero: Seq<char>,
)
    requires
        n <= u32::MAX,
    ensures
        loss_rate_value(Some(value)) is Ok <==> value.bits <= 0x3ff0_0000_0000_0000 || value.bits
            == 0x8000_0000_0000_0000,
        loss_rate_value(Some(value)) is Ok ==> loss_rate_value(Some(value))->Ok_0 == value,
        loss_rate_value(None) is Err,
        1 <= n <= max ==> positive_value(text::decimal(n), max, refused, zero) == Ok::<
            nat,
            Seq<char>,
        >(n),
        n > max ==> positive_value(text::decimal(n), max, refused, zero) == Err::<nat, Seq<char>>(
            refused,
        ),
        positive_value(text::decimal(0), max, refused, zero) == Err::<nat, Seq<char>>(zero),
        packet_payload_value(text::decimal(n)) is Ok <==> 1 <= n <= media_packet::MAX_MEDIA_PAYLOAD,
        packet_payload_value(text::decimal(n)) is Ok ==> packet_payload_value(
            text::decimal(n),
        )->Ok_0 == n,
{
    text::law_number_of_decimal(n);
    text::law_number_of_decimal(0);
}

} // verus!
