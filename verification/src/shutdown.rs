//! Why and how a run ends.

use vstd::prelude::*;

use crate::json;
use crate::text;
use crate::text::join_texts;

verus! {

/// Why a run ends.
#[derive(Clone, Copy, Debug, PartialEq, Eq, Structural)]
pub enum StopReason {
    LocalStop,
    CtrlC,
    WindowClosed,
    Duration,
    PeerClosed,
    PeerTimeout,
    StartupFailure,
    InternalError,
    FatalError,
}

/// The request to end a run.  The first reason stays.
#[derive(Clone, Copy, Debug, PartialEq, Eq, Structural)]
pub struct CancellationToken {
    pub reason: Option<StopReason>,
}

impl CancellationToken {
    pub fn new() -> (r: CancellationToken)
        ensures
            r.reason is None,
    {
        CancellationToken { reason: None }
    }

    /// Asks for the end; `true` where nobody had asked before.
    pub fn cancel(&mut self, reason: StopReason) -> (first: bool)
        ensures
            first == old(self).reason is None,
            *final(self) == old(self).cancelled(reason),
    {
        if self.reason.is_none() {
            self.reason = Some(reason);
            true
        } else {
            false
        }
    }

    /// The token after a request with `reason`.
    pub open spec fn cancelled(self, reason: StopReason) -> CancellationToken {
        if self.reason is None {
            CancellationToken { reason: Some(reason) }
        } else {
            self
        }
    }

    pub fn is_cancelled(&self) -> (r: bool)
        ensures
            r == self.reason is Some,
    {
        self.reason.is_some()
    }

    pub fn reason(&self) -> (r: Option<StopReason>)
        ensures
            r == self.reason,
    {
        self.reason
    }
}

/// Whoever asks later does not change why the run ends.
pub proof fn law_first_reason_wins(token: CancellationToken, first: StopReason, second: StopReason)
    ensures
        token.cancelled(first).cancelled(second) == token.cancelled(first),
        token.cancelled(first).reason is Some,
{
}

/// The time is up, where there is a limit.
pub open spec fn time_is_up(started_at: u64, now: u64, duration_sec: Option<u64>) -> bool {
    duration_sec matches Some(seconds) && now.saturating_sub(started_at) >= seconds * 1_000_000_000
}

/// Whether the time is up.  Times are nanoseconds of a monotonic clock.
pub fn duration_elapsed(started_at: u64, now: u64, duration_sec: Option<u64>) -> (r: bool)
    ensures
        r == time_is_up(started_at, now, duration_sec),
{
    match duration_sec {
        Some(seconds) => match seconds.checked_mul(1_000_000_000) {
            Some(limit) => now.saturating_sub(started_at) >= limit,
            None => false,
        },
        None => false,
    }
}

/// How waiting for a worker went.
#[derive(Clone, Copy, Debug, PartialEq, Eq, Structural)]
pub enum WorkerJoinStatus {
    NotStarted,
    Joined,
    TimedOut,
    Panicked,
}

impl WorkerJoinStatus {
    pub open spec fn text(self) -> Seq<char> {
        match self {
            WorkerJoinStatus::NotStarted => "not_started"@,
            WorkerJoinStatus::Joined => "joined"@,
            WorkerJoinStatus::TimedOut => "timed_out"@,
            WorkerJoinStatus::Panicked => "panicked"@,
        }
    }

    pub fn name(self) -> (r: &'static str)
        ensures
            r@ == self.text(),
    {
        match self {
            WorkerJoinStatus::NotStarted => "not_started",
            WorkerJoinStatus::Joined => "joined",
            WorkerJoinStatus::TimedOut => "timed_out",
            WorkerJoinStatus::Panicked => "panicked",
        }
    }

    /// Nothing of the worker is left.
    pub open spec fn is_clean(self) -> bool {
        self == WorkerJoinStatus::NotStarted || self == WorkerJoinStatus::Joined
    }

    /// Whether nothing of the worker is left.
    pub fn clean(self) -> (r: bool)
        ensures
            r == self.is_clean(),
    {
        match self {
            WorkerJoinStatus::NotStarted | WorkerJoinStatus::Joined => true,
            WorkerJoinStatus::TimedOut | WorkerJoinStatus::Panicked => false,
        }
    }
}

/// How the sound of a run ended.
#[derive(Debug)]
pub enum AudioJoin {
    NotStarted,
    Joined,
    /// It did not end, and why.
    Incomplete(String),
}

impl AudioJoin {
    pub open spec fn text(self) -> Seq<char> {
        match self {
            AudioJoin::NotStarted => "not_started"@,
            AudioJoin::Joined => "joined"@,
            AudioJoin::Incomplete(_) => "incomplete"@,
        }
    }

    pub fn name(&self) -> (r: &'static str)
        ensures
            r@ == self.text(),
    {
        match self {
            AudioJoin::NotStarted => "not_started",
            AudioJoin::Joined => "joined",
            AudioJoin::Incomplete(_) => "incomplete",
        }
    }
}

/// The event that ends a run.
pub open spec fn terminal_event(clean: bool) -> Seq<char> {
    if clean {
        "NATIVE_SCREEN_STOPPED"@
    } else {
        "NATIVE_SCREEN_SHUTDOWN_FAILED"@
    }
}

/// The name of the event that ends a run.
pub fn terminal_event_type(clean: bool) -> (r: &'static str)
    ensures
        r@ == terminal_event(clean),
{
    if clean {
        "NATIVE_SCREEN_STOPPED"
    } else {
        "NATIVE_SCREEN_SHUTDOWN_FAILED"
    }
}

/// What is said of a worker that did not end cleanly.
pub open spec fn worker_errors(what: Seq<char>, status: WorkerJoinStatus) -> Seq<Seq<char>> {
    if status.is_clean() {
        Seq::empty()
    } else {
        seq![what + " worker shutdown: "@ + status.text()]
    }
}

/// What is said of sound that did not end.
pub open spec fn audio_errors(audio: AudioJoin) -> Seq<Seq<char>> {
    match audio {
        AudioJoin::Incomplete(error) => seq![error@],
        _ => Seq::empty(),
    }
}

/// What is said of workers that could not be waited for.
pub open spec fn retention_errors(tag: Seq<char>, retained: Seq<Seq<char>>) -> Seq<Seq<char>> {
    if retained.len() == 0 {
        Seq::empty()
    } else {
        seq![tag + ": retained workers: "@ + text::joined(retained, ","@)]
    }
}

/// Adds what is said of a worker.
pub fn push_worker_error(errors: &mut Vec<String>, what: &str, status: WorkerJoinStatus)
    ensures
        text::views(final(errors)@) == text::views(old(errors)@) + worker_errors(what@, status),
{
    if !status.clean() {
        let mut error: String = what.to_string();
        error.append(" worker shutdown: ");
        error.append(status.name());
        errors.push(error);
    }
    assert(text::views(errors@) =~= text::views(old(errors)@) + worker_errors(what@, status));
}

/// Adds what is said of sound.
pub fn push_audio_error(errors: &mut Vec<String>, audio: &AudioJoin)
    ensures
        text::views(final(errors)@) == text::views(old(errors)@) + audio_errors(*audio),
{
    if let AudioJoin::Incomplete(error) = audio {
        errors.push(error.clone());
    }
    assert(text::views(errors@) =~= text::views(old(errors)@) + audio_errors(*audio));
}

/// Adds what is said of workers that could not be waited for.
pub fn push_retention_error(errors: &mut Vec<String>, tag: &str, retained: &Vec<String>)
    ensures
        text::views(final(errors)@) == text::views(old(errors)@) + retention_errors(
            tag@,
            text::views(retained@),
        ),
{
    if retained.len() > 0 {
        let mut error: String = tag.to_string();
        error.append(": retained workers: ");
        error.append(join_texts(retained, ",").as_str());
        errors.push(error);
    }
    assert(text::views(errors@) =~= text::views(old(errors)@) + retention_errors(
        tag@,
        text::views(retained@),
    ));
}

/// All that is said, in one text, where anything is.
pub open spec fn combined(errors: Seq<Seq<char>>) -> Option<Seq<char>> {
    if errors.len() == 0 {
        None
    } else {
        Some(text::joined(errors, "; "@))
    }
}

/// Puts all that is said into one text.
pub fn combine_errors(errors: &Vec<String>) -> (r: Option<String>)
    ensures
        text::optional(r) == combined(text::views(errors@)),
{
    if errors.len() == 0 {
        None
    } else {
        Some(join_texts(errors, "; "))
    }
}

/// Why a run that could not start ends.
pub fn startup_stop_reason(ctrl_c: bool) -> (r: StopReason)
    ensures
        r == if ctrl_c {
            StopReason::CtrlC
        } else {
            StopReason::StartupFailure
        },
{
    if ctrl_c {
        StopReason::CtrlC
    } else {
        StopReason::StartupFailure
    }
}

/// What is said of a run that could not start, where a worker had to be stopped again.
pub open spec fn startup_failure(
    error: Seq<char>,
    renderer: Option<WorkerJoinStatus>,
    audio_error: Option<Seq<char>>,
    tag: Seq<char>,
) -> Seq<char> {
    let rendered = match renderer {
        Some(status) => error + "; render worker cleanup="@ + status.text(),
        None => error,
    };
    let detail = match audio_error {
        Some(audio_error) => rendered + "; audio cleanup: "@ + audio_error,
        None => rendered,
    };
    if renderer == Some(WorkerJoinStatus::TimedOut) {
        tag + ": "@ + detail
    } else {
        detail
    }
}

/// Says why a run could not start, and how the workers ended that had been started; `tag`
/// marks a worker that could not be waited for.
pub fn startup_failure_text(
    error: &str,
    renderer: Option<WorkerJoinStatus>,
    audio_error: Option<&str>,
    tag: &str,
) -> (r: String)
    ensures
        r@ == startup_failure(error@, renderer, json::optional_view(audio_error), tag@),
{
    let mut detail: String = error.to_string();
    if let Some(status) = renderer {
        detail = detail.concat("; render worker cleanup=").concat(status.name());
    }
    if let Some(audio_error) = audio_error {
        detail = detail.concat("; audio cleanup: ").concat(audio_error);
    }
    match renderer {
        Some(WorkerJoinStatus::TimedOut) => tag.to_string().concat(": ").concat(detail.as_str()),
        _ => detail,
    }
}

/// A run with a limit is over once so many seconds have passed and not before; one without
/// a limit never is.
pub proof fn law_time_is_up_after_the_seconds(started_at: u64, now: u64, seconds: u64)
    requires
        started_at <= now,
    ensures
        time_is_up(started_at, now, Some(seconds)) == (now >= started_at + seconds
            * 1_000_000_000),
        !time_is_up(started_at, now, None),
{
}

/// A request to end a run is noted with its reason.
pub proof fn law_request_is_noted(token: CancellationToken, reason: StopReason)
    ensures
        token.reason is None ==> token.cancelled(reason).reason == Some(reason),
        token.reason is Some ==> token.cancelled(reason).reason == token.reason,
{
}

/// A worker is clean exactly when it ended or never began, and only others are told of.
pub proof fn law_only_unclean_workers_are_told_of(what: Seq<char>, status: WorkerJoinStatus)
    ensures
        status.is_clean() <==> status != WorkerJoinStatus::TimedOut && status
            != WorkerJoinStatus::Panicked,
        status.is_clean() ==> worker_errors(what, status).len() == 0,
        status == WorkerJoinStatus::TimedOut ==> worker_errors(what, status) == seq![
            what + " worker shutdown: "@ + "timed_out"@,
        ],
        status == WorkerJoinStatus::Panicked ==> worker_errors(what, status) == seq![
            what + " worker shutdown: "@ + "panicked"@,
        ],
        WorkerJoinStatus::Joined.text() == "joined"@,
        WorkerJoinStatus::NotStarted.text() == "not_started"@,
{
}

/// Sound that did not end is told by its error, and workers that are left by their names.
pub proof fn law_what_is_left_is_told(
    audio: AudioJoin,
    tag: Seq<char>,
    retained: Seq<Seq<char>>,
)
    ensures
        audio is Incomplete <==> audio_errors(audio).len() == 1,
        audio matches AudioJoin::Incomplete(error) ==> audio_errors(audio)[0] == error@
            && audio.text() == "incomplete"@,
        audio is Joined ==> audio.text() == "joined"@ && audio_errors(audio).len() == 0,
        audio is NotStarted ==> audio.text() == "not_started"@ && audio_errors(audio).len() == 0,
        retained.len() == 0 ==> retention_errors(tag, retained).len() == 0,
        retained.len() > 0 ==> retention_errors(tag, retained) == seq![
            tag + ": retained workers: "@ + text::joined(retained, ","@),
        ],
{
}

/// A run that ended cleanly has stopped; another has failed to.
pub proof fn law_terminal_events(clean: bool)
    ensures
        clean ==> terminal_event(clean) == "NATIVE_SCREEN_STOPPED"@,
        !clean ==> terminal_event(clean) == "NATIVE_SCREEN_SHUTDOWN_FAILED"@,
{
}

/// Without errors there is nothing to tell; a single one is told as it is.
pub proof fn law_errors_are_told_together(errors: Seq<Seq<char>>, error: Seq<char>)
    ensures
        errors.len() == 0 <==> combined(errors) is None,
        errors == seq![error] ==> combined(errors) == Some(error),
{
    reveal_with_fuel(text::joined, 2);
    if errors == seq![error] {
        assert(errors.len() == 1 && errors[0] == error);
        assert(text::joined(errors, "; "@) =~= error);
    }
}

/// What is said of a run that could not start begins with the error, unless a worker could
/// not be waited for: then the mark comes first.
pub proof fn law_startup_failure_is_told(
    error: Seq<char>,
    status: WorkerJoinStatus,
    audio_error: Seq<char>,
    tag: Seq<char>,
)
    ensures
        startup_failure(error, None, None, tag) == error,
        startup_failure(error, None, Some(audio_error), tag) == error + "; audio cleanup: "@
            + audio_error,
        status != WorkerJoinStatus::TimedOut ==> startup_failure(error, Some(status), None, tag)
            == error + "; render worker cleanup="@ + status.text(),
        status == WorkerJoinStatus::TimedOut ==> startup_failure(error, Some(status), None, tag)
            == tag + ": "@ + (error + "; render worker cleanup="@ + "timed_out"@),
{
}

} // verus!
