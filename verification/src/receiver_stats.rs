//! The counters of the receiver.
//!
//! Times are nanoseconds of a monotonic clock, unless their names say otherwise.
//! Counters stop at their maximum.

use vstd::prelude::*;

use crate::media_control::Metric;

verus! {

/// How many times something was measured, and what came out.
#[derive(Clone, Copy, Debug, PartialEq, Eq, Structural)]
pub struct TimingMetric {
    pub samples: u64,
    pub total: u64,
    pub min: u64,
    pub max: u64,
}

pub open spec fn smaller(a: u64, b: u64) -> u64 {
    if a < b {
        a
    } else {
        b
    }
}

pub open spec fn larger(a: u64, b: u64) -> u64 {
    if a > b {
        a
    } else {
        b
    }
}

impl TimingMetric {
    pub open spec fn initial() -> TimingMetric {
        TimingMetric { samples: 0, total: 0, min: 0, max: 0 }
    }

    pub fn new() -> (r: TimingMetric)
        ensures
            r == Self::initial(),
    {
        TimingMetric { samples: 0, total: 0, min: 0, max: 0 }
    }

    /// With another measurement.
    pub open spec fn with(self, value: u64) -> TimingMetric {
        self.merged(TimingMetric { samples: 1, total: value, min: value, max: value })
    }

    /// With the measurements of another.
    pub open spec fn merged(self, other: TimingMetric) -> TimingMetric {
        if other.samples == 0 {
            self
        } else if self.samples == 0 {
            other
        } else {
            TimingMetric {
                samples: self.samples.saturating_add(other.samples),
                total: self.total.saturating_add(other.total),
                min: smaller(self.min, other.min),
                max: larger(self.max, other.max),
            }
        }
    }

    /// Adds a measurement.
    pub fn observe(&mut self, value: u64)
        ensures
            *final(self) == old(self).with(value),
    {
        self.merge(TimingMetric { samples: 1, total: value, min: value, max: value });
    }

    /// Adds the measurements of another.
    pub fn merge(&mut self, other: TimingMetric)
        ensures
            *final(self) == old(self).merged(other),
    {
        if other.samples == 0 {
            return ;
        }
        if self.samples == 0 {
            *self = other;
            return ;
        }
        self.samples = self.samples.saturating_add(other.samples);
        self.total = self.total.saturating_add(other.total);
        if other.min < self.min {
            self.min = other.min;
        }
        if other.max > self.max {
            self.max = other.max;
        }
    }
}

/// What became of datagrams.
#[derive(Clone, Copy, Debug, PartialEq, Eq, Structural)]
pub struct PacketDispatchStats {
    pub video_data_packets_received: u64,
    pub video_fec_packets_received: u64,
    pub audio_packets_received: u64,
    pub unknown_packets_received: u64,
    pub nack_control_packets_received: u64,
    pub repair_packets_dropped_wrong_type: u64,
    pub repair_packets_dropped_late: u64,
    pub repair_packets_dropped_no_frame: u64,
    pub stream_close_received: u64,
    pub stream_close_ack_sent: u64,
    pub stream_close_rejected_pre_session: u64,
    pub stream_close_rejected_peer: u64,
    pub stream_close_rejected_session: u64,
    pub stream_close_rejected_invalid: u64,
    pub stream_close_duplicate: u64,
    pub stream_close_sent: u64,
    pub stream_close_retry_count: u64,
    pub stream_close_ack_received: bool,
    pub stream_close_handshake_timeout: bool,
    pub peer_timeout_triggered: bool,
    pub peer_last_valid_age_ms: u64,
}

impl PacketDispatchStats {
    /// Nothing has happened yet.
    pub open spec fn initial() -> PacketDispatchStats {
        PacketDispatchStats {
            video_data_packets_received: 0,
            video_fec_packets_received: 0,
            audio_packets_received: 0,
            unknown_packets_received: 0,
            nack_control_packets_received: 0,
            repair_packets_dropped_wrong_type: 0,
            repair_packets_dropped_late: 0,
            repair_packets_dropped_no_frame: 0,
            stream_close_received: 0,
            stream_close_ack_sent: 0,
            stream_close_rejected_pre_session: 0,
            stream_close_rejected_peer: 0,
            stream_close_rejected_session: 0,
            stream_close_rejected_invalid: 0,
            stream_close_duplicate: 0,
            stream_close_sent: 0,
            stream_close_retry_count: 0,
            stream_close_ack_received: false,
            stream_close_handshake_timeout: false,
            peer_timeout_triggered: false,
            peer_last_valid_age_ms: 0,
        }
    }

    pub fn new() -> (r: PacketDispatchStats)
        ensures
            r == Self::initial(),
    {
        PacketDispatchStats {
            video_data_packets_received: 0,
            video_fec_packets_received: 0,
            audio_packets_received: 0,
            unknown_packets_received: 0,
            nack_control_packets_received: 0,
            repair_packets_dropped_wrong_type: 0,
            repair_packets_dropped_late: 0,
            repair_packets_dropped_no_frame: 0,
            stream_close_received: 0,
            stream_close_ack_sent: 0,
            stream_close_rejected_pre_session: 0,
            stream_close_rejected_peer: 0,
            stream_close_rejected_session: 0,
            stream_close_rejected_invalid: 0,
            stream_close_duplicate: 0,
            stream_close_sent: 0,
            stream_close_retry_count: 0,
            stream_close_ack_received: false,
            stream_close_handshake_timeout: false,
            peer_timeout_triggered: false,
            peer_last_valid_age_ms: 0,
        }
    }
}

/// What became of requests to send packets again.
#[derive(Clone, Copy, Debug, PartialEq, Eq, Structural)]
pub struct ReceiverRepairStats {
    pub nack_packets_sent: u64,
    pub nack_items_sent: u64,
    pub nack_frames_requested: u64,
    pub nack_rounds_sent: u64,
    pub repair_packets_received: u64,
    pub repair_packets_inserted: u64,
    pub repair_duplicate_packets: u64,
    pub repair_frames_completed: u64,
    pub repair_send_errors: u64,
    pub repair_deadline_missed: u64,
    pub repair_wait_total: u64,
    pub repair_wait_max: u64,
    pub nack_candidate_frames: u64,
    pub nack_suppressed_progressing_frames: u64,
    pub nack_suppressed_too_early: u64,
    pub nack_suppressed_already_requested: u64,
    pub nack_suppressed_item_limit: u64,
    pub nack_items_deduped: u64,
    pub nack_items_per_requested_frame_total: u64,
    pub nack_items_per_requested_frame_max: u64,
    pub repair_deadline_total: u64,
    pub repair_deadline_max: u64,
    pub repair_deadline_samples: u64,
    pub repair_unique_packets_received: u64,
    pub repair_duplicate_packets_received: u64,
    pub repair_packets_received_after_frame_complete: u64,
    pub repair_cancelled_frame_complete: u64,
    pub nack_candidates_first_round: u64,
    pub nack_candidates_late_discovery: u64,
    pub missing_first_detected_age: TimingMetric,
    pub missing_first_detected_to_deadline: TimingMetric,
    pub first_nack_to_deadline: TimingMetric,
    pub first_nack_age: TimingMetric,
    pub first_round_budget: TimingMetric,
    pub second_round_budget: TimingMetric,
    pub repair_arrival_to_deadline: TimingMetric,
}

impl ReceiverRepairStats {
    /// Nothing has happened yet.
    pub open spec fn initial() -> ReceiverRepairStats {
        ReceiverRepairStats {
            nack_packets_sent: 0,
            nack_items_sent: 0,
            nack_frames_requested: 0,
            nack_rounds_sent: 0,
            repair_packets_received: 0,
            repair_packets_inserted: 0,
            repair_duplicate_packets: 0,
            repair_frames_completed: 0,
            repair_send_errors: 0,
            repair_deadline_missed: 0,
            repair_wait_total: 0,
            repair_wait_max: 0,
            nack_candidate_frames: 0,
            nack_suppressed_progressing_frames: 0,
            nack_suppressed_too_early: 0,
            nack_suppressed_already_requested: 0,
            nack_suppressed_item_limit: 0,
            nack_items_deduped: 0,
            nack_items_per_requested_frame_total: 0,
            nack_items_per_requested_frame_max: 0,
            repair_deadline_total: 0,
            repair_deadline_max: 0,
            repair_deadline_samples: 0,
            repair_unique_packets_received: 0,
            repair_duplicate_packets_received: 0,
            repair_packets_received_after_frame_complete: 0,
            repair_cancelled_frame_complete: 0,
            nack_candidates_first_round: 0,
            nack_candidates_late_discovery: 0,
            missing_first_detected_age: TimingMetric::initial(),
            missing_first_detected_to_deadline: TimingMetric::initial(),
            first_nack_to_deadline: TimingMetric::initial(),
            first_nack_age: TimingMetric::initial(),
            first_round_budget: TimingMetric::initial(),
            second_round_budget: TimingMetric::initial(),
            repair_arrival_to_deadline: TimingMetric::initial(),
        }
    }

    pub fn new() -> (r: ReceiverRepairStats)
        ensures
            r == Self::initial(),
    {
        ReceiverRepairStats {
            nack_packets_sent: 0,
            nack_items_sent: 0,
            nack_frames_requested: 0,
            nack_rounds_sent: 0,
            repair_packets_received: 0,
            repair_packets_inserted: 0,
            repair_duplicate_packets: 0,
            repair_frames_completed: 0,
            repair_send_errors: 0,
            repair_deadline_missed: 0,
            repair_wait_total: 0,
            repair_wait_max: 0,
            nack_candidate_frames: 0,
            nack_suppressed_progressing_frames: 0,
            nack_suppressed_too_early: 0,
            nack_suppressed_already_requested: 0,
            nack_suppressed_item_limit: 0,
            nack_items_deduped: 0,
            nack_items_per_requested_frame_total: 0,
            nack_items_per_requested_frame_max: 0,
            repair_deadline_total: 0,
            repair_deadline_max: 0,
            repair_deadline_samples: 0,
            repair_unique_packets_received: 0,
            repair_duplicate_packets_received: 0,
            repair_packets_received_after_frame_complete: 0,
            repair_cancelled_frame_complete: 0,
            nack_candidates_first_round: 0,
            nack_candidates_late_discovery: 0,
            missing_first_detected_age: TimingMetric::new(),
            missing_first_detected_to_deadline: TimingMetric::new(),
            first_nack_to_deadline: TimingMetric::new(),
            first_nack_age: TimingMetric::new(),
            first_round_budget: TimingMetric::new(),
            second_round_budget: TimingMetric::new(),
            repair_arrival_to_deadline: TimingMetric::new(),
        }
    }
}

/// What one search for missing packets found.
#[derive(Clone, Copy, Debug, PartialEq, Eq, Structural)]
pub struct NackCollectionStats {
    pub candidate_frames: u64,
    pub suppressed_progressing_frames: u64,
    pub suppressed_too_early: u64,
    pub suppressed_already_requested: u64,
    pub suppressed_item_limit: u64,
    pub items_deduped: u64,
    pub items_per_requested_frame_total: u64,
    pub items_per_requested_frame_max: u64,
    pub candidates_first_round: u64,
    pub candidates_late_discovery: u64,
    pub requested_frames: u64,
    pub missing_first_detected_age: TimingMetric,
    pub missing_first_detected_to_deadline: TimingMetric,
    pub first_nack_to_deadline: TimingMetric,
    pub first_nack_age: TimingMetric,
    pub first_round_budget: TimingMetric,
    pub second_round_budget: TimingMetric,
}

impl NackCollectionStats {
    /// Nothing has happened yet.
    pub open spec fn initial() -> NackCollectionStats {
        NackCollectionStats {
            candidate_frames: 0,
            suppressed_progressing_frames: 0,
            suppressed_too_early: 0,
            suppressed_already_requested: 0,
            suppressed_item_limit: 0,
            items_deduped: 0,
            items_per_requested_frame_total: 0,
            items_per_requested_frame_max: 0,
            candidates_first_round: 0,
            candidates_late_discovery: 0,
            requested_frames: 0,
            missing_first_detected_age: TimingMetric::initial(),
            missing_first_detected_to_deadline: TimingMetric::initial(),
            first_nack_to_deadline: TimingMetric::initial(),
            first_nack_age: TimingMetric::initial(),
            first_round_budget: TimingMetric::initial(),
            second_round_budget: TimingMetric::initial(),
        }
    }

    pub fn new() -> (r: NackCollectionStats)
        ensures
            r == Self::initial(),
    {
        NackCollectionStats {
            candidate_frames: 0,
            suppressed_progressing_frames: 0,
            suppressed_too_early: 0,
            suppressed_already_requested: 0,
            suppressed_item_limit: 0,
            items_deduped: 0,
            items_per_requested_frame_total: 0,
            items_per_requested_frame_max: 0,
            candidates_first_round: 0,
            candidates_late_discovery: 0,
            requested_frames: 0,
            missing_first_detected_age: TimingMetric::new(),
            missing_first_detected_to_deadline: TimingMetric::new(),
            first_nack_to_deadline: TimingMetric::new(),
            first_nack_age: TimingMetric::new(),
            first_round_budget: TimingMetric::new(),
            second_round_budget: TimingMetric::new(),
        }
    }
}

/// What became of announcements of profiles.
#[derive(Clone, Copy, Debug, PartialEq, Eq, Structural)]
pub struct ProfileControlStats {
    pub mprf_packets_received: u64,
    pub mprf_ack_packets_sent: u64,
    pub mprf_duplicate_reacked: u64,
    pub mprf_pending_expired: u64,
    pub mprf_rejected_foreign_peer: u64,
    pub mprf_rejected_old_session: u64,
    pub mprf_rejected_sequence: u64,
    pub mprf_rejected_generation: u64,
    pub mprf_rejected_invalid_fields: u64,
    pub new_session_activation_count: u64,
}

impl ProfileControlStats {
    /// Nothing has happened yet.
    pub open spec fn initial() -> ProfileControlStats {
        ProfileControlStats {
            mprf_packets_received: 0,
            mprf_ack_packets_sent: 0,
            mprf_duplicate_reacked: 0,
            mprf_pending_expired: 0,
            mprf_rejected_foreign_peer: 0,
            mprf_rejected_old_session: 0,
            mprf_rejected_sequence: 0,
            mprf_rejected_generation: 0,
            mprf_rejected_invalid_fields: 0,
            new_session_activation_count: 0,
        }
    }

    pub fn new() -> (r: ProfileControlStats)
        ensures
            r == Self::initial(),
    {
        ProfileControlStats {
            mprf_packets_received: 0,
            mprf_ack_packets_sent: 0,
            mprf_duplicate_reacked: 0,
            mprf_pending_expired: 0,
            mprf_rejected_foreign_peer: 0,
            mprf_rejected_old_session: 0,
            mprf_rejected_sequence: 0,
            mprf_rejected_generation: 0,
            mprf_rejected_invalid_fields: 0,
            new_session_activation_count: 0,
        }
    }
}

/// The profile that is announced and did not begin yet.
#[derive(Clone, Copy, Debug, PartialEq, Eq, Structural)]
pub struct PendingSummary {
    pub present: bool,
    pub age_ms: u64,
    pub deadline_remaining_ms: u64,
    pub change_sequence: u64,
    pub generation: u64,
    pub old_session_id: u64,
    pub new_session_id: u64,
}

impl PendingSummary {
    /// Nothing has happened yet.
    pub open spec fn initial() -> PendingSummary {
        PendingSummary {
            present: false,
            age_ms: 0,
            deadline_remaining_ms: 0,
            change_sequence: 0,
            generation: 0,
            old_session_id: 0,
            new_session_id: 0,
        }
    }

    pub fn new() -> (r: PendingSummary)
        ensures
            r == Self::initial(),
    {
        PendingSummary {
            present: false,
            age_ms: 0,
            deadline_remaining_ms: 0,
            change_sequence: 0,
            generation: 0,
            old_session_id: 0,
            new_session_id: 0,
        }
    }
}

/// The profile of the stream.
#[derive(Clone, Copy, Debug, PartialEq, Eq, Structural)]
pub struct ReceiverProfileStats {
    pub changes_received: u64,
    pub changes_invalid: u64,
    pub change_sequence: u64,
    pub generation: u64,
    pub target_width: u32,
    pub target_height: u32,
    pub target_fps: u32,
    pub target_bitrate_mbps: Metric,
    pub decoder_resets: u64,
    pub stale_packets_dropped: u64,
    pub pending: PendingSummary,
    pub control: ProfileControlStats,
    pub new_session_first_packet_wait_total: u64,
    pub new_session_first_packet_wait_max: u64,
}

impl ReceiverProfileStats {
    /// Nothing has happened yet.
    pub open spec fn initial() -> ReceiverProfileStats {
        ReceiverProfileStats {
            changes_received: 0,
            changes_invalid: 0,
            change_sequence: 0,
            generation: 0,
            target_width: 0,
            target_height: 0,
            target_fps: 0,
            target_bitrate_mbps: Metric { bits: 0 },
            decoder_resets: 0,
            stale_packets_dropped: 0,
            pending: PendingSummary::initial(),
            control: ProfileControlStats::initial(),
            new_session_first_packet_wait_total: 0,
            new_session_first_packet_wait_max: 0,
        }
    }

    pub fn new() -> (r: ReceiverProfileStats)
        ensures
            r == Self::initial(),
    {
        ReceiverProfileStats {
            changes_received: 0,
            changes_invalid: 0,
            change_sequence: 0,
            generation: 0,
            target_width: 0,
            target_height: 0,
            target_fps: 0,
            target_bitrate_mbps: Metric { bits: 0 },
            decoder_resets: 0,
            stale_packets_dropped: 0,
            pending: PendingSummary::new(),
            control: ProfileControlStats::new(),
            new_session_first_packet_wait_total: 0,
            new_session_first_packet_wait_max: 0,
        }
    }
}

/// How long handling video packets took.
#[derive(Clone, Copy, Debug, PartialEq, Eq, Structural)]
pub struct DispatchTiming {
    pub ns_total: u64,
    pub count: u64,
    pub ns_max: u64,
}

impl DispatchTiming {
    /// Nothing has happened yet.
    pub open spec fn initial() -> DispatchTiming {
        DispatchTiming {
            ns_total: 0,
            count: 0,
            ns_max: 0,
        }
    }

    pub fn new() -> (r: DispatchTiming)
        ensures
            r == Self::initial(),
    {
        DispatchTiming {
            ns_total: 0,
            count: 0,
            ns_max: 0,
        }
    }
}

impl DispatchTiming {
    /// With another packet.
    pub open spec fn with(self, ns: u64) -> DispatchTiming {
        DispatchTiming {
            ns_total: self.ns_total.saturating_add(ns),
            count: self.count.saturating_add(1),
            ns_max: larger(self.ns_max, ns),
        }
    }

    /// Adds a packet.
    pub fn observe(&mut self, ns: u64)
        ensures
            *final(self) == old(self).with(ns),
    {
        self.ns_total = self.ns_total.saturating_add(ns);
        self.count = self.count.saturating_add(1);
        if ns > self.ns_max {
            self.ns_max = ns;
        }
    }
}

impl ReceiverRepairStats {
    /// With what a search for missing packets found.
    pub open spec fn with_collection(self, found: NackCollectionStats) -> ReceiverRepairStats {
        ReceiverRepairStats {
            nack_candidate_frames: self.nack_candidate_frames.saturating_add(
                found.candidate_frames,
            ),
            nack_suppressed_progressing_frames: self.nack_suppressed_progressing_frames.saturating_add(
                found.suppressed_progressing_frames,
            ),
            nack_suppressed_too_early: self.nack_suppressed_too_early.saturating_add(
                found.suppressed_too_early,
            ),
            nack_suppressed_already_requested: self.nack_suppressed_already_requested.saturating_add(
                found.suppressed_already_requested,
            ),
            nack_suppressed_item_limit: self.nack_suppressed_item_limit.saturating_add(
                found.suppressed_item_limit,
            ),
            nack_items_deduped: self.nack_items_deduped.saturating_add(found.items_deduped),
            nack_items_per_requested_frame_total: self.nack_items_per_requested_frame_total.saturating_add(
                found.items_per_requested_frame_total,
            ),
            nack_candidates_first_round: self.nack_candidates_first_round.saturating_add(
                found.candidates_first_round,
            ),
            nack_candidates_late_discovery: self.nack_candidates_late_discovery.saturating_add(
                found.candidates_late_discovery,
            ),
            nack_items_per_requested_frame_max: larger(
                self.nack_items_per_requested_frame_max,
                found.items_per_requested_frame_max,
            ),
            missing_first_detected_age: self.missing_first_detected_age.merged(
                found.missing_first_detected_age,
            ),
            missing_first_detected_to_deadline: self.missing_first_detected_to_deadline.merged(
                found.missing_first_detected_to_deadline,
            ),
            first_nack_to_deadline: self.first_nack_to_deadline.merged(
                found.first_nack_to_deadline,
            ),
            first_nack_age: self.first_nack_age.merged(found.first_nack_age),
            first_round_budget: self.first_round_budget.merged(found.first_round_budget),
            second_round_budget: self.second_round_budget.merged(found.second_round_budget),
            ..self
        }
    }

    /// Adds what a search for missing packets found.
    pub fn add_collection(&mut self, found: NackCollectionStats)
        ensures
            *final(self) == old(self).with_collection(found),
    {
        self.nack_candidate_frames = self.nack_candidate_frames.saturating_add(
            found.candidate_frames,
        );
        self.nack_suppressed_progressing_frames = self.nack_suppressed_progressing_frames.saturating_add(
            found.suppressed_progressing_frames,
        );
        self.nack_suppressed_too_early = self.nack_suppressed_too_early.saturating_add(
            found.suppressed_too_early,
        );
        self.nack_suppressed_already_requested = self.nack_suppressed_already_requested.saturating_add(
            found.suppressed_already_requested,
        );
        self.nack_suppressed_item_limit = self.nack_suppressed_item_limit.saturating_add(
            found.suppressed_item_limit,
        );
        self.nack_items_deduped = self.nack_items_deduped.saturating_add(found.items_deduped);
        self.nack_items_per_requested_frame_total = self.nack_items_per_requested_frame_total.saturating_add(
            found.items_per_requested_frame_total,
        );
        self.nack_candidates_first_round = self.nack_candidates_first_round.saturating_add(
            found.candidates_first_round,
        );
        self.nack_candidates_late_discovery = self.nack_candidates_late_discovery.saturating_add(
            found.candidates_late_discovery,
        );
        if found.items_per_requested_frame_max > self.nack_items_per_requested_frame_max {
            self.nack_items_per_requested_frame_max = found.items_per_requested_frame_max;
        }
        self.missing_first_detected_age.merge(found.missing_first_detected_age);
        self.missing_first_detected_to_deadline.merge(found.missing_first_detected_to_deadline);
        self.first_nack_to_deadline.merge(found.first_nack_to_deadline);
        self.first_nack_age.merge(found.first_nack_age);
        self.first_round_budget.merge(found.first_round_budget);
        self.second_round_budget.merge(found.second_round_budget);
    }
}

/// All measurements of a sequence, one after the other.
pub open spec fn measured(values: Seq<u64>) -> TimingMetric
    decreases values.len(),
{
    if values.len() == 0 {
        TimingMetric::initial()
    } else {
        measured(values.drop_last()).with(values.last())
    }
}

/// The sum of a sequence.
pub open spec fn sum_of(values: Seq<u64>) -> int
    decreases values.len(),
{
    if values.len() == 0 {
        0
    } else {
        sum_of(values.drop_last()) + values.last()
    }
}

/// A metric that has taken a sequence of measurements tells how many they were, their sum,
/// and the smallest and the largest of them.
pub proof fn law_metric_tells_its_measurements(values: Seq<u64>)
    requires
        sum_of(values) <= u64::MAX,
        values.len() <= u64::MAX,
    ensures
        measured(values).samples == values.len(),
        measured(values).total == sum_of(values),
        forall|i: int|
            0 <= i < values.len() ==> measured(values).min <= #[trigger] values[i]
                <= measured(values).max,
        values.len() > 0 ==> values.contains(measured(values).min) && values.contains(
            measured(values).max,
        ),
    decreases values.len(),
{
    lemma_sum_is_not_negative(values);
    if values.len() > 0 {
        let before = values.drop_last();
        lemma_sum_is_not_negative(before);
        law_metric_tells_its_measurements(before);
        assert forall|i: int| 0 <= i < values.len() implies measured(values).min
            <= #[trigger] values[i] <= measured(values).max by {
            if i < before.len() {
                assert(before[i] == values[i]);
            }
        }
        assert(values[values.len() - 1] == values.last());
        if before.len() > 0 {
            let low = choose|i: int| 0 <= i < before.len() && before[i] == measured(before).min;
            let high = choose|i: int| 0 <= i < before.len() && before[i] == measured(before).max;
            assert(values[low] == measured(before).min);
            assert(values[high] == measured(before).max);
        }
    }
}

proof fn lemma_sum_is_not_negative(values: Seq<u64>)
    ensures
        sum_of(values) >= 0,
    decreases values.len(),
{
    if values.len() > 0 {
        lemma_sum_is_not_negative(values.drop_last());
    }
}

/// Two metrics together tell of the measurements of both.
pub proof fn law_metrics_are_joined(a: TimingMetric, b: TimingMetric)
    requires
        a.samples > 0,
        b.samples > 0,
        a.samples + b.samples <= u64::MAX,
        a.total + b.total <= u64::MAX,
    ensures
        a.merged(b) == b.merged(a),
        a.merged(b).samples == a.samples + b.samples,
        a.merged(b).total == a.total + b.total,
        a.merged(b).min <= a.min && a.merged(b).min <= b.min,
        a.merged(b).min == a.min || a.merged(b).min == b.min,
        a.merged(b).max >= a.max && a.merged(b).max >= b.max,
        a.merged(b).max == a.max || a.merged(b).max == b.max,
{
}

/// A metric that has measured nothing adds nothing.
pub proof fn law_empty_metric_adds_nothing(a: TimingMetric, empty: TimingMetric)
    requires
        empty.samples == 0,
    ensures
        a.merged(empty) == a,
        a.samples > 0 ==> empty.merged(a) == a,
{
}

/// Every packet that was handled counts once, with its time, and the longest time is kept.
pub proof fn law_handled_packets_are_timed(timing: DispatchTiming, ns: u64)
    requires
        timing.count < u64::MAX,
        timing.ns_total + ns <= u64::MAX,
    ensures
        timing.with(ns).count == timing.count + 1,
        timing.with(ns).ns_total == timing.ns_total + ns,
        timing.with(ns).ns_max >= ns,
        timing.with(ns).ns_max >= timing.ns_max,
        timing.with(ns).ns_max == ns || timing.with(ns).ns_max == timing.ns_max,
{
}

/// What a search for missing packets found is added count by count.
pub proof fn law_searches_add_up(stats: ReceiverRepairStats, found: NackCollectionStats)
    ensures
        ({
            let after = stats.with_collection(found);
            &&& (stats.nack_candidate_frames + found.candidate_frames <= u64::MAX
                ==> after.nack_candidate_frames == stats.nack_candidate_frames
                + found.candidate_frames)
            &&& (stats.nack_suppressed_progressing_frames + found.suppressed_progressing_frames
                <= u64::MAX ==> after.nack_suppressed_progressing_frames
                == stats.nack_suppressed_progressing_frames + found.suppressed_progressing_frames)
            &&& (stats.nack_suppressed_too_early + found.suppressed_too_early <= u64::MAX
                ==> after.nack_suppressed_too_early == stats.nack_suppressed_too_early
                + found.suppressed_too_early)
            &&& (stats.nack_suppressed_already_requested + found.suppressed_already_requested
                <= u64::MAX ==> after.nack_suppressed_already_requested
                == stats.nack_suppressed_already_requested + found.suppressed_already_requested)
            &&& (stats.nack_suppressed_item_limit + found.suppressed_item_limit <= u64::MAX
                ==> after.nack_suppressed_item_limit == stats.nack_suppressed_item_limit
                + found.suppressed_item_limit)
            &&& (stats.nack_items_deduped + found.items_deduped <= u64::MAX
                ==> after.nack_items_deduped == stats.nack_items_deduped + found.items_deduped)
            &&& (stats.nack_items_per_requested_frame_total + found.items_per_requested_frame_total
                <= u64::MAX ==> after.nack_items_per_requested_frame_total
                == stats.nack_items_per_requested_frame_total
                + found.items_per_requested_frame_total)
            &&& (stats.nack_candidates_first_round + found.candidates_first_round <= u64::MAX
                ==> after.nack_candidates_first_round == stats.nack_candidates_first_round
                + found.candidates_first_round)
            &&& (stats.nack_candidates_late_discovery + found.candidates_late_discovery <= u64::MAX
                ==> after.nack_candidates_late_discovery == stats.nack_candidates_late_discovery
                + found.candidates_late_discovery)
            &&& after.nack_items_per_requested_frame_max >= found.items_per_requested_frame_max
            &&& after.nack_items_per_requested_frame_max
                >= stats.nack_items_per_requested_frame_max
            &&& after.nack_items_per_requested_frame_max == found.items_per_requested_frame_max
                || after.nack_items_per_requested_frame_max
                == stats.nack_items_per_requested_frame_max
            &&& after.nack_items_sent == stats.nack_items_sent
            &&& after.nack_packets_sent == stats.nack_packets_sent
            &&& after.repair_packets_received == stats.repair_packets_received
            &&& after.repair_frames_completed == stats.repair_frames_completed
        }),
        stats.first_nack_age.samples == 0 ==> stats.with_collection(found).first_nack_age
            == if found.first_nack_age.samples == 0 {
            stats.first_nack_age
        } else {
            found.first_nack_age
        },
        stats.first_nack_to_deadline.samples == 0 && found.first_nack_to_deadline.samples > 0
            ==> stats.with_collection(found).first_nack_to_deadline == found.first_nack_to_deadline,
        stats.missing_first_detected_age.samples == 0 && found.missing_first_detected_age.samples
            > 0 ==> stats.with_collection(found).missing_first_detected_age
            == found.missing_first_detected_age,
        stats.missing_first_detected_to_deadline.samples == 0
            && found.missing_first_detected_to_deadline.samples > 0 ==> stats.with_collection(
            found,
        ).missing_first_detected_to_deadline == found.missing_first_detected_to_deadline,
        stats.first_round_budget.samples == 0 && found.first_round_budget.samples > 0
            ==> stats.with_collection(found).first_round_budget == found.first_round_budget,
        stats.second_round_budget.samples == 0 && found.second_round_budget.samples > 0
            ==> stats.with_collection(found).second_round_budget == found.second_round_budget,
{
}

} // verus!
