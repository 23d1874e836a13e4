//! Native media runtime.
use vstd::prelude::*;

pub mod bitrate;
pub mod choices;
pub mod cli;
pub mod cli_options;
pub mod cli_self_test;
pub mod cli_values;
pub mod close_handshake;
pub mod color_spec;
pub mod decode_queue;
pub mod encoded_frame;
pub mod h264_recv_view;
pub mod h264_send_probe;
pub mod json;
pub mod local_control;
pub mod media_clock;
pub mod media_control;
pub mod media_packet;
pub mod nv12_synthetic;
pub mod nv12_to_bgra;
pub mod pacer;
pub mod playout_buffer;
pub mod readiness;
pub mod real_number;
pub mod reassembler;
pub mod receive_loop;
pub mod receiver_report;
pub mod receiver_stats;
pub mod render_worker;
pub mod repair_book;
pub mod self_test;
pub mod sender_control;
pub mod sender_report;
pub mod sender_state;
pub mod shutdown;
pub mod synthetic_stream;
pub mod text;
pub mod transition_book;
pub mod wire;

verus! {

}
