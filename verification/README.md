# agoralink_media

The media runtime of AgoraLink: it cuts video frames into datagrams and puts them together
again, paces what it sends, asks for lost packets, keeps sender and receiver agreed on the
profile of a stream, and closes streams so that both ends know.

`src/` is the library, verified with Verus. Its functions take the time and whatever the
network, the encoder, the decoder or the window has said as plain values, and return what
is to be done next. Every contract says exactly what a function returns and how it changes
what it is given; the `law_` functions state what holds over several of them.

- `wire`, `media_packet`, `reassembler`, `synthetic_stream`: packets and frames.
- `media_control`, `close_handshake`, `local_control`: control messages.
- `playout_buffer`, `media_clock`, `decode_queue`, `render_worker`: from frames to pictures.
- `readiness`, `repair_book`, `receive_loop`, `h264_recv_view`: the receiver.
- `pacer`, `sender_control`, `transition_book`, `sender_state`, `h264_send_probe`: the sender.
- `cli`, `cli_options`, `cli_values`, `choices`, `bitrate`, `color_spec`: the command line.
- `json`, `receiver_stats`, `receiver_report`, `sender_report`: what is reported.
- `nv12_to_bgra`, `nv12_synthetic`: pictures.
- `self_test`, `cli_self_test`: the self-test of the program.
- `text`, `real_number`, `encoded_frame`, `shutdown`: what the others share.

Times are nanoseconds of a monotonic clock. Numbers with a fraction stand in `src/` as
their bits or as the decimal text that is reported; `app/` computes with them.

`tests/` runs the library, and `app/` is the program around it.
