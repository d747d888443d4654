//! A verified core for a small camera-viewer pipeline: frames are acquired
//! from a capture device, decoded and converted into fixed-size packed-pixel
//! framebuffers, handed across a FIFO channel to a render consumer, and
//! counted for a live framerate readout.

mod channel;
mod decoder;
mod negotiate;
mod pipeline;
mod pixels;
mod stats;

pub use pipeline::CaptureError;
pub use pipeline::LoopPhase;
pub use pipeline::capture_iteration;
pub use pipeline::loop_transition;
pub use pipeline::on_redraw;
pub use pipeline::reporter_tick;

pub use stats::Counters;
pub use stats::after_captures;
pub use stats::after_renders;
pub use stats::counters_wf;
pub use stats::decimal_digits;
pub use stats::digit_char;
pub use stats::display_title;
pub use stats::lemma_counter_totals;
pub use stats::received_step;
pub use stats::rendered_step;
pub use stats::snapshot_step;
pub use stats::title_chars;
pub use stats::zero_counters;

pub use channel::FrameChannel;
pub use channel::ReceiveOutcome;
pub use decoder::CaptureFormat;
pub use decoder::DecodeError;
pub use decoder::decode;
pub use decoder::decoded_bytes;
pub use decoder::jpeg_decoding;

pub use pixels::ConversionError;
pub use pixels::centered_offset;
pub use pixels::convert;
pub use pixels::lemma_converted_size_and_range;
pub use pixels::lemma_exact_crop_in_range;
pub use pixels::lemma_uniform_source_roundtrip;
pub use pixels::converted;
pub use pixels::crop_in_range;
pub use pixels::lemma_pack_rgb_bound;
pub use pixels::lemma_sample_index_monotonic;
pub use pixels::pack_rgb;
pub use pixels::pixel_at;
pub use pixels::row_stride;
pub use pixels::sample_index;
pub use negotiate::NegotiationError;
pub use negotiate::encoding_supported;
pub use negotiate::first_supported;
pub use negotiate::PixelEncoding;
pub use negotiate::negotiate_format;
