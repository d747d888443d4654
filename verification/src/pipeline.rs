//! The pipeline around the components: one capture iteration (decode,
//! convert, publish, count), one render pass (take a frame, count), one
//! reporter tick (derive the title, snapshot), and the capture loop's
//! phase transitions.

use vstd::prelude::*;
use crate::channel::FrameChannel;
use crate::channel::ReceiveOutcome;
use crate::decoder::CaptureFormat;
use crate::decoder::DecodeError;
use crate::decoder::decode;
use crate::decoder::decoded_bytes;
use crate::pixels::ConversionError;
use crate::pixels::convert;
use crate::pixels::converted;
use crate::pixels::crop_in_range;
use crate::pixels::row_stride;
use crate::stats::Counters;
use crate::stats::counters_wf;
use crate::stats::display_title;
use crate::stats::received_step;
use crate::stats::rendered_step;
use crate::stats::snapshot_step;
use crate::stats::title_chars;

verus! {

/// Why a capture iteration stopped the loop. Every failure is fatal: no
/// retry or recovery path is defined.
#[derive(Clone, Copy, Debug, PartialEq, Eq, Structural)]
pub enum CaptureError {
    Decode(DecodeError),
    Convert(ConversionError),
}

/// The capture loop's phase: idle before streaming starts, streaming while
/// iterations succeed, stopped — for good — on the first fatal error.
#[derive(Clone, Copy, Debug, PartialEq, Eq, Structural)]
pub enum LoopPhase {
    Idle,
    Streaming,
    Stopped,
}

/// Advances the capture loop's phase: starting moves it to streaming, a
/// successful iteration keeps it streaming, a failed one stops it, and a
/// stopped loop never restarts.
pub fn loop_transition(phase: LoopPhase, iteration_ok: bool) -> (p: LoopPhase)
    ensures
        p == (match phase {
            LoopPhase::Idle => LoopPhase::Streaming,
            LoopPhase::Streaming => if iteration_ok {
                LoopPhase::Streaming
            } else {
                LoopPhase::Stopped
            },
            LoopPhase::Stopped => LoopPhase::Stopped,
        }),
{
    match phase {
        LoopPhase::Idle => LoopPhase::Streaming,
        LoopPhase::Streaming => if iteration_ok {
            LoopPhase::Streaming
        } else {
            LoopPhase::Stopped
        },
        LoopPhase::Stopped => LoopPhase::Stopped,
    }
}

/// One capture iteration after acquisition: decode the buffer under the
/// session format, convert it into a `dst_width × dst_height` framebuffer
/// sampled with `scale` and `x_offset`, publish the framebuffer on the
/// channel, and count the received frame. On failure nothing is published
/// and nothing is counted.
pub fn capture_iteration(
    buffer: Vec<u8>,
    format: &CaptureFormat,
    dst_width: u32,
    dst_height: u32,
    scale: usize,
    x_offset: usize,
    chan: &mut FrameChannel,
    counters: &mut Counters,
) -> (r: Result<(), CaptureError>)
    requires
        !old(chan).is_closed(),
        old(counters).frames_received < u64::MAX,
        dst_width == dst_height,
        dst_width * dst_height <= usize::MAX,
        row_stride(format.width as int) <= usize::MAX,
    ensures
        ({
            let dec = decoded_bytes(format.pixel_encoding, buffer@);
            let stride = row_stride(format.width as int);
            match r {
                Ok(_) => {
                    &&& dec is Some
                    &&& crop_in_range(
                        dec.unwrap().len() as int,
                        dst_width as int,
                        dst_height as int,
                        scale as int,
                        stride,
                        x_offset as int,
                    )
                    &&& final(chan).pending() == old(chan).pending().push(
                        converted(
                            dec.unwrap(),
                            dst_width as int,
                            dst_height as int,
                            scale as int,
                            stride,
                            x_offset as int,
                        ),
                    )
                    &&& !final(chan).is_closed()
                    &&& *final(counters) == received_step(*old(counters))
                },
                Err(e) => {
                    &&& *final(chan) == *old(chan)
                    &&& *final(counters) == *old(counters)
                    &&& match e {
                        CaptureError::Decode(d) => d == DecodeError::Malformed && dec is None,
                        CaptureError::Convert(c) => {
                            &&& c == ConversionError::SourceIndexOutOfRange
                            &&& dec is Some
                            &&& !crop_in_range(
                                dec.unwrap().len() as int,
                                dst_width as int,
                                dst_height as int,
                                scale as int,
                                stride,
                                x_offset as int,
                            )
                        },
                    }
                },
            }
        }),
{
    let raw = match decode(buffer, format) {
        Ok(v) => v,
        Err(e) => {
            return Err(CaptureError::Decode(e));
        },
    };
    let fb = match convert(&raw, format.width, format.height, dst_width, dst_height, scale,
        x_offset) {
        Ok(v) => v,
        Err(e) => {
            return Err(CaptureError::Convert(e));
        },
    };
    chan.send(fb);
    counters.record_received();
    Ok(())
}

/// One render pass, run on each redraw signal: take the oldest pending
/// framebuffer and count it as rendered; the caller submits it to the
/// presentation surface. With nothing pending the consumer either waits
/// (channel open) or learns that no frame will ever arrive again (channel
/// closed, fatal).
pub fn on_redraw(chan: &mut FrameChannel, counters: &mut Counters) -> (r: ReceiveOutcome)
    requires
        old(counters).frames_rendered < u64::MAX,
    ensures
        final(chan).is_closed() == old(chan).is_closed(),
        match r {
            ReceiveOutcome::Frame(f) => {
                &&& old(chan).pending().len() > 0
                &&& f@ == old(chan).pending()[0]
                &&& final(chan).pending() == old(chan).pending().drop_first()
                &&& *final(counters) == rendered_step(*old(counters))
            },
            ReceiveOutcome::WouldBlock => {
                &&& old(chan).pending().len() == 0
                &&& !old(chan).is_closed()
                &&& final(chan).pending() == old(chan).pending()
                &&& *final(counters) == *old(counters)
            },
            ReceiveOutcome::Closed => {
                &&& old(chan).pending().len() == 0
                &&& old(chan).is_closed()
                &&& final(chan).pending() == old(chan).pending()
                &&& *final(counters) == *old(counters)
            },
        },
{
    match chan.try_receive() {
        ReceiveOutcome::Frame(f) => {
            counters.record_rendered();
            ReceiveOutcome::Frame(f)
        },
        ReceiveOutcome::WouldBlock => ReceiveOutcome::WouldBlock,
        ReceiveOutcome::Closed => ReceiveOutcome::Closed,
    }
}

/// One reporter tick: derive the display title from the frames received
/// over the interval, then snapshot the totals.
pub fn reporter_tick(counters: &mut Counters) -> (title: String)
    requires
        counters_wf(*old(counters)),
    ensures
        title@ == title_chars(
            (old(counters).frames_received - old(counters).prev_received) as u64,
        ),
        *final(counters) == snapshot_step(*old(counters)),
        counters_wf(*final(counters)),
{
    let delta = counters.stats_tick();
    display_title(delta)
}

} // verus!
