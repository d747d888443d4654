use camview::CaptureError;
use camview::CaptureFormat;
use camview::Counters;
use camview::DecodeError;
use camview::FrameChannel;
use camview::LoopPhase;
use camview::NegotiationError;
use camview::PixelEncoding;
use camview::ReceiveOutcome;
use camview::capture_iteration;
use camview::decode;
use camview::display_title;
use camview::loop_transition;
use camview::negotiate_format;
use camview::on_redraw;
use camview::reporter_tick;

// Frames sent 1, 2, 3 are received in exactly that order.
#[test]
fn frame_channel_fifo_order() {
    let mut ch = FrameChannel::new();
    ch.send(vec![1u32]);
    ch.send(vec![2u32]);
    ch.send(vec![3u32]);
    for tag in 1u32..=3 {
        match ch.try_receive() {
            ReceiveOutcome::Frame(f) => assert_eq!(f, vec![tag]),
            _ => panic!("expected a pending frame"),
        }
    }
    assert!(matches!(ch.try_receive(), ReceiveOutcome::WouldBlock));
}

#[test]
fn frame_channel_closed_after_drain() {
    let mut ch = FrameChannel::new();
    ch.send(vec![7u32]);
    ch.close();
    match ch.try_receive() {
        ReceiveOutcome::Frame(f) => assert_eq!(f, vec![7u32]),
        _ => panic!("a pending frame survives the close"),
    }
    assert!(matches!(ch.try_receive(), ReceiveOutcome::Closed));
}

// After N capture iterations and M render iterations the totals read N and
// M, and a reporter tick right after reads delta == N - prev_received.
#[test]
fn counter_totals_and_tick() {
    let n = 5u64;
    let m = 3u64;
    let mut c = Counters::new();
    for _ in 0..n {
        c.record_received();
    }
    for _ in 0..m {
        c.record_rendered();
    }
    assert_eq!(c.frames_received, n);
    assert_eq!(c.frames_rendered, m);
    let prev = c.prev_received;
    let delta = c.stats_tick();
    assert_eq!(delta, n - prev);
    assert_eq!(c.prev_received, n);
    assert_eq!(c.prev_rendered, m);
}

#[test]
fn reporter_tick_title() {
    let mut c = Counters::new();
    for _ in 0..42 {
        c.record_received();
    }
    let title = reporter_tick(&mut c);
    assert_eq!(title, "My Camera (42 fps)");
    assert_eq!(c.prev_received, 42);
    // A second tick with no new frames reads zero.
    let title = reporter_tick(&mut c);
    assert_eq!(title, "My Camera (0 fps)");
}

#[test]
fn display_title_embeds_delta() {
    assert_eq!(display_title(0), "My Camera (0 fps)");
    assert_eq!(display_title(1007), "My Camera (1007 fps)");
}

// Negotiation walks the preference list in order and fails only when
// nothing in it is supported.
#[test]
fn negotiation_prefers_first_supported() {
    let prefs = vec![PixelEncoding::Raw24, PixelEncoding::CompressedImage];
    assert_eq!(
        negotiate_format(&prefs, false, true),
        Ok(PixelEncoding::CompressedImage)
    );
    assert_eq!(negotiate_format(&prefs, true, true), Ok(PixelEncoding::Raw24));
    assert_eq!(negotiate_format(&prefs, false, false), Err(NegotiationError));
}

// A corrupted compressed bitstream is a Malformed decode error, not a panic
// or an out-of-bounds read.
#[test]
fn decode_malformed_compressed() {
    let format = CaptureFormat {
        pixel_encoding: PixelEncoding::CompressedImage,
        width: 4,
        height: 4,
    };
    let corrupted: Vec<u8> = vec![0xFF, 0xD8, 0xFF, 0x00, 0x13, 0x37, 0x00];
    assert_eq!(decode(corrupted, &format), Err(DecodeError::Malformed));
}

#[test]
fn decode_raw_passthrough() {
    let format = CaptureFormat {
        pixel_encoding: PixelEncoding::Raw24,
        width: 4,
        height: 4,
    };
    let bytes: Vec<u8> = vec![1, 2, 3, 4, 5, 6];
    assert_eq!(decode(bytes.clone(), &format), Ok(bytes));
}

// One full capture iteration over a raw frame: the converted framebuffer is
// published and the received total steps by one.
#[test]
fn capture_iteration_publishes_and_counts() {
    let format = CaptureFormat {
        pixel_encoding: PixelEncoding::Raw24,
        width: 2,
        height: 2,
    };
    let raw: Vec<u8> = vec![
        10, 20, 30, 40, 50, 60, //
        70, 80, 90, 100, 110, 120,
    ];
    let mut ch = FrameChannel::new();
    let mut c = Counters::new();
    let r = capture_iteration(raw, &format, 2, 2, 1, 0, &mut ch, &mut c);
    assert_eq!(r, Ok(()));
    assert_eq!(c.frames_received, 1);
    match ch.try_receive() {
        ReceiveOutcome::Frame(f) => {
            assert_eq!(f, vec![
                30 | (20 << 8) | (10 << 16),
                60 | (50 << 8) | (40 << 16),
                90 | (80 << 8) | (70 << 16),
                120 | (110 << 8) | (100 << 16),
            ]);
        }
        _ => panic!("the iteration published no frame"),
    }
}

// A fatal decode failure publishes nothing and counts nothing.
#[test]
fn capture_iteration_fatal_on_malformed() {
    let format = CaptureFormat {
        pixel_encoding: PixelEncoding::CompressedImage,
        width: 2,
        height: 2,
    };
    let corrupted: Vec<u8> = vec![0xDE, 0xAD, 0xBE, 0xEF];
    let mut ch = FrameChannel::new();
    let mut c = Counters::new();
    let r = capture_iteration(corrupted, &format, 2, 2, 1, 0, &mut ch, &mut c);
    assert_eq!(r, Err(CaptureError::Decode(DecodeError::Malformed)));
    assert_eq!(c.frames_received, 0);
    assert!(matches!(ch.try_receive(), ReceiveOutcome::WouldBlock));
}

// An undersized raw buffer is a conversion failure, also fatal, and also
// publishes nothing.
#[test]
fn capture_iteration_fatal_on_short_buffer() {
    let format = CaptureFormat {
        pixel_encoding: PixelEncoding::Raw24,
        width: 2,
        height: 2,
    };
    let short: Vec<u8> = vec![0u8; 5];
    let mut ch = FrameChannel::new();
    let mut c = Counters::new();
    let r = capture_iteration(short, &format, 2, 2, 1, 0, &mut ch, &mut c);
    assert_eq!(
        r,
        Err(CaptureError::Convert(
            camview::ConversionError::SourceIndexOutOfRange
        ))
    );
    assert_eq!(c.frames_received, 0);
}

// A render pass takes the oldest frame and counts it; with nothing pending
// it reports whether waiting can still help.
#[test]
fn on_redraw_renders_and_counts() {
    let mut ch = FrameChannel::new();
    let mut c = Counters::new();
    ch.send(vec![9u32, 9, 9, 9]);
    match on_redraw(&mut ch, &mut c) {
        ReceiveOutcome::Frame(f) => assert_eq!(f, vec![9u32, 9, 9, 9]),
        _ => panic!("expected the pending frame"),
    }
    assert_eq!(c.frames_rendered, 1);
    assert!(matches!(on_redraw(&mut ch, &mut c), ReceiveOutcome::WouldBlock));
    ch.close();
    assert!(matches!(on_redraw(&mut ch, &mut c), ReceiveOutcome::Closed));
    assert_eq!(c.frames_rendered, 1);
}

#[test]
fn loop_phase_transitions() {
    assert_eq!(loop_transition(LoopPhase::Idle, true), LoopPhase::Streaming);
    assert_eq!(loop_transition(LoopPhase::Streaming, true), LoopPhase::Streaming);
    assert_eq!(loop_transition(LoopPhase::Streaming, false), LoopPhase::Stopped);
    assert_eq!(loop_transition(LoopPhase::Stopped, true), LoopPhase::Stopped);
}
