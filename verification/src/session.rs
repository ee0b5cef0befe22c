//! Decision logic of the transport coordinator.
//!
//! The event loop itself lives with the transport: it waits on command
//! intake, transport readability and the shutdown trigger, and hands every
//! read here.  This module decides what a read means: which frames it
//! completes, whether the peer closed, and what the final best-effort stop
//! command is.

use vstd::prelude::*;

use crate::base_control::{spec_base_control_subpayload, BaseControl};
use crate::buffer::{buf_bytes, buf_len};
use crate::error::DecodeError;
use crate::feedback::Feedback;
use crate::feedback_decoder::{spec_decode, FeedbackDecoder};
use crate::protocol::{spec_frame, ByteStream};

verus! {

/// Whether the session goes on after a read.
#[derive(Clone, Copy, Debug, PartialEq, Eq, Structural)]
pub enum SessionStatus {
    /// The transport stays open; keep reading.
    Open,
    /// The peer closed the transport; the session is over.
    Closed,
}

/// One decode call consumes bytes, never grows the buffer, and consumes at
/// least the four framing bytes whenever it yields a frame.
pub proof fn lemma_decode_remainder_len(b: Seq<u8>)
    ensures
        spec_decode(b).1.len() <= b.len(),
        (match spec_decode(b).0 {
            Ok(Some(_)) => spec_decode(b).1.len() + 4 <= b.len(),
            _ => true,
        }),
{
    crate::feedback_decoder::lemma_find_header_spec(b);
}

/// What running the decoder to exhaustion on `b` yields: the frames
/// completed in order, the error that stopped the run early if one did,
/// and the bytes left buffered.
pub open spec fn spec_drain(b: Seq<u8>) -> (Seq<Feedback>, Option<DecodeError>, Seq<u8>)
    decreases b.len(),
    via spec_drain_decreases
{
    let (r, rem) = spec_decode(b);
    match r {
        Ok(Some(f)) => {
            let (fs, e, rem2) = spec_drain(rem);
            (seq![f] + fs, e, rem2)
        },
        Ok(None) => (Seq::empty(), None, rem),
        Err(e) => (Seq::empty(), Some(e), rem),
    }
}

#[via_fn]
proof fn spec_drain_decreases(b: Seq<u8>) {
    lemma_decode_remainder_len(b);
}

/// [`spec_drain`] at end of stream: bytes left after a clean run mean the
/// stream ended inside a frame.
pub open spec fn spec_drain_eof(b: Seq<u8>) -> (Seq<Feedback>, Option<DecodeError>, Seq<u8>) {
    let (fs, e, rem) = spec_drain(b);
    if e is None && rem.len() != 0 {
        (fs, Some(DecodeError::TrailingBytes), rem)
    } else {
        (fs, e, rem)
    }
}

/// Runs the decoder until it wants more bytes, collecting every completed
/// frame in order; an error stops the run and is handed back beside the
/// frames already completed.
#[verifier::loop_isolation(false)]
pub fn drain_frames(decoder: &mut FeedbackDecoder, src: &mut bytes::BytesMut) -> (r: (
    Vec<Feedback>,
    Option<DecodeError>,
))
    ensures
        r.0@ == spec_drain(buf_bytes(*old(src))).0,
        r.1 == spec_drain(buf_bytes(*old(src))).1,
        buf_bytes(*final(src)) == spec_drain(buf_bytes(*old(src))).2,
{
    let ghost b0 = buf_bytes(*src);
    let mut frames: Vec<Feedback> = Vec::new();
    loop
        invariant
            spec_drain(b0).0 == frames@ + spec_drain(buf_bytes(*src)).0,
            spec_drain(b0).1 == spec_drain(buf_bytes(*src)).1,
            spec_drain(b0).2 == spec_drain(buf_bytes(*src)).2,
        decreases buf_bytes(*src).len(),
    {
        let ghost cur = buf_bytes(*src);
        proof {
            lemma_decode_remainder_len(cur);
        }
        match decoder.decode(src) {
            Ok(Some(f)) => {
                let ghost prev = frames@;
                frames.push(f);
                proof {
                    let (fs, e, rem2) = spec_drain(spec_decode(cur).1);
                    assert(frames@ + fs =~= prev + (seq![f] + fs));
                }
            },
            Ok(None) => {
                proof {
                    assert(frames@ + spec_drain(cur).0 =~= frames@);
                }
                return (frames, None);
            },
            Err(e) => {
                proof {
                    assert(frames@ + spec_drain(cur).0 =~= frames@);
                }
                return (frames, Some(e));
            },
        }
    }
}

/// Decides what one transport read means.  A read of `size` zero is the
/// peer disconnecting: any trailing complete frame is still flushed and
/// the session closes.  Otherwise the buffered bytes are decoded to
/// exhaustion and the session stays open.  Either way the frames completed
/// before an error are handed back beside it.
pub fn handle_read(decoder: &mut FeedbackDecoder, src: &mut bytes::BytesMut, size: usize) -> (r: (
    Vec<Feedback>,
    Result<SessionStatus, DecodeError>,
))
    ensures
        size != 0 ==> ({
            let (fs, e, rem) = spec_drain(buf_bytes(*old(src)));
            r.0@ == fs && buf_bytes(*final(src)) == rem && (match e {
                None => r.1 == Result::<SessionStatus, DecodeError>::Ok(SessionStatus::Open),
                Some(err) => r.1 == Result::<SessionStatus, DecodeError>::Err(err),
            })
        }),
        size == 0 ==> ({
            let (fs, e, rem) = spec_drain_eof(buf_bytes(*old(src)));
            r.0@ == fs && buf_bytes(*final(src)) == rem && (match e {
                None => r.1 == Result::<SessionStatus, DecodeError>::Ok(SessionStatus::Closed),
                Some(err) => r.1 == Result::<SessionStatus, DecodeError>::Err(err),
            })
        }),
{
    let (frames, err) = drain_frames(decoder, src);
    match err {
        Some(e) => (frames, Err(e)),
        None => {
            if size == 0 {
                if buf_len(src) != 0 {
                    (frames, Err(DecodeError::TrailingBytes))
                } else {
                    (frames, Ok(SessionStatus::Closed))
                }
            } else {
                (frames, Ok(SessionStatus::Open))
            }
        },
    }
}

/// The frame every termination path writes best-effort before the
/// transport is released: a drive command at zero speed and zero radius,
/// so that losing the controlling process does not leave the base moving.
pub fn stop_frame() -> (r: Vec<u8>)
    ensures
        r@ == spec_frame(spec_base_control_subpayload(0, 0)),
{
    let bs = ByteStream::builder().subpayload(BaseControl::new(0, 0));
    proof {
        assert(bs.payload@ =~= spec_base_control_subpayload(0, 0));
    }
    bs.to_bytes()
}

} // verus!
