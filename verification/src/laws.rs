//! Properties of the codec, proved once and for all: what a well-formed
//! frame is, that encoding inverts to decoding, and how the decoder treats
//! split input, surrounding garbage, concatenated frames and corruption.

use vstd::prelude::*;

use crate::error::DecodeError;
use crate::feedback::Feedback;
use crate::feedback_decoder::{
    header_at, lemma_find_header_unique, spec_decode, spec_find_header, spec_parse_payload,
    spec_parse_payload_rec, spec_payload_has_id,
};
use crate::protocol::{spec_frame, spec_frame_checksum};
use crate::wire::{xor_fold, HEADER_0, HEADER_1};

verus! {

/// One complete, checksum-correct frame whose payload parses: header,
/// length byte, exactly that many payload bytes, matching checksum.
pub open spec fn valid_frame(w: Seq<u8>) -> bool {
    &&& w.len() >= 4
    &&& w[0] == HEADER_0
    &&& w[1] == HEADER_1
    &&& w.len() == 4 + w[2]
    &&& w[3 + w[2]] == xor_fold(w.subrange(2, 3 + w[2]))
    &&& spec_parse_payload(w.subrange(3, 3 + w[2])) is Ok
}

/// The feedback aggregate a valid frame decodes to.
pub open spec fn frame_feedback(w: Seq<u8>) -> Feedback
    recommends
        valid_frame(w),
{
    spec_parse_payload(w.subrange(3, 3 + w[2]))->Ok_0
}

/// Garbage before a valid frame and garbage after it do not affect its
/// decoding: one call drops the leading garbage, yields the frame's
/// feedback, and leaves exactly the trailing bytes buffered.  The leading
/// garbage may not itself contain the header sequence, or it would be
/// taken for a frame start.
pub proof fn lemma_decode_frame_amid_garbage(g: Seq<u8>, w: Seq<u8>, t: Seq<u8>)
    requires
        valid_frame(w),
        forall|j: int| !header_at(g, j),
    ensures
        spec_decode(g + w + t).0 == Result::<Option<Feedback>, DecodeError>::Ok(
            Some(frame_feedback(w)),
        ),
        spec_decode(g + w + t).1 == t,
{
    let b = g + w + t;
    let n = g.len() as int;

    assert(b[n] == w[0]);
    assert(b[n + 1] == w[1]);
    assert(header_at(b, n));
    assert forall|j: int| 0 <= j < n implies !header_at(b, j) by {
        if j < n - 1 {
            if header_at(b, j) {
                assert(g[j] == b[j]);
                assert(g[j + 1] == b[j + 1]);
                assert(header_at(g, j));
            }
        } else {
            // The byte after the garbage run is the first header byte, not
            // the second, so no header can straddle the boundary.
            assert(b[j + 1] == w[0]);
        }
    }
    lemma_find_header_unique(b, n);

    let s = b.skip(n);
    assert(s =~= w + t);
    let len = s[2] as int;
    assert(s[2] == w[2]);
    assert(s.len() >= 4 + len);
    assert(s.subrange(2, 3 + len) =~= w.subrange(2, 3 + len));
    assert(s[3 + len] == w[3 + len]);
    assert(s.subrange(3, 3 + len) =~= w.subrange(3, 3 + len));
    assert(s.skip(4 + len) =~= t);
}

/// Two concatenated valid frames decode in order across two calls, and a
/// third call on what is left reports that no frame is there.
pub proof fn lemma_two_frames_in_order(w1: Seq<u8>, w2: Seq<u8>)
    requires
        valid_frame(w1),
        valid_frame(w2),
    ensures
        spec_decode(w1 + w2).0 == Result::<Option<Feedback>, DecodeError>::Ok(
            Some(frame_feedback(w1)),
        ),
        spec_decode(w1 + w2).1 == w2,
        spec_decode(w2).0 == Result::<Option<Feedback>, DecodeError>::Ok(
            Some(frame_feedback(w2)),
        ),
        spec_decode(w2).1 == Seq::<u8>::empty(),
        spec_decode(Seq::<u8>::empty()).0 == Result::<Option<Feedback>, DecodeError>::Ok(None),
{
    let e = Seq::<u8>::empty();
    assert(e + w1 + w2 =~= w1 + w2);
    lemma_decode_frame_amid_garbage(e, w1, w2);
    assert(e + w2 + e =~= w2);
    lemma_decode_frame_amid_garbage(e, w2, e);
}

/// The decoder is resumable: a valid frame cut anywhere but inside the
/// header yields "no frame yet", and feeding the rest alongside what the
/// first call left buffered yields the same frame as feeding it whole.  A
/// cut after one byte is left out: a lone first header byte is
/// indistinguishable from noise and is discarded as such.
pub proof fn lemma_decoder_resumable(w: Seq<u8>, cut: int)
    requires
        valid_frame(w),
        0 <= cut < w.len(),
        cut != 1,
    ensures
        spec_decode(w.take(cut)).0 == Result::<Option<Feedback>, DecodeError>::Ok(None),
        spec_decode(spec_decode(w.take(cut)).1 + w.skip(cut)).0 == Result::<
            Option<Feedback>,
            DecodeError,
        >::Ok(Some(frame_feedback(w))),
        spec_decode(spec_decode(w.take(cut)).1 + w.skip(cut)).1 == Seq::<u8>::empty(),
{
    let x = w.take(cut);
    let e = Seq::<u8>::empty();
    if cut == 0 {
        assert(x =~= e);
        assert(spec_decode(x).1 =~= e);
        assert(e + w.skip(0) =~= e + w + e);
        lemma_decode_frame_amid_garbage(e, w, e);
    } else {
        // cut >= 2: the whole header is in the first half, so the decoder
        // keeps everything and just waits for more bytes.
        assert(x[0] == HEADER_0);
        assert(x[1] == HEADER_1);
        assert(spec_find_header(x) == Some(0int));
        assert(x.skip(0) =~= x);
        if cut >= 3 {
            assert(x[2] == w[2]);
            assert(x.len() < 4 + x[2]);
        }
        assert(spec_decode(x).0 == Result::<Option<Feedback>, DecodeError>::Ok(None));
        assert(spec_decode(x).1 == x);
        assert(x + w.skip(cut) =~= e + w + e);
        lemma_decode_frame_amid_garbage(e, w, e);
    }
}

/// A corrupted checksum byte is rejected, never silently decoded; the
/// malformed frame's whole span is dropped.
pub proof fn lemma_corrupt_checksum_rejected(w: Seq<u8>, c: u8)
    requires
        valid_frame(w),
        c != w[w.len() - 1],
    ensures
        spec_decode(w.update(w.len() - 1, c)).0 == Result::<Option<Feedback>, DecodeError>::Err(
            DecodeError::ChecksumMismatch { got: c, expected: w[w.len() - 1] },
        ),
        spec_decode(w.update(w.len() - 1, c)).1 == Seq::<u8>::empty(),
{
    let v = w.update(w.len() - 1, c);
    assert(v[0] == HEADER_0);
    assert(v[1] == HEADER_1);
    assert(spec_find_header(v) == Some(0int));
    let s = v.skip(0);
    assert(s =~= v);
    let len = s[2] as int;
    assert(s[2] == w[2]);
    assert(s.subrange(2, 3 + len) =~= w.subrange(2, 3 + len));
    assert(s[3 + len] == c);
    assert(s.skip(4 + len) =~= Seq::<u8>::empty());
}

/// A frame built around any payload that parses is a valid frame, and
/// decodes to that payload's feedback.
pub proof fn lemma_frame_of_payload_valid(p: Seq<u8>)
    requires
        p.len() <= 255,
        spec_parse_payload(p) is Ok,
    ensures
        valid_frame(spec_frame(p)),
        frame_feedback(spec_frame(p)) == spec_parse_payload(p)->Ok_0,
{
    let w = spec_frame(p);
    assert(w[2] == p.len() as u8);
    assert(w.subrange(2, 3 + w[2]) =~= seq![p.len() as u8] + p);
    assert(w[3 + w[2]] == spec_frame_checksum(p));
    assert(w.subrange(3, 3 + w[2]) =~= p);
}

/// Encode then decode is the identity on frames: decoding the rendered
/// frame of any payload consumes it whole and yields exactly the payload's
/// parse, its error included.
pub proof fn lemma_encode_decode_round_trip(p: Seq<u8>)
    requires
        p.len() <= 255,
    ensures
        (match spec_parse_payload(p) {
            Ok(f) => spec_decode(spec_frame(p)).0 == Result::<Option<Feedback>, DecodeError>::Ok(
                Some(f),
            ) && spec_decode(spec_frame(p)).1 == Seq::<u8>::empty(),
            Err(e) => spec_decode(spec_frame(p)).0 == Result::<Option<Feedback>, DecodeError>::Err(
                e,
            ) && spec_decode(spec_frame(p)).1 == spec_frame(p),
        }),
{
    let w = spec_frame(p);
    assert(w[0] == HEADER_0);
    assert(w[1] == HEADER_1);
    assert(spec_find_header(w) == Some(0int));
    let s = w.skip(0);
    assert(s =~= w);
    let len = s[2] as int;
    assert(s[2] == p.len() as u8);
    assert(s.len() == 4 + len);
    assert(s.subrange(2, 3 + len) =~= seq![p.len() as u8] + p);
    assert(s[3 + len] == spec_frame_checksum(p));
    assert(s.subrange(3, 3 + len) =~= p);
    match spec_parse_payload(p) {
        Ok(f) => {
            assert(s.skip(4 + len) =~= Seq::<u8>::empty());
        },
        Err(e) => {},
    }
}

/// No cross-talk between sub-payloads: after a successful parse, each
/// field of the feedback aggregate is present exactly when its id appears
/// in the payload.
proof fn lemma_payload_fields_rec(p: Seq<u8>, acc: Feedback)
    requires
        spec_parse_payload_rec(p, acc) is Ok,
    ensures
        ({
            let f = spec_parse_payload_rec(p, acc)->Ok_0;
            &&& (f.basic_sensor_data is Some <==> (acc.basic_sensor_data is Some
                || spec_payload_has_id(p, 1)))
            &&& (f.docking_ir is Some <==> (acc.docking_ir is Some || spec_payload_has_id(p, 3)))
            &&& (f.inertial_sensor is Some <==> (acc.inertial_sensor is Some
                || spec_payload_has_id(p, 4)))
        }),
    decreases p.len(),
{
    if p.len() == 0 {
    } else if p.len() == 1 {
    } else if 2 + (p[1] as int) > p.len() {
    } else {
        let step = match crate::feedback::spec_feedback_id(p[0]) {
            None => Result::<Feedback, DecodeError>::Ok(acc),
            Some(id) => crate::feedback::spec_add_subpayload(
                acc,
                id,
                p.subrange(2, 2 + p[1] as int),
            ),
        };
        match step {
            Err(e) => {},
            Ok(acc2) => {
                lemma_payload_fields_rec(p.skip(2 + p[1] as int), acc2);
            },
        }
    }
}

/// Each feedback field is present exactly when its sub-payload id appears
/// in the decoded payload: ids never fill one another's fields.
pub proof fn lemma_no_cross_talk(p: Seq<u8>)
    requires
        spec_parse_payload(p) is Ok,
    ensures
        ({
            let f = spec_parse_payload(p)->Ok_0;
            &&& (f.basic_sensor_data is Some <==> spec_payload_has_id(p, 1))
            &&& (f.docking_ir is Some <==> spec_payload_has_id(p, 3))
            &&& (f.inertial_sensor is Some <==> spec_payload_has_id(p, 4))
        }),
{
    lemma_payload_fields_rec(p, crate::feedback::feedback_empty());
}

} // verus!
