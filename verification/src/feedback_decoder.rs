//! The incremental frame decoder.
//!
//! A frame on the wire is `[0xAA, 0x55, len, payload .., checksum]` with the
//! checksum the XOR of the length byte and every payload byte, and the
//! payload a run of `[id, sub_len, data ..]` sub-payloads.  The decoder is
//! resumable: it consumes exactly the bytes it resolves and leaves the rest
//! buffered for the next call.

use vstd::prelude::*;

use crate::buffer::{buf_advance, buf_bytes, buf_clear, buf_get, buf_len, buf_slice_to_vec};
use crate::error::DecodeError;
use crate::feedback::{feedback_empty, spec_add_subpayload, spec_feedback_id, Feedback, FeedbackId};
use crate::wire::{xor_fold, HEADER_0, HEADER_1};

verus! {

/// The two-byte header sequence starts at index `i` of `b`.
pub open spec fn header_at(b: Seq<u8>, i: int) -> bool {
    0 <= i && i + 1 < b.len() && b[i] == HEADER_0 && b[i + 1] == HEADER_1
}

/// The first index at which the header sequence starts, if any.
pub open spec fn spec_find_header(b: Seq<u8>) -> Option<int>
    decreases b.len(),
{
    if b.len() < 2 {
        None
    } else if b[0] == HEADER_0 && b[1] == HEADER_1 {
        Some(0)
    } else {
        match spec_find_header(b.skip(1)) {
            None => None,
            Some(i) => Some(i + 1),
        }
    }
}

/// `spec_find_header` finds a header position, and the least one; when it
/// finds none, there is none.
pub proof fn lemma_find_header_spec(b: Seq<u8>)
    ensures
        match spec_find_header(b) {
            Some(i) => header_at(b, i) && (forall|j: int| 0 <= j < i ==> !header_at(b, j)),
            None => forall|j: int| !header_at(b, j),
        },
    decreases b.len(),
{
    if b.len() < 2 {
    } else if b[0] == HEADER_0 && b[1] == HEADER_1 {
    } else {
        lemma_find_header_spec(b.skip(1));
        let t = b.skip(1);
        assert forall|j: int| header_at(b, j) implies j >= 1 && header_at(t, j - 1) by {
            assert(t[j - 1] == b[j]);
            assert(t[j] == b[j + 1]);
        }
        match spec_find_header(t) {
            None => {
                assert forall|j: int| !header_at(b, j) by {
                    if header_at(b, j) {
                        assert(header_at(t, j - 1));
                    }
                }
            },
            Some(i) => {
                assert(t[i] == b[i + 1]);
                assert(t[i + 1] == b[i + 2]);
                assert(header_at(b, i + 1));
                assert forall|j: int| 0 <= j < i + 1 implies !header_at(b, j) by {
                    if header_at(b, j) {
                        assert(j >= 1 && header_at(t, j - 1));
                    }
                }
            },
        }
    }
}

/// A header position that nothing precedes is the one `spec_find_header`
/// finds.
pub proof fn lemma_find_header_unique(b: Seq<u8>, i: int)
    requires
        header_at(b, i),
        forall|j: int| 0 <= j < i ==> !header_at(b, j),
    ensures
        spec_find_header(b) == Some(i),
{
    lemma_find_header_spec(b);
    match spec_find_header(b) {
        None => {
            assert(header_at(b, i));
        },
        Some(k) => {
            if k < i {
                assert(!header_at(b, k));
            }
            if i < k {
                assert(!header_at(b, i));
            }
        },
    }
}

/// What walking a payload from the aggregate `acc` yields: each
/// `[id, sub_len, data ..]` sub-payload merged in order, a malformed
/// sub-payload or record error otherwise.
pub open spec fn spec_parse_payload_rec(p: Seq<u8>, acc: Feedback) -> Result<
    Feedback,
    DecodeError,
>
    decreases p.len(),
{
    if p.len() == 0 {
        Ok(acc)
    } else if p.len() == 1 {
        Err(DecodeError::SubPayloadOverrun)
    } else if 2 + (p[1] as int) > p.len() {
        Err(DecodeError::SubPayloadOverrun)
    } else {
        let step = match spec_feedback_id(p[0]) {
            None => Ok(acc),
            Some(id) => spec_add_subpayload(acc, id, p.subrange(2, 2 + p[1] as int)),
        };
        match step {
            Err(e) => Err(e),
            Ok(acc2) => spec_parse_payload_rec(p.skip(2 + p[1] as int), acc2),
        }
    }
}

/// What walking a whole payload yields, starting from the empty aggregate.
pub open spec fn spec_parse_payload(p: Seq<u8>) -> Result<Feedback, DecodeError> {
    spec_parse_payload_rec(p, feedback_empty())
}

/// A sub-payload tagged `id` stands somewhere in the payload's walk.
pub open spec fn spec_payload_has_id(p: Seq<u8>, id: u8) -> bool
    decreases p.len(),
{
    if p.len() < 2 {
        false
    } else if 2 + (p[1] as int) > p.len() {
        false
    } else {
        p[0] == id || spec_payload_has_id(p.skip(2 + p[1] as int), id)
    }
}

/// What one decode call yields on a buffer holding `b`: the call's result,
/// and the bytes left buffered afterwards.
///
/// With no header anywhere, the buffer is all noise and is discarded.  With
/// a header found, the bytes before it are dropped; an incomplete frame is
/// left for the next call; a checksum mismatch drops the malformed frame's
/// whole span, its shape being known by then; a malformed payload leaves
/// the frame buffered, the session owning the error; a decoded frame is
/// consumed exactly.
pub open spec fn spec_decode(b: Seq<u8>) -> (Result<Option<Feedback>, DecodeError>, Seq<u8>) {
    match spec_find_header(b) {
        None => (Ok(None), Seq::empty()),
        Some(h) => {
            let s = b.skip(h);
            if s.len() < 3 {
                (Ok(None), s)
            } else {
                let len = s[2] as int;
                if s.len() < 4 + len {
                    (Ok(None), s)
                } else {
                    let expected = xor_fold(s.subrange(2, 3 + len));
                    if s[3 + len] != expected {
                        (
                            Err(DecodeError::ChecksumMismatch { got: s[3 + len], expected }),
                            s.skip(4 + len),
                        )
                    } else {
                        match spec_parse_payload(s.subrange(3, 3 + len)) {
                            Err(e) => (Err(e), s),
                            Ok(f) => (Ok(Some(f)), s.skip(4 + len)),
                        }
                    }
                }
            }
        },
    }
}

/// What one end-of-stream decode call yields: a buffered complete frame is
/// still flushed; after that, leftover bytes mean the stream ended inside a
/// frame.
pub open spec fn spec_decode_eof(b: Seq<u8>) -> (Result<Option<Feedback>, DecodeError>, Seq<u8>) {
    let (r, rem) = spec_decode(b);
    if r == Result::<Option<Feedback>, DecodeError>::Ok(None) && rem.len() != 0 {
        (Err(DecodeError::TrailingBytes), rem)
    } else {
        (r, rem)
    }
}

/// The incremental, resumable frame decoder.  It holds no state of its own:
/// all state lives in the byte buffer handed to each call.
pub struct FeedbackDecoder;

impl FeedbackDecoder {
    /// Resolves at most one frame out of the front of `src`.
    ///
    /// Returns `Ok(Some(feedback))` for a complete, checksum-verified frame,
    /// whose bytes are consumed; `Ok(None)` when more bytes are needed; an
    /// error for a corrupt frame.  Callable again after any outcome.
    #[verifier::loop_isolation(false)]
    pub fn decode(&mut self, src: &mut bytes::BytesMut) -> (r: Result<
        Option<Feedback>,
        DecodeError,
    >)
        ensures
            r == spec_decode(buf_bytes(*old(src))).0,
            buf_bytes(*final(src)) == spec_decode(buf_bytes(*old(src))).1,
    {
        let ghost b0 = buf_bytes(*src);
        let n = buf_len(src);

        if n < 2 {
            // Too short to hold a header: the buffer is noise.
            proof {
                lemma_find_header_spec(b0);
            }
            buf_clear(src);
            return Ok(None);
        }

        // Scan for the header, front to back.
        let last = n - 1;
        let mut i: usize = 0;
        while i < last && !(buf_get(src, i) == HEADER_0 && buf_get(src, i + 1) == HEADER_1)
            invariant
                i <= last,
                forall|j: int| 0 <= j < i ==> !header_at(b0, j),
            decreases last - i,
        {
            assert(!header_at(b0, i as int));
            i = i + 1;
        }

        if i >= last {
            // No header anywhere: the buffer is noise.
            proof {
                assert forall|j: int| !header_at(b0, j) by {
                    if header_at(b0, j) {
                        assert(0 <= j < i);
                    }
                }
                lemma_find_header_spec(b0);
            }
            buf_clear(src);
            return Ok(None);
        }

        proof {
            lemma_find_header_unique(b0, i as int);
        }
        // Drop the garbage run before the header.
        buf_advance(src, i);
        let ghost s = b0.skip(i as int);

        let avail = buf_len(src);
        if avail < 3 {
            // Header alone: not enough data to read the length marker.
            return Ok(None);
        }

        let length = buf_get(src, 2) as usize;
        if avail < 4 + length {
            // The frame is not complete yet.
            return Ok(None);
        }
        let checksum_index = 3 + length;

        // Verify the checksum before interpreting any sub-payload.
        let got = buf_get(src, checksum_index);
        let mut cs: u8 = 0;
        let mut k: usize = 2;
        while k < checksum_index
            invariant
                buf_bytes(*src) == s,
                s.len() == avail >= 4 + length,
                checksum_index == 3 + length,
                2 <= k <= checksum_index,
                cs == xor_fold(s.subrange(2, k as int)),
            decreases checksum_index - k,
        {
            proof {
                assert(s.subrange(2, k + 1).drop_last() =~= s.subrange(2, k as int));
                assert(s.subrange(2, k + 1).last() == s[k as int]);
            }
            cs = cs ^ buf_get(src, k);
            k = k + 1;
        }
        if got != cs {
            buf_advance(src, 4 + length);
            return Err(DecodeError::ChecksumMismatch { got, expected: cs });
        }

        // Walk the sub-payloads.
        let ghost payload = s.subrange(3, checksum_index as int);
        let mut feedback = Feedback::new();
        proof {
            assert(payload.skip(0) =~= payload);
        }
        let mut idx: usize = 3;
        while idx < checksum_index
            invariant
                buf_bytes(*src) == s,
                s.len() == avail >= 4 + length,
                checksum_index == 3 + length,
                payload == s.subrange(3, checksum_index as int),
                3 <= idx <= checksum_index,
                spec_parse_payload(payload) == spec_parse_payload_rec(
                    payload.skip(idx - 3),
                    feedback,
                ),
            decreases checksum_index - idx,
        {
            let ghost p = payload.skip(idx - 3);
            assert(p.len() == checksum_index - idx);
            assert(p[0] == s[idx as int]);
            let id_byte = buf_get(src, idx);
            if idx + 1 == checksum_index {
                // A lone id byte with no room for its length marker.
                assert(p.len() == 1);
                return Err(DecodeError::SubPayloadOverrun);
            }
            assert(p[1] == s[idx + 1]);
            let sub_length = buf_get(src, idx + 1) as usize;
            let next_idx = idx + 2 + sub_length;
            if next_idx > checksum_index {
                assert(2 + (p[1] as int) > p.len());
                return Err(DecodeError::SubPayloadOverrun);
            }
            let data = buf_slice_to_vec(src, idx + 2, next_idx);
            proof {
                assert(data@ =~= p.subrange(2, 2 + p[1] as int));
            }
            match FeedbackId::from_byte(id_byte) {
                None => {},
                Some(id) => {
                    match feedback.add_subpayload(id, data.as_slice()) {
                        Ok(()) => {},
                        Err(e) => {
                            return Err(e);
                        },
                    }
                },
            }
            proof {
                assert(payload.skip(idx - 3).skip(2 + p[1] as int) =~= payload.skip(
                    next_idx - 3,
                ));
            }
            idx = next_idx;
        }
        proof {
            assert(payload.skip(checksum_index - 3) =~= Seq::<u8>::empty());
        }

        // Consume the whole frame: header, length, payload and checksum.
        buf_advance(src, 4 + length);
        Ok(Some(feedback))
    }

    /// One last decode once the transport has closed: flushes a buffered
    /// complete frame; leftover bytes after that mean the stream ended
    /// inside a frame.
    pub fn decode_eof(&mut self, src: &mut bytes::BytesMut) -> (r: Result<
        Option<Feedback>,
        DecodeError,
    >)
        ensures
            r == spec_decode_eof(buf_bytes(*old(src))).0,
            buf_bytes(*final(src)) == spec_decode_eof(buf_bytes(*old(src))).1,
    {
        match self.decode(src) {
            Ok(None) => {
                if buf_len(src) != 0 {
                    Err(DecodeError::TrailingBytes)
                } else {
                    Ok(None)
                }
            },
            r => r,
        }
    }
}

} // verus!
