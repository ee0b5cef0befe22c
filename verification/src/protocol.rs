//! The frame encoder: zero or more outgoing commands accumulated in call
//! order, rendered as one checksummed frame.

use vstd::prelude::*;

use crate::wire::{xor_fold, HEADER_0, HEADER_1};

verus! {

/// Outbound command ids.
#[derive(Clone, Copy, Debug, PartialEq, Eq, Structural)]
pub enum CommandIds {
    BaseControl,
    Sound,
    SoundSequence,
    RequestExtra,
    GeneralPurposeOutput,
    SetControllerGain,
    GetControllerGain,
}

/// The wire byte of an outbound command id.
pub open spec fn spec_command_id_byte(id: CommandIds) -> u8 {
    match id {
        CommandIds::BaseControl => 1,
        CommandIds::Sound => 3,
        CommandIds::SoundSequence => 4,
        CommandIds::RequestExtra => 9,
        CommandIds::GeneralPurposeOutput => 12,
        CommandIds::SetControllerGain => 13,
        CommandIds::GetControllerGain => 14,
    }
}

impl CommandIds {
    /// The id's wire byte.
    pub fn as_byte(&self) -> (r: u8)
        ensures
            r == spec_command_id_byte(*self),
    {
        match self {
            CommandIds::BaseControl => 1,
            CommandIds::Sound => 3,
            CommandIds::SoundSequence => 4,
            CommandIds::RequestExtra => 9,
            CommandIds::GeneralPurposeOutput => 12,
            CommandIds::SetControllerGain => 13,
            CommandIds::GetControllerGain => 14,
        }
    }
}

/// An outgoing command: something that renders itself as one tagged
/// `[id, sub_len, data ..]` sub-payload.
pub trait ToSubPayload {
    /// The exact bytes the command renders to.
    spec fn subpayload_spec(&self) -> Seq<u8>;

    /// Renders the command as its tagged byte encoding.
    fn to_subpayload(&self) -> (r: Vec<u8>)
        ensures
            r@ == self.subpayload_spec(),
    ;
}

/// The checksum a frame with payload `p` carries: the XOR of the length
/// byte and every payload byte.
pub open spec fn spec_frame_checksum(p: Seq<u8>) -> u8 {
    xor_fold(seq![p.len() as u8] + p)
}

/// The whole frame around payload `p`: header, length, payload, checksum.
pub open spec fn spec_frame(p: Seq<u8>) -> Seq<u8> {
    seq![HEADER_0, HEADER_1, p.len() as u8] + p + seq![spec_frame_checksum(p)]
}

/// Builder for one outgoing frame; sub-payloads render in the order they
/// were added, and the builder is consumed when the frame is rendered.
pub struct ByteStream {
    pub payload: Vec<u8>,
}

impl ByteStream {
    /// An empty frame builder.
    pub fn builder() -> (r: Self)
        ensures
            r.payload@ == Seq::<u8>::empty(),
    {
        ByteStream { payload: Vec::new() }
    }

    /// Appends one command's sub-payload encoding.
    pub fn subpayload<T: ToSubPayload>(self, subpayload: Box<T>) -> (r: Self)
        ensures
            r.payload@ == self.payload@ + (*subpayload).subpayload_spec(),
    {
        let mut payload = self.payload;
        let mut bytes = subpayload.to_subpayload();
        payload.append(&mut bytes);
        ByteStream { payload }
    }

    /// Renders the frame: header, length byte, payload, XOR checksum.  The
    /// payload must fit a single length byte; exceeding 255 bytes is a
    /// caller error.
    pub fn to_bytes(self) -> (r: Vec<u8>)
        requires
            self.payload@.len() <= 255,
        ensures
            r@ == spec_frame(self.payload@),
    {
        let ghost p = self.payload@;
        let len = self.payload.len() as u8;

        let mut bytes: Vec<u8> = Vec::new();
        bytes.push(HEADER_0);
        bytes.push(HEADER_1);
        bytes.push(len);
        let mut payload = self.payload;
        bytes.append(&mut payload);
        proof {
            assert(bytes@.skip(2) =~= seq![len] + p);
        }
        let cs = Self::checksum(bytes.as_slice());
        bytes.push(cs);
        proof {
            assert(bytes@ =~= spec_frame(p));
        }
        bytes
    }

    /// XOR of every byte of `frame` from index 2 on: the checksum of a
    /// frame whose first two bytes are the header.
    pub fn checksum(frame: &[u8]) -> (r: u8)
        requires
            frame@.len() >= 2,
        ensures
            r == xor_fold(frame@.skip(2)),
    {
        let ghost tail = frame@.skip(2);
        let mut cs: u8 = 0;
        let mut i: usize = 2;
        while i < frame.len()
            invariant
                2 <= i <= frame@.len(),
                tail == frame@.skip(2),
                cs == xor_fold(tail.take(i - 2)),
            decreases frame@.len() - i,
        {
            proof {
                assert(tail.take(i - 2 + 1).drop_last() =~= tail.take(i - 2));
                assert(tail.take(i - 2 + 1).last() == frame@[i as int]);
            }
            cs = cs ^ frame[i];
            i = i + 1;
        }
        proof {
            assert(tail.take(frame@.len() - 2) =~= tail);
        }
        cs
    }
}

} // verus!
