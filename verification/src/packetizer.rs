//! The metadata packetizer on the raw capture path.
//!
//! For each video frame observed it synthesizes exactly one metadata record
//! stamped with that frame's presentation timestamp — the correlation key
//! the overlay relies on — and hands it to the metadata data path. Records
//! are emitted in frame order. If the downstream path refuses the push, the
//! loss is surfaced as an error, never silently dropped: a missing record
//! breaks the correlation invariant for its frame.

use crate::container::VideoFrame;
use crate::error::PipelineError;
use crate::store::MetadataRecord;
use crate::timestamp::Timestamp;
use vstd::prelude::*;

verus! {

/// The four bytes of a frame number, least significant byte first.
pub open spec fn le_bytes32(n: u32) -> Seq<u8> {
    seq![
        (n & 0xff) as u8,
        ((n >> 8) & 0xff) as u8,
        ((n >> 16) & 0xff) as u8,
        ((n >> 24) & 0xff) as u8,
    ]
}

/// Encodes a frame number as its four little-endian bytes.
pub fn encode_frame_number(n: u32) -> (v: Vec<u8>)
    ensures
        v@ == le_bytes32(n),
{
    proof {
        assert((n & 0xff) < 256 && ((n >> 8) & 0xff) < 256 && ((n >> 16) & 0xff) < 256 && ((n
            >> 24) & 0xff) < 256) by (bit_vector);
    }
    let mut v: Vec<u8> = Vec::new();
    v.push((n & 0xff) as u8);
    v.push(((n >> 8) & 0xff) as u8);
    v.push(((n >> 16) & 0xff) as u8);
    v.push(((n >> 24) & 0xff) as u8);
    proof {
        assert(v@ =~= le_bytes32(n));
    }
    v
}

/// Synthesizes the one metadata record for an observed video frame: the
/// payload encodes the frame's number, and the record's timestamp equals
/// the triggering frame's timestamp.
pub fn packetize(frame: &VideoFrame, frame_nr: u32) -> (r: MetadataRecord)
    ensures
        r.ts == frame.ts,
        r.payload@ == le_bytes32(frame_nr),
{
    MetadataRecord { ts: frame.ts, payload: encode_frame_number(frame_nr) }
}

/// What the downstream data path reported for one pushed record.
#[derive(Clone, Copy, PartialEq, Eq, Structural, Debug)]
pub enum PushOutcome {
    Delivered,
    Rejected,
}

/// Decides what the packetizer surfaces for one pushed record: `Ok`
/// exactly when the downstream path accepted it, else a
/// downstream-rejection error carrying the frame's timestamp.
pub fn confirm_delivery(frame_ts: Timestamp, outcome: PushOutcome) -> (r: Result<
    (),
    PipelineError,
>)
    ensures
        r is Ok <==> outcome == PushOutcome::Delivered,
        (match r {
            Ok(_) => outcome == PushOutcome::Delivered,
            Err(e) => outcome == PushOutcome::Rejected && (e matches
            PipelineError::DownstreamRejection { frame_ts: t } && t == frame_ts),
        }),
{
    match outcome {
        PushOutcome::Delivered => Ok(()),
        PushOutcome::Rejected => Err(PipelineError::DownstreamRejection { frame_ts }),
    }
}

} // verus!
