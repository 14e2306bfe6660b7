//! What the two sessions owe together, for any engine that decodes what it
//! has encoded.

use vstd::prelude::*;
use crate::compressor::drained;
use crate::compressor::lemma_drained_is_concatenation;
use crate::compressor::CompressorView;
use crate::decompressor::bulk_outcome;
use crate::decompressor::lemma_flatten_len;
use crate::engine::LazPerf_BufferResult;
use crate::error::Error;

verus! {

/// The sessions add nothing to a round trip and take nothing from it.
/// `decode` stands for the engine's decoder, with the codec parameters and
/// the number and size of the points fixed, and with whatever framing the
/// caller has to skip. A caller who drains after every emission holds all
/// that the engine emitted, end to end. If the engine, given that, hands
/// the `points` back, then `decompress_points` on the drained stream returns
/// the points byte for byte. That the engine does so is not shown here.
pub proof fn lemma_sessions_preserve_round_trip(
    s: CompressorView,
    emissions: Seq<Seq<u8>>,
    points: Seq<Seq<u8>>,
    point_size: nat,
    decode: spec_fn(Seq<u8>) -> LazPerf_BufferResult,
)
    requires
        s.buffer.len() == 0,
        forall|i: int| 0 <= i < points.len() ==> (#[trigger] points[i]).len() == point_size,
        decode(emissions.flatten()).points() == Some(points.flatten()),
    ensures
        bulk_outcome(points.len(), point_size, decode(drained(s, emissions))) == Ok::<
            Seq<u8>,
            Error,
        >(points.flatten()),
{
    lemma_drained_is_concatenation(s, emissions);
    lemma_flatten_len(point_size, points);
}

} // verus!
