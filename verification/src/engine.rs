//! What the engine hands back, as plain values.
//!
//! The engine answers with sized buffers and, where it can fail, with a
//! result that carries either a buffer or a message. The sessions take these
//! values as arguments and never reach into the engine themselves.

use vstd::prelude::*;
use crate::error::Error;

verus! {

/// A run of bytes that the engine handed over. Its size is the length of
/// `data`.
#[allow(non_camel_case_types)]
#[derive(Debug)]
pub struct LazPerf_SizedBuffer {
    pub data: Vec<u8>,
}

/// A failure as the engine reports it: a message and nothing else.
#[allow(non_camel_case_types)]
#[derive(Debug)]
pub struct LazPerf_Error {
    pub error_msg: String,
}

/// The two things a result of the engine may hold.
#[derive(Debug)]
pub enum Content {
    /// The failure that the engine reports.
    Error(LazPerf_Error),
    /// The points that the engine decoded.
    PointsBuffer(LazPerf_SizedBuffer),
}

/// The engine's answer to a request for decoded points: a flag and, going by
/// the flag, a message or the points.
#[allow(non_camel_case_types)]
#[derive(Debug)]
pub struct LazPerf_BufferResult {
    /// 1 where the engine failed.
    pub is_error: i32,
    /// What the engine handed back.
    pub content: Content,
}

impl LazPerf_BufferResult {
    /// The points that the result holds, if it holds any: the flag must not
    /// say failure and the content must be a buffer.
    pub open spec fn points(self) -> Option<Seq<u8>> {
        match self.content {
            Content::PointsBuffer(buffer) if self.is_error != 1 => Some(buffer.data@),
            _ => None,
        }
    }

    /// Whether the engine flags this result as a failure: the flag is 1.
    pub fn is_error(&self) -> (failed: bool)
        ensures
            failed == (self.is_error == 1),
    {
        self.is_error == 1
    }

    /// Takes the points out of the result, or says that decoding failed.
    pub fn into_points(self) -> (r: Result<Vec<u8>, Error>)
        ensures
            match r {
                Ok(data) => self.points() == Some(data@),
                Err(e) => e == Error::DecompressionFailed && self.points().is_none(),
            },
    {
        if self.is_error() {
            return Err(Error::DecompressionFailed);
        }
        match self.content {
            Content::PointsBuffer(buffer) => Ok(buffer.data),
            Content::Error(_) => Err(Error::DecompressionFailed),
        }
    }
}

} // verus!
