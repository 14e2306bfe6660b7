//! The compressor session: two states, an output buffer that the caller
//! drains and resets, and the codec parameters that a decompressor will need.

use vstd::prelude::*;
use crate::engine::LazPerf_SizedBuffer;
use crate::error::Error;
use crate::schema::RecordSchema;
use crate::schema::total_size;

verus! {

/// Where a compressor session stands.
#[derive(Clone, Copy, Debug, PartialEq, Eq, Structural)]
pub enum CompressorState {
    /// Points are being submitted.
    Active,
    /// The end of the points has been signalled.
    Finalized,
}

/// What a compressor session holds, as mathematics.
#[verifier::ext_equal]
pub struct CompressorView {
    /// The size in bytes of one point record, fixed when the session was made.
    pub point_size: nat,
    /// Where the session stands.
    pub state: CompressorState,
    /// The bytes that the engine has emitted since the buffer was last reset.
    pub buffer: Seq<u8>,
    /// The codec parameters, as the engine gave them when the session was
    /// made. No call changes them.
    pub vlr_data: Seq<u8>,
}

impl CompressorView {
    /// The session that `VlrCompressor::new` makes.
    pub open spec fn fresh(point_size: nat, vlr_data: Seq<u8>) -> Self {
        CompressorView {
            point_size,
            state: CompressorState::Active,
            buffer: Seq::empty(),
            vlr_data,
        }
    }

    /// Why a point record of `len` bytes may not be handed to the engine
    /// now, if there is a reason.
    pub open spec fn refuses_point(self, len: nat) -> Option<Error> {
        if self.state != CompressorState::Active {
            Some(Error::AlreadyFinalized)
        } else if len != self.point_size {
            Some(Error::PointSizeMismatch)
        } else {
            None
        }
    }

    /// Why the end of the points may not be signalled now, if there is a
    /// reason.
    pub open spec fn refuses_done(self) -> Option<Error> {
        if self.state != CompressorState::Active {
            Some(Error::AlreadyFinalized)
        } else {
            None
        }
    }

    /// Why the chunk table may not be asked for now, if there is a reason.
    pub open spec fn refuses_chunk_table(self) -> Option<Error> {
        if self.state != CompressorState::Finalized {
            Some(Error::NotFinalized)
        } else {
            None
        }
    }

    /// The session after the engine has emitted `emitted`: the bytes stand
    /// behind those that were not yet reset away.
    pub open spec fn emit(self, emitted: Seq<u8>) -> Self {
        CompressorView { buffer: self.buffer + emitted, ..self }
    }

    /// The session after the end of the points was signalled and the engine
    /// has flushed `emitted`.
    pub open spec fn finalize(self, emitted: Seq<u8>) -> Self {
        CompressorView { state: CompressorState::Finalized, ..self.emit(emitted) }
    }

    /// The session after its buffer was reset.
    pub open spec fn reset(self) -> Self {
        CompressorView { buffer: Seq::empty(), ..self }
    }
}

/// Codec parameters as an engine gave them: never empty.
#[derive(Debug)]
struct VlrData {
    bytes: Vec<u8>,
}

impl VlrData {
    #[verifier::type_invariant]
    spec fn holds_bytes(self) -> bool {
        self.bytes@.len() > 0
    }
}

/// A compressor session bound to one schema.
#[derive(Debug)]
pub struct VlrCompressor {
    point_size: usize,
    state: CompressorState,
    buffer: Vec<u8>,
    vlr_data: VlrData,
}

impl View for VlrCompressor {
    type V = CompressorView;

    closed spec fn view(&self) -> CompressorView {
        CompressorView {
            point_size: self.point_size as nat,
            state: self.state,
            buffer: self.buffer@,
            vlr_data: self.vlr_data.bytes@,
        }
    }
}

/// What a check answers: the reason for a refusal as an error, or nothing.
pub open spec fn verdict(refusal: Option<Error>) -> Result<(), Error> {
    match refusal {
        Some(e) => Err(e),
        None => Ok(()),
    }
}

impl VlrCompressor {
    /// Binds a session to `record_schema`. `vlr_data` is what the engine
    /// gave as codec parameters when it was set up for the same schema; an
    /// engine that gave none has failed to set up. The session starts
    /// Active, with an empty buffer, and keeps the size of the schema as it
    /// is now.
    pub fn new(record_schema: &RecordSchema, vlr_data: LazPerf_SizedBuffer) -> (r: Result<
        Self,
        Error,
    >)
        ensures
            match r {
                Ok(session) => {
                    &&& vlr_data.data@.len() > 0
                    &&& session@ == CompressorView::fresh(
                        total_size(record_schema@),
                        vlr_data.data@,
                    )
                },
                Err(e) => e == Error::EngineInitFailed && vlr_data.data@.len() == 0,
            },
    {
        if vlr_data.data.len() == 0 {
            return Err(Error::EngineInitFailed);
        }
        let size: i32 = record_schema.size_in_bytes();
        Ok(
            VlrCompressor {
                point_size: size as usize,
                state: CompressorState::Active,
                buffer: Vec::new(),
                vlr_data: VlrData { bytes: vlr_data.data },
            },
        )
    }

    /// The size in bytes of one point record.
    pub fn point_size(&self) -> (size: usize)
        ensures
            size == self@.point_size,
    {
        self.point_size
    }

    /// Where the session stands.
    pub fn state(&self) -> (state: CompressorState)
        ensures
            state == self@.state,
    {
        self.state
    }

    /// Says whether the engine may be asked to encode `raw_point` now.
    pub fn check_compress_one(&self, raw_point: &[u8]) -> (r: Result<(), Error>)
        ensures
            r == verdict(self@.refuses_point(raw_point@.len())),
    {
        match self.state {
            CompressorState::Finalized => Err(Error::AlreadyFinalized),
            CompressorState::Active => {
                if raw_point.len() != self.point_size {
                    Err(Error::PointSizeMismatch)
                } else {
                    Ok(())
                }
            },
        }
    }

    /// Says whether the end of the points may be signalled to the engine
    /// now.
    pub fn check_done(&self) -> (r: Result<(), Error>)
        ensures
            r == verdict(self@.refuses_done()),
    {
        match self.state {
            CompressorState::Finalized => Err(Error::AlreadyFinalized),
            CompressorState::Active => Ok(()),
        }
    }

    /// Says whether the engine may be asked for the chunk table now.
    pub fn check_write_chunk_table(&self) -> (r: Result<(), Error>)
        ensures
            r == verdict(self@.refuses_chunk_table()),
    {
        match self.state {
            CompressorState::Active => Err(Error::NotFinalized),
            CompressorState::Finalized => Ok(()),
        }
    }

    /// Records that the engine has encoded `raw_point` and emitted
    /// `emitted`, which may be nothing at all. Returns the number of bytes
    /// that now wait in the buffer. A refused call leaves the session as it
    /// was.
    pub fn compress_one(&mut self, raw_point: &[u8], emitted: &[u8]) -> (r: Result<usize, Error>)
        ensures
            match old(self)@.refuses_point(raw_point@.len()) {
                Some(e) => r == Err::<usize, Error>(e) && *final(self) == *old(self),
                None => {
                    &&& final(self)@ == old(self)@.emit(emitted@)
                    &&& r == Ok::<usize, Error>(final(self)@.buffer.len() as usize)
                },
            },
    {
        match self.check_compress_one(raw_point) {
            Err(e) => Err(e),
            Ok(()) => {
                self.buffer.extend_from_slice(emitted);
                assert(self.buffer@ =~= old(self).buffer@ + emitted@);
                Ok(self.buffer.len())
            },
        }
    }

    /// Records that the end of the points was signalled and that the engine
    /// has flushed `emitted` and reported `total_points_size`. Returns what
    /// the engine reported. The session is Finalized afterwards. A refused
    /// call leaves the session as it was.
    pub fn done(&mut self, emitted: &[u8], total_points_size: usize) -> (r: Result<usize, Error>)
        ensures
            match old(self)@.refuses_done() {
                Some(e) => r == Err::<usize, Error>(e) && *final(self) == *old(self),
                None => {
                    &&& final(self)@ == old(self)@.finalize(emitted@)
                    &&& r == Ok::<usize, Error>(total_points_size)
                },
            },
    {
        match self.check_done() {
            Err(e) => Err(e),
            Ok(()) => {
                self.buffer.extend_from_slice(emitted);
                assert(self.buffer@ =~= old(self).buffer@ + emitted@);
                self.state = CompressorState::Finalized;
                Ok(total_points_size)
            },
        }
    }

    /// Records that the engine has encoded the chunk table as `emitted` and
    /// reported `table_size`. Returns what the engine reported. A refused
    /// call leaves the session as it was.
    pub fn write_chunk_table(&mut self, emitted: &[u8], table_size: usize) -> (r: Result<
        usize,
        Error,
    >)
        ensures
            match old(self)@.refuses_chunk_table() {
                Some(e) => r == Err::<usize, Error>(e) && *final(self) == *old(self),
                None => {
                    &&& final(self)@ == old(self)@.emit(emitted@)
                    &&& r == Ok::<usize, Error>(table_size)
                },
            },
    {
        match self.check_write_chunk_table() {
            Err(e) => Err(e),
            Ok(()) => {
                self.buffer.extend_from_slice(emitted);
                assert(self.buffer@ =~= old(self).buffer@ + emitted@);
                Ok(table_size)
            },
        }
    }

    /// Extracts nothing: returns 0 and leaves the session as it was.
    pub fn extract_data_to(&mut self) -> (extracted: usize)
        ensures
            extracted == 0,
            *final(self) == *old(self),
    {
        0
    }

    /// Resets the buffer to no bytes. Bytes that were not copied out before
    /// are gone. The storage behind the buffer is kept.
    pub fn reset_size(&mut self)
        ensures
            final(self)@ == old(self)@.reset(),
    {
        self.buffer.clear();
    }

    /// The bytes that wait in the buffer. Reading changes nothing: a second
    /// read with no other call in between sees the same bytes.
    pub fn internal_data(&self) -> (data: &[u8])
        ensures
            data@ == self@.buffer,
    {
        self.buffer.as_slice()
    }

    /// A copy of the codec parameters: the same at every call, and never
    /// empty.
    pub fn laszip_vlr_data(&self) -> (data: Vec<u8>)
        ensures
            data@ == self@.vlr_data,
            data@.len() > 0,
    {
        proof {
            use_type_invariant(&self.vlr_data);
        }
        self.vlr_data.bytes.clone()
    }
}

/// There is no way back from Finalized: whatever the engine emits and
/// however often the buffer is reset, the session stays Finalized, takes no
/// further point and no second end of the points, and lets the chunk table
/// be written.
pub proof fn lemma_finalized_is_final(s: CompressorView, emitted: Seq<u8>, len: nat)
    requires
        s.state == CompressorState::Finalized,
    ensures
        s.emit(emitted).state == CompressorState::Finalized,
        s.reset().state == CompressorState::Finalized,
        s.refuses_point(len) == Some(Error::AlreadyFinalized),
        s.refuses_done() == Some(Error::AlreadyFinalized),
        s.refuses_chunk_table().is_none(),
{
}

/// What a caller has copied out who, from session `s` on, reads the whole
/// buffer and resets it after each of `emissions`.
pub open spec fn drained(s: CompressorView, emissions: Seq<Seq<u8>>) -> Seq<u8>
    decreases emissions.len(),
{
    if emissions.len() == 0 {
        Seq::empty()
    } else {
        let after = s.emit(emissions.first());
        after.buffer + drained(after.reset(), emissions.drop_first())
    }
}

/// A reset leaves no bytes to read, whatever waited before, and touches
/// nothing else; what the engine emits next is then all that waits.
pub proof fn lemma_reset_leaves_nothing(s: CompressorView, emitted: Seq<u8>)
    ensures
        s.reset().buffer == Seq::<u8>::empty(),
        s.reset() == (CompressorView { buffer: Seq::empty(), ..s }),
        s.reset().emit(emitted).buffer == emitted,
{
    assert(s.reset().emit(emitted).buffer =~= emitted);
}

/// Draining after every emission loses nothing, repeats nothing and keeps
/// the order: from an empty buffer on, what the caller has copied out is
/// all that the engine emitted, in the order of the calls.
pub proof fn lemma_drained_is_concatenation(s: CompressorView, emissions: Seq<Seq<u8>>)
    requires
        s.buffer.len() == 0,
    ensures
        drained(s, emissions) == emissions.flatten(),
    decreases emissions.len(),
{
    if emissions.len() > 0 {
        let after = s.emit(emissions.first());
        lemma_drained_is_concatenation(after.reset(), emissions.drop_first());
        assert(after.buffer =~= emissions.first());
    }
}

} // verus!
