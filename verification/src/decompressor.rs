//! The decompressor session, and decoding in bulk.

use vstd::prelude::*;
use vstd::slice::slice_to_vec;
use crate::engine::Content;
use crate::engine::LazPerf_BufferResult;
use crate::error::Error;

verus! {

/// What a decompressor session holds, as mathematics.
#[verifier::ext_equal]
pub struct DecompressorView {
    /// The compressed stream that the session is bound to.
    pub compressed_points: Seq<u8>,
    /// The size in bytes of one point record.
    pub point_size: nat,
    /// The codec parameters that the stream was made with.
    pub laszip_vlr_data: Seq<u8>,
}

/// A decompressor session bound to one compressed stream.
#[derive(Debug)]
pub struct VlrDecompressor {
    compressed_points: Vec<u8>,
    point_size: usize,
    laszip_vlr_data: Vec<u8>,
}

impl View for VlrDecompressor {
    type V = DecompressorView;

    closed spec fn view(&self) -> DecompressorView {
        DecompressorView {
            compressed_points: self.compressed_points@,
            point_size: self.point_size as nat,
            laszip_vlr_data: self.laszip_vlr_data@,
        }
    }
}

/// What a buffer of `out_len` bytes holds after the engine answered with
/// `decoded` to a request for the next record, in a session of the given
/// point size; or why the buffer is left alone.
pub open spec fn one_outcome(point_size: nat, out_len: nat, decoded: LazPerf_BufferResult)
    -> Result<Seq<u8>, Error> {
    if out_len != point_size {
        Err(Error::PointSizeMismatch)
    } else {
        match decoded.points() {
            Some(record) if record.len() == point_size => Ok(record),
            _ => Err(Error::DecompressionFailed),
        }
    }
}

/// What decoding `num_points` records of `point_size` bytes in bulk gives,
/// when the engine answered with `decoded`.
pub open spec fn bulk_outcome(num_points: nat, point_size: nat, decoded: LazPerf_BufferResult)
    -> Result<Seq<u8>, Error> {
    match decoded.points() {
        Some(points) if points.len() == num_points * point_size => Ok(points),
        _ => Err(Error::DecompressionFailed),
    }
}

impl VlrDecompressor {
    /// Binds a session to a compressed stream, a point size and the codec
    /// parameters that the stream was made with. The session keeps its own
    /// copy of both byte regions. Nothing is decoded yet.
    pub fn new(compressed_points: &[u8], point_size: usize, laszip_vlr_data: &[u8]) -> (session:
        Self)
        ensures
            session@ == (DecompressorView {
                compressed_points: compressed_points@,
                point_size: point_size as nat,
                laszip_vlr_data: laszip_vlr_data@,
            }),
    {
        VlrDecompressor {
            compressed_points: slice_to_vec(compressed_points),
            point_size,
            laszip_vlr_data: slice_to_vec(laszip_vlr_data),
        }
    }

    /// The compressed stream that the session is bound to.
    pub fn compressed_points(&self) -> (bytes: &[u8])
        ensures
            bytes@ == self@.compressed_points,
    {
        self.compressed_points.as_slice()
    }

    /// The size in bytes of one point record.
    pub fn point_size(&self) -> (size: usize)
        ensures
            size == self@.point_size,
    {
        self.point_size
    }

    /// The codec parameters that the stream was made with.
    pub fn laszip_vlr_data(&self) -> (bytes: &[u8])
        ensures
            bytes@ == self@.laszip_vlr_data,
    {
        self.laszip_vlr_data.as_slice()
    }

    /// Says whether the engine may be asked to decode the next record for
    /// `out`: the buffer must have the point size.
    pub fn check_decompress_one_to(&self, out: &[u8]) -> (r: Result<(), Error>)
        ensures
            r == if out@.len() == self@.point_size {
                Ok::<(), Error>(())
            } else {
                Err::<(), Error>(Error::PointSizeMismatch)
            },
    {
        if out.len() == self.point_size {
            Ok(())
        } else {
            Err(Error::PointSizeMismatch)
        }
    }

    /// Hands over the next record: `decoded` is the engine's answer to a
    /// request for it, and `out` holds exactly the record afterwards. A
    /// buffer of another size than the point size is refused. Decoding has
    /// failed when the engine said so or handed back a record of another
    /// size. Either way `out` is then left as it was.
    pub fn decompress_one_to(&self, out: &mut [u8], decoded: &LazPerf_BufferResult) -> (r: Result<
        (),
        Error,
    >)
        ensures
            match one_outcome(self@.point_size, old(out)@.len(), *decoded) {
                Ok(record) => r == Ok::<(), Error>(()) && final(out)@ == record,
                Err(e) => r == Err::<(), Error>(e) && final(out)@ == old(out)@,
            },
    {
        if out.len() != self.point_size {
            return Err(Error::PointSizeMismatch);
        }
        if decoded.is_error() {
            return Err(Error::DecompressionFailed);
        }
        let record: &Vec<u8> = match &decoded.content {
            Content::PointsBuffer(buffer) => &buffer.data,
            Content::Error(_) => {
                return Err(Error::DecompressionFailed);
            },
        };
        if record.len() != self.point_size {
            return Err(Error::DecompressionFailed);
        }
        let n: usize = self.point_size;
        let mut i: usize = 0;
        while i < n
            invariant
                i <= n,
                out@.len() == n,
                record@.len() == n,
                forall|j: int| 0 <= j < i ==> out@[j] == record@[j],
            decreases n - i,
        {
            out[i] = record[i];
            i = i + 1;
        }
        assert(out@ =~= record@);
        Ok(())
    }

    /// The size in bytes of `num_points` records of `point_size` bytes: the
    /// size of the buffer that a bulk decode fills. Fails where no buffer
    /// can be that large.
    pub fn output_size(num_points: usize, point_size: usize) -> (r: Result<usize, Error>)
        ensures
            match r {
                Ok(size) => size == num_points * point_size,
                Err(e) => e == Error::DecompressionFailed && num_points * point_size > usize::MAX,
            },
    {
        match num_points.checked_mul(point_size) {
            Some(size) => Ok(size),
            None => Err(Error::DecompressionFailed),
        }
    }

    /// Decodes in bulk: `decoded` is the engine's answer to a request for
    /// `num_points` records of `point_size` bytes. Returns the records, all
    /// of them and nothing else, or says that decoding failed: when the
    /// engine said so, or handed back another number of bytes than
    /// `num_points * point_size`.
    pub fn decompress_points(num_points: usize, point_size: usize, decoded: LazPerf_BufferResult)
        -> (r: Result<Vec<u8>, Error>)
        ensures
            match bulk_outcome(num_points as nat, point_size as nat, decoded) {
                Ok(points) => r matches Ok(buffer) && buffer@ == points,
                Err(e) => r == Err::<Vec<u8>, Error>(e),
            },
    {
        let size: usize = match Self::output_size(num_points, point_size) {
            Ok(size) => size,
            Err(e) => {
                proof {
                    if let Content::PointsBuffer(buffer) = decoded.content {
                        assert(buffer.data@.len() == buffer.data.len());
                    }
                }
                return Err(e);
            },
        };
        match decoded.into_points() {
            Ok(points) => {
                if points.len() == size {
                    Ok(points)
                } else {
                    Err(Error::DecompressionFailed)
                }
            },
            Err(e) => Err(e),
        }
    }
}

/// Records of one size, put end to end, take as many bytes as their number
/// times that size.
pub proof fn lemma_flatten_len(point_size: nat, records: Seq<Seq<u8>>)
    requires
        forall|i: int| 0 <= i < records.len() ==> (#[trigger] records[i]).len() == point_size,
    ensures
        records.flatten().len() == records.len() * point_size,
    decreases records.len(),
{
    if records.len() > 0 {
        let rest = records.drop_first();
        assert forall|i: int| 0 <= i < rest.len() implies (#[trigger] rest[i]).len()
            == point_size by {
            assert(rest[i] == records[i + 1]);
        }
        lemma_flatten_len(point_size, rest);
        assert(records.len() * point_size == point_size + rest.len() * point_size)
            by (nonlinear_arith)
            requires
                records.len() == rest.len() + 1,
        ;
    }
}

/// Decoding record by record and decoding in bulk give the same bytes.
/// When the engine answers the requests for single records with `singles`,
/// which hold `records` in turn, each of the point size, then
/// `decompress_one_to` fills a buffer with each of them; when it answers the
/// request for all of them with the same records end to end,
/// `decompress_points` returns exactly those buffers put end to end.
pub proof fn lemma_streaming_equals_bulk(
    point_size: nat,
    records: Seq<Seq<u8>>,
    singles: Seq<LazPerf_BufferResult>,
    bulk: LazPerf_BufferResult,
)
    requires
        forall|i: int| 0 <= i < records.len() ==> (#[trigger] records[i]).len() == point_size,
        singles.len() == records.len(),
        forall|i: int|
            0 <= i < records.len() ==> (#[trigger] singles[i]).points() == Some(records[i]),
        bulk.points() == Some(records.flatten()),
    ensures
        forall|i: int|
            0 <= i < records.len() ==> one_outcome(point_size, point_size, #[trigger] singles[i])
                == Ok::<Seq<u8>, Error>(records[i]),
        bulk_outcome(records.len(), point_size, bulk) == Ok::<Seq<u8>, Error>(records.flatten()),
{
    lemma_flatten_len(point_size, records);
    assert forall|i: int| 0 <= i < records.len() implies one_outcome(
        point_size,
        point_size,
        #[trigger] singles[i],
    ) == Ok::<Seq<u8>, Error>(records[i]) by {
        assert(records[i].len() == point_size);
    }
}

} // verus!
