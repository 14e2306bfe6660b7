use lazperf::CompressorState;
use lazperf::Content;
use lazperf::Error;
use lazperf::LazPerf_BufferResult;
use lazperf::LazPerf_SizedBuffer;
use lazperf::RecordSchema;
use lazperf::VlrCompressor;
use lazperf::VlrDecompressor;

const POINT_SIZE: usize = 34;
const NUM_POINTS: usize = 1065;
const POINTS_PER_CHUNK: usize = 100;
const SIZEOF_CHUNKTABLE: usize = 8;

/// An engine for the tests. It keeps the points of a chunk back until the
/// chunk is full, emits them as they are, and writes the number of chunks as
/// its chunk table.
struct StoringEngine {
    point_size: usize,
    pending: Vec<u8>,
    points_in_chunk: usize,
    chunks: u64,
    total: usize,
}

impl StoringEngine {
    fn new(point_size: usize) -> Self {
        StoringEngine { point_size, pending: Vec::new(), points_in_chunk: 0, chunks: 0, total: 0 }
    }

    fn vlr_data(&self) -> LazPerf_SizedBuffer {
        let mut data: Vec<u8> = vec![2, 0, 0, 0, 2, 2, 0, 0];
        data.extend_from_slice(&(self.point_size as u32).to_le_bytes());
        LazPerf_SizedBuffer { data }
    }

    fn close_chunk(&mut self) -> Vec<u8> {
        self.points_in_chunk = 0;
        self.chunks += 1;
        self.total += self.pending.len();
        std::mem::take(&mut self.pending)
    }

    fn compress(&mut self, raw_point: &[u8]) -> Vec<u8> {
        self.pending.extend_from_slice(raw_point);
        self.points_in_chunk += 1;
        if self.points_in_chunk == POINTS_PER_CHUNK {
            self.close_chunk()
        } else {
            Vec::new()
        }
    }

    fn done(&mut self) -> (Vec<u8>, usize) {
        let emitted: Vec<u8> = if self.pending.is_empty() { Vec::new() } else { self.close_chunk() };
        (emitted, self.total)
    }

    fn write_chunk_table(&mut self) -> (Vec<u8>, usize) {
        (self.chunks.to_le_bytes().to_vec(), SIZEOF_CHUNKTABLE)
    }

    fn decode_one(compressed: &[u8], point_size: usize, index: usize) -> LazPerf_BufferResult {
        LazPerf_BufferResult {
            is_error: 0,
            content: Content::PointsBuffer(LazPerf_SizedBuffer {
                data: compressed[index * point_size..(index + 1) * point_size].to_vec(),
            }),
        }
    }

    fn decode_all(compressed: &[u8], point_size: usize, num_points: usize) -> LazPerf_BufferResult {
        let wanted: usize = num_points * point_size;
        if compressed.len() < wanted {
            return LazPerf_BufferResult {
                is_error: 1,
                content: Content::Error(lazperf::LazPerf_Error {
                    error_msg: "stream ends early".to_string(),
                }),
            };
        }
        LazPerf_BufferResult {
            is_error: 0,
            content: Content::PointsBuffer(LazPerf_SizedBuffer {
                data: compressed[..wanted].to_vec(),
            }),
        }
    }
}

fn reference_points() -> Vec<u8> {
    let mut points: Vec<u8> = Vec::with_capacity(NUM_POINTS * POINT_SIZE);
    let mut state: u32 = 0x2545_f491;
    for _ in 0..NUM_POINTS * POINT_SIZE {
        state = state.wrapping_mul(1_664_525).wrapping_add(1_013_904_223);
        points.push((state >> 24) as u8);
    }
    points
}

/// Compresses all of `points` the way a caller is meant to: a point at a
/// time, draining and resetting whenever bytes wait, then the end of the
/// points, then the chunk table. Returns the stream and the codec
/// parameters.
fn compress_all(points: &[u8]) -> (Vec<u8>, Vec<u8>) {
    let mut record_schema = RecordSchema::new();
    record_schema.push_point();
    record_schema.push_gpstime();
    record_schema.push_rgb();
    assert_eq!(record_schema.size_in_bytes(), POINT_SIZE as i32);

    let mut engine = StoringEngine::new(POINT_SIZE);
    let mut vlr_compressor = VlrCompressor::new(&record_schema, engine.vlr_data()).unwrap();

    let mut compression_output: Vec<u8> = Vec::with_capacity(points.len());
    for i in 0..points.len() / POINT_SIZE {
        let current_point = &points[i * POINT_SIZE..(i + 1) * POINT_SIZE];
        vlr_compressor.check_compress_one(current_point).unwrap();
        let emitted: Vec<u8> = engine.compress(current_point);
        let compressed_size: usize = vlr_compressor.compress_one(current_point, &emitted).unwrap();
        if compressed_size != 0 {
            compression_output.extend_from_slice(vlr_compressor.internal_data());
            vlr_compressor.reset_size();
        }
    }

    vlr_compressor.check_done().unwrap();
    let (emitted, total) = engine.done();
    assert_eq!(vlr_compressor.done(&emitted, total), Ok(points.len()));
    compression_output.extend_from_slice(vlr_compressor.internal_data());
    vlr_compressor.reset_size();

    vlr_compressor.check_write_chunk_table().unwrap();
    let (emitted, table_size) = engine.write_chunk_table();
    assert_eq!(vlr_compressor.write_chunk_table(&emitted, table_size), Ok(SIZEOF_CHUNKTABLE));
    compression_output.extend_from_slice(vlr_compressor.internal_data());
    vlr_compressor.reset_size();
    assert_eq!(vlr_compressor.state(), CompressorState::Finalized);

    (compression_output, vlr_compressor.laszip_vlr_data())
}

#[test]
fn stream_is_all_that_was_emitted_in_order() {
    let points: Vec<u8> = reference_points();
    let (stream, _) = compress_all(&points);
    assert_eq!(stream.len(), NUM_POINTS * POINT_SIZE + SIZEOF_CHUNKTABLE);
    assert_eq!(&stream[..points.len()], &points[..]);
    assert_eq!(&stream[points.len()..], &11u64.to_le_bytes()[..]);
}

#[test]
fn compress_then_decompress_in_bulk() {
    let raw_expected_decompressed_point: Vec<u8> = reference_points();
    let (stream, laszip_vlr_data) = compress_all(&raw_expected_decompressed_point);
    let raw_compressed_points = &stream[..stream.len() - SIZEOF_CHUNKTABLE];
    assert!(!laszip_vlr_data.is_empty());

    assert_eq!(VlrDecompressor::output_size(NUM_POINTS, POINT_SIZE), Ok(36210));
    let decoded = StoringEngine::decode_all(raw_compressed_points, POINT_SIZE, NUM_POINTS);
    let raw_decompressed_points =
        VlrDecompressor::decompress_points(NUM_POINTS, POINT_SIZE, decoded).unwrap();

    assert_eq!(raw_decompressed_points, raw_expected_decompressed_point);
}

#[test]
fn compress_then_decompress_point_by_point() {
    let raw_expected_decompressed_point: Vec<u8> = reference_points();
    let (stream, laszip_vlr_data) = compress_all(&raw_expected_decompressed_point);
    let raw_compressed_points = &stream[..stream.len() - SIZEOF_CHUNKTABLE];

    let decompressor = VlrDecompressor::new(raw_compressed_points, POINT_SIZE, &laszip_vlr_data);
    let mut raw_decompressed_points: Vec<u8> = Vec::with_capacity(POINT_SIZE * NUM_POINTS);
    let mut tmp_buffer = [0u8; POINT_SIZE];

    for i in 0..NUM_POINTS {
        decompressor.check_decompress_one_to(&tmp_buffer).unwrap();
        let decoded = StoringEngine::decode_one(
            decompressor.compressed_points(),
            decompressor.point_size(),
            i,
        );
        decompressor.decompress_one_to(&mut tmp_buffer, &decoded).unwrap();
        raw_decompressed_points.extend_from_slice(&tmp_buffer);
    }

    assert_eq!(raw_decompressed_points, raw_expected_decompressed_point);
}

#[test]
fn point_by_point_and_bulk_agree() {
    let points: Vec<u8> = reference_points();
    let (stream, laszip_vlr_data) = compress_all(&points);
    let compressed = &stream[..stream.len() - SIZEOF_CHUNKTABLE];

    let in_bulk = VlrDecompressor::decompress_points(
        NUM_POINTS,
        POINT_SIZE,
        StoringEngine::decode_all(compressed, POINT_SIZE, NUM_POINTS),
    )
    .unwrap();

    let decompressor = VlrDecompressor::new(compressed, POINT_SIZE, &laszip_vlr_data);
    let mut one_by_one: Vec<u8> = Vec::new();
    let mut out = [0u8; POINT_SIZE];
    for i in 0..NUM_POINTS {
        let decoded = StoringEngine::decode_one(compressed, POINT_SIZE, i);
        decompressor.decompress_one_to(&mut out, &decoded).unwrap();
        one_by_one.extend_from_slice(&out);
    }

    assert_eq!(one_by_one, in_bulk);
}

#[test]
fn bulk_decode_of_a_short_stream_fails() {
    let points: Vec<u8> = reference_points();
    let (stream, _) = compress_all(&points);
    let cut = &stream[..POINT_SIZE * 10];
    let decoded = StoringEngine::decode_all(cut, POINT_SIZE, NUM_POINTS);
    assert_eq!(
        VlrDecompressor::decompress_points(NUM_POINTS, POINT_SIZE, decoded),
        Err(Error::DecompressionFailed)
    );
}

#[test]
fn skipping_a_drain_loses_exactly_those_bytes() {
    let points: Vec<u8> = reference_points();
    let mut record_schema = RecordSchema::new();
    record_schema.push_point();
    record_schema.push_gpstime();
    record_schema.push_rgb();
    let mut engine = StoringEngine::new(POINT_SIZE);
    let mut vlr_compressor = VlrCompressor::new(&record_schema, engine.vlr_data()).unwrap();

    let mut collected: Vec<u8> = Vec::new();
    let mut emissions: usize = 0;
    for i in 0..NUM_POINTS {
        let current_point = &points[i * POINT_SIZE..(i + 1) * POINT_SIZE];
        let emitted: Vec<u8> = engine.compress(current_point);
        if vlr_compressor.compress_one(current_point, &emitted).unwrap() != 0 {
            emissions += 1;
            if emissions != 3 {
                collected.extend_from_slice(vlr_compressor.internal_data());
            }
            vlr_compressor.reset_size();
        }
    }
    let (emitted, total) = engine.done();
    vlr_compressor.done(&emitted, total).unwrap();
    collected.extend_from_slice(vlr_compressor.internal_data());

    let chunk: usize = POINTS_PER_CHUNK * POINT_SIZE;
    let mut expected: Vec<u8> = points[..2 * chunk].to_vec();
    expected.extend_from_slice(&points[3 * chunk..]);
    assert_eq!(collected, expected);
}
