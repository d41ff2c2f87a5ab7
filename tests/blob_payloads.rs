use std::io::Write;

use osm_to_parquet::blobs::{
    block_kind, check_decompressed, get_blob_data, read_osm_data, Blob, BlobData, BlobHeader,
    BlobPayload, BlockKind, DecodeError, OsmData,
};

fn sample() -> Vec<u8> {
    (0..5000u32).map(|i| (i * 7 % 251) as u8).collect()
}

fn compressed(payload: BlobPayload, size: usize) -> Blob {
    Blob { raw_size: Some(size as i32), data: Some(payload) }
}

#[test]
fn raw_payload_is_returned_as_is() {
    let blob = Blob { raw_size: None, data: Some(BlobPayload::Raw(vec![1, 2, 3])) };
    assert_eq!(get_blob_data(&blob), Ok(vec![1, 2, 3]));
}

#[test]
fn zlib_round_trip() {
    let data = sample();
    let mut enc = flate2::write::ZlibEncoder::new(Vec::new(), flate2::Compression::default());
    enc.write_all(&data).unwrap();
    let packed = enc.finish().unwrap();
    assert_ne!(packed, data);
    assert_eq!(get_blob_data(&compressed(BlobPayload::Zlib(packed), data.len())), Ok(data));
}

#[test]
fn lz4_round_trip() {
    let data = sample();
    let mut enc = lz4::EncoderBuilder::new().build(Vec::new()).unwrap();
    enc.write_all(&data).unwrap();
    let (packed, result) = enc.finish();
    result.unwrap();
    assert_eq!(get_blob_data(&compressed(BlobPayload::Lz4(packed), data.len())), Ok(data));
}

#[test]
fn lzma_round_trip() {
    let data = sample();
    let mut packed = Vec::new();
    lzma_rs::lzma2_compress(&mut &data[..], &mut packed).unwrap();
    assert_eq!(get_blob_data(&compressed(BlobPayload::Lzma(packed), data.len())), Ok(data));
}

#[test]
fn zstd_round_trip() {
    let data = sample();
    let packed = zstd::stream::encode_all(&data[..], 3).unwrap();
    assert_eq!(get_blob_data(&compressed(BlobPayload::Zstd(packed), data.len())), Ok(data));
}

#[test]
fn unset_payload_is_unsupported() {
    let blob = Blob { raw_size: Some(10), data: None };
    assert_eq!(get_blob_data(&blob), Err(DecodeError::UnsupportedCompression));
}

#[test]
fn bzip2_payload_is_unsupported() {
    let blob = compressed(BlobPayload::Bzip2(vec![1, 2]), 2);
    assert_eq!(get_blob_data(&blob), Err(DecodeError::UnsupportedCompression));
}

#[test]
fn compressed_payload_without_size_is_an_error() {
    let blob = Blob { raw_size: None, data: Some(BlobPayload::Zstd(vec![1, 2])) };
    assert_eq!(get_blob_data(&blob), Err(DecodeError::MissingRawSize));
}

#[test]
fn negative_size_is_an_error() {
    let blob = Blob { raw_size: Some(-1), data: Some(BlobPayload::Zlib(vec![1])) };
    assert_eq!(get_blob_data(&blob), Err(DecodeError::InvalidRawSize));
}

#[test]
fn garbage_payload_fails_to_decompress() {
    let blob = compressed(BlobPayload::Zlib(vec![9, 9, 9, 9]), 4);
    assert_eq!(get_blob_data(&blob), Err(DecodeError::Decompression));
}

#[test]
fn wrong_declared_size_is_reported() {
    let data = sample();
    let packed = zstd::stream::encode_all(&data[..], 3).unwrap();
    let blob = compressed(BlobPayload::Zstd(packed), data.len() + 1);
    assert_eq!(get_blob_data(&blob), Err(DecodeError::SizeMismatch));
}

#[test]
fn check_decompressed_outcomes() {
    assert_eq!(check_decompressed(None, 3), Err(DecodeError::Decompression));
    assert_eq!(check_decompressed(Some(vec![1, 2]), 3), Err(DecodeError::SizeMismatch));
    assert_eq!(check_decompressed(Some(vec![1, 2, 3]), 3), Ok(vec![1, 2, 3]));
}

#[test]
fn block_kinds_by_tag() {
    assert_eq!(block_kind(&"OSMHeader".to_string()), Some(BlockKind::Header));
    assert_eq!(block_kind(&"OSMData".to_string()), Some(BlockKind::Primitive));
    assert_eq!(block_kind(&"Other".to_string()), None);
}

fn raw_blob_data(tag: &str, bytes: Vec<u8>) -> BlobData {
    BlobData::new(
        BlobHeader { blob_type: tag.to_string(), datasize: 0 },
        Blob { raw_size: None, data: Some(BlobPayload::Raw(bytes)) },
    )
}

#[test]
fn read_osm_data_tags_bytes_with_kind() {
    match read_osm_data(&raw_blob_data("OSMHeader", vec![1])) {
        Ok(OsmData::Header(b)) => assert_eq!(b, vec![1]),
        _ => panic!("expected a header block"),
    }
    match read_osm_data(&raw_blob_data("OSMData", vec![2, 3])) {
        Ok(OsmData::Primitive(b)) => assert_eq!(b, vec![2, 3]),
        _ => panic!("expected a primitive block"),
    }
}

#[test]
fn read_osm_data_rejects_unknown_type() {
    assert!(matches!(read_osm_data(&raw_blob_data("Nope", vec![1])), Err(DecodeError::InvalidBlobType)));
}

#[test]
fn read_osm_data_reports_decompression_first() {
    let data = BlobData::new(
        BlobHeader { blob_type: "Nope".to_string(), datasize: 0 },
        Blob { raw_size: Some(1), data: None },
    );
    assert!(matches!(read_osm_data(&data), Err(DecodeError::UnsupportedCompression)));
}
