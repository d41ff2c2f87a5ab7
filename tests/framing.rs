use osm_to_parquet::blobs::BlobHeader;
use osm_to_parquet::io::{output_file_name, ElementKind, LocalFileWriter};
use osm_to_parquet::pbf::{blob_size, header_size, prefix_status, PbfReader, PrefixStatus};

#[test]
fn header_size_is_big_endian() {
    assert_eq!(header_size(&[0, 0, 0, 13]), 13);
    assert_eq!(header_size(&[1, 2, 3, 4]), 0x01020304);
}

#[test]
fn blob_size_rejects_negative() {
    let h = BlobHeader { blob_type: "OSMData".to_string(), datasize: 120 };
    assert_eq!(blob_size(&h), Some(120));
    let h = BlobHeader { blob_type: "OSMData".to_string(), datasize: -1 };
    assert_eq!(blob_size(&h), None);
}

#[test]
fn prefix_reads_are_classified() {
    assert_eq!(prefix_status(0), PrefixStatus::End);
    assert_eq!(prefix_status(2), PrefixStatus::Truncated);
    assert_eq!(prefix_status(4), PrefixStatus::Complete);
}

#[test]
fn reader_hands_out_its_source() {
    let mut r = PbfReader::new(vec![1u8, 2]);
    r.source_mut().push(3);
    assert_eq!(r.source_mut().len(), 3);
}

#[test]
fn output_file_names_are_zero_padded() {
    assert_eq!(output_file_name(ElementKind::Node, 1, 7), "nodes/nodes_0001_000007.parquet");
    assert_eq!(output_file_name(ElementKind::Way, 12, 1234567), "ways/ways_0012_1234567.parquet");
    assert_eq!(output_file_name(ElementKind::Relation, 0, 0), "relations/relations_0000_000000.parquet");
}

#[test]
fn file_counters_are_per_kind() {
    let mut w = LocalFileWriter::new("/tmp/out".to_string());
    assert_eq!(w.root_path(), "/tmp/out");
    assert_eq!(w.next_index(ElementKind::Node), Some(1));
    assert_eq!(w.next_index(ElementKind::Node), Some(2));
    assert_eq!(w.next_index(ElementKind::Way), Some(1));
    assert_eq!(w.next_index(ElementKind::Relation), Some(1));
    assert_eq!(w.next_index(ElementKind::Node), Some(3));
}
