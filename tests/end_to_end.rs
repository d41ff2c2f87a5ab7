use osm_to_parquet::blobs::{read_osm_data, Blob, BlobData, BlobHeader, BlobPayload, OsmData};
use osm_to_parquet::block::{Node, PrimitiveBlock, PrimitiveGroup, Relation, Way};
use osm_to_parquet::elements::decode_primitive_block;
use osm_to_parquet::records::ElementBatches;
use osm_to_parquet::types::ElementCount;
use osm_to_parquet::writer::{ParquetFileConfig, StreamWriterState};

fn fixture_block() -> PrimitiveBlock {
    let group = PrimitiveGroup {
        nodes: vec![
            Node { id: 1, lat: 100, lon: 200, ..Default::default() },
            Node { id: 2, lat: 101, lon: 201, ..Default::default() },
        ],
        dense: None,
        ways: vec![Way { id: 10, refs: vec![1, 1], ..Default::default() }],
        relations: vec![Relation { id: 20, roles_sid: vec![1], memids: vec![10], types: vec![1], ..Default::default() }],
    };
    PrimitiveBlock {
        stringtable: vec![b"".to_vec(), b"outer".to_vec()],
        primitivegroup: vec![group],
        ..Default::default()
    }
}

#[test]
fn fixture_through_the_pipeline() {
    let frames = vec![
        BlobData::new(
            BlobHeader { blob_type: "OSMHeader".to_string(), datasize: 3 },
            Blob { raw_size: None, data: Some(BlobPayload::Raw(vec![1, 2, 3])) },
        ),
        BlobData::new(
            BlobHeader { blob_type: "OSMData".to_string(), datasize: 3 },
            Blob { raw_size: None, data: Some(BlobPayload::Raw(vec![4, 5, 6])) },
        ),
    ];
    let mut progress = ElementCount::new(0, 0, 0);
    let mut writers = [
        StreamWriterState::new(ParquetFileConfig::new()),
        StreamWriterState::new(ParquetFileConfig::new()),
        StreamWriterState::new(ParquetFileConfig::new()),
    ];
    let mut files: [Vec<usize>; 3] = [vec![], vec![], vec![]];
    let mut way_lists = vec![];
    let mut member_lists = vec![];
    for frame in &frames {
        match read_osm_data(frame).unwrap() {
            OsmData::Header(_) => {}
            OsmData::Primitive(bytes) => {
                // Turning the message bytes into a block is the protobuf
                // decoder's part; the fixture block stands for its result.
                assert_eq!(bytes, vec![4, 5, 6]);
                let elements = decode_primitive_block(&fixture_block()).unwrap();
                for batch in ElementBatches::from_elements_in_batches(&elements, 1) {
                    let c = batch.count();
                    progress = ElementCount::new(progress.nodes + c.nodes, progress.ways + c.ways, progress.relations + c.relations);
                    let rows = [c.nodes, c.ways, c.relations];
                    for k in 0..3 {
                        if rows[k] > 0 {
                            writers[k].record_write(rows[k]);
                        }
                    }
                    if let Some(w) = &batch.ways {
                        way_lists.extend(w.nodes.iter().map(|n| n.len()));
                    }
                    if let Some(r) = &batch.relations {
                        member_lists.extend(r.members.iter().map(|m| m.len()));
                    }
                    for k in 0..3 {
                        if writers[k].flush_due(false, 0) {
                            let n = writers[k].num_rows;
                            if writers[k].record_flush() {
                                files[k].push(n);
                            }
                        }
                    }
                }
            }
        }
    }
    for k in 0..3 {
        let n = writers[k].num_rows;
        if writers[k].flush_due(true, 0) && writers[k].record_flush() {
            files[k].push(n);
        }
    }
    assert_eq!(files[0], vec![2]);
    assert_eq!(files[1], vec![1]);
    assert_eq!(files[2], vec![1]);
    assert_eq!(way_lists, vec![2]);
    assert_eq!(member_lists, vec![1]);
    assert_eq!(progress, ElementCount::new(2, 1, 1));
}
