use osm_to_parquet::block::{DenseInfo, DenseNodes, Info, Node, PrimitiveBlock, PrimitiveGroup, Relation, Way};
use osm_to_parquet::blobs::DecodeError;
use osm_to_parquet::elements::{
    decode_nodes, decode_primitive_block, decode_relations, decode_ways, get_node_string,
    get_relation_string, get_way_string, PrimitiveBlockDecoder, ValueDecoder,
};

fn table(entries: &[&str]) -> Vec<Vec<u8>> {
    entries.iter().map(|s| s.as_bytes().to_vec()).collect()
}

fn block_with(strings: &[&str], group: PrimitiveGroup) -> PrimitiveBlock {
    PrimitiveBlock {
        stringtable: table(strings),
        primitivegroup: vec![group],
        ..Default::default()
    }
}

fn pairs(tags: &[osm_to_parquet::types::Tag]) -> Vec<(String, String)> {
    tags.iter().map(|t| (t.key.clone(), t.value.clone())).collect()
}

#[test]
fn latitude_formula_with_defaults() {
    let decoder = ValueDecoder::new(&PrimitiveBlock::default());
    assert_eq!(decoder.granularity, 100);
    assert_eq!(decoder.lat_offset, 0);
    assert_eq!(decoder.date_granularity, 1000);
    let nanos = decoder.latitude(473086626);
    assert_eq!(nanos, 47308662600);
    let degrees = 0.000000001 * nanos as f64;
    assert!((degrees - 47.3086626).abs() < 1e-9);
}

#[test]
fn longitude_and_timestamp_use_block_scales() {
    let block = PrimitiveBlock {
        granularity: Some(1000),
        lon_offset: Some(500),
        date_granularity: Some(10),
        ..Default::default()
    };
    let decoder = ValueDecoder::new(&block);
    assert_eq!(decoder.longitude(-3), -2500);
    assert_eq!(decoder.timestamp(7), Some(70));
    assert_eq!(decoder.timestamp(i64::MAX), None);
}

#[test]
fn dense_tags_with_separators() {
    let strings: Vec<String> = (0..8).map(|i| format!("s{i}")).collect();
    let refs: Vec<&str> = strings.iter().map(|s| s.as_str()).collect();
    let block = block_with(&refs, PrimitiveGroup::default());
    let decoder = PrimitiveBlockDecoder::new(&block).unwrap();
    let tags = decoder.decode_dense_tags(&vec![3, 5, 0, 0, 7, 2], 3).unwrap();
    assert_eq!(tags.len(), 3);
    assert_eq!(pairs(&tags[0]), vec![("s3".to_string(), "s5".to_string())]);
    assert!(tags[1].is_empty());
    assert_eq!(pairs(&tags[2]), vec![("s7".to_string(), "s2".to_string())]);
}

#[test]
fn dense_tags_empty_array_gives_empty_sets() {
    let block = block_with(&[""], PrimitiveGroup::default());
    let decoder = PrimitiveBlockDecoder::new(&block).unwrap();
    let tags = decoder.decode_dense_tags(&vec![], 2).unwrap();
    assert_eq!(tags.len(), 2);
    assert!(tags.iter().all(|t| t.is_empty()));
}

#[test]
fn dense_tags_cut_pair_is_malformed() {
    let block = block_with(&["", "a"], PrimitiveGroup::default());
    let decoder = PrimitiveBlockDecoder::new(&block).unwrap();
    assert_eq!(decoder.decode_dense_tags(&vec![1], 1).err(), Some(DecodeError::MalformedBlock));
    assert_eq!(decoder.decode_dense_tags(&vec![1, 1, 0, 1, 1], 1).err(), Some(DecodeError::MalformedBlock));
    assert_eq!(decoder.decode_dense_tags(&vec![1, 9], 1).err(), Some(DecodeError::MalformedBlock));
}

#[test]
fn invalid_utf8_string_table_is_malformed() {
    let block = PrimitiveBlock { stringtable: vec![vec![0xff, 0xfe]], ..Default::default() };
    assert_eq!(PrimitiveBlockDecoder::new(&block).err(), Some(DecodeError::MalformedBlock));
}

#[test]
fn plain_node_with_info_and_tags() {
    let node = Node {
        id: 42,
        keys: vec![1],
        vals: vec![2],
        info: Some(Info {
            version: Some(3),
            timestamp: Some(1_600_000),
            changeset: Some(77),
            uid: Some(9),
            user_sid: Some(3),
            visible: None,
        }),
        lat: 100,
        lon: -200,
    };
    let group = PrimitiveGroup { nodes: vec![node], ..Default::default() };
    let block = block_with(&["", "highway", "stop", "alice"], group);
    let decoder = PrimitiveBlockDecoder::new(&block).unwrap();
    let nodes = decode_nodes(&block, &decoder).unwrap();
    assert_eq!(nodes.len(), 1);
    let n = &nodes[0];
    assert_eq!(n.id, 42);
    assert_eq!(n.latitude, 10_000);
    assert_eq!(n.longitude, -20_000);
    assert_eq!(pairs(&n.tags), vec![("highway".to_string(), "stop".to_string())]);
    assert_eq!(n.info.version, 3);
    assert_eq!(n.info.timestamp, 1_600_000_000);
    assert_eq!(n.info.changeset, 77);
    assert_eq!(n.info.uid, 9);
    assert_eq!(n.info.user_sid, "alice");
}

#[test]
fn node_without_info_has_absent_attributes() {
    let group = PrimitiveGroup { nodes: vec![Node { id: 1, ..Default::default() }], ..Default::default() };
    let block = block_with(&[""], group);
    let decoder = PrimitiveBlockDecoder::new(&block).unwrap();
    let nodes = decode_nodes(&block, &decoder).unwrap();
    let info = &nodes[0].info;
    assert_eq!((info.version, info.timestamp, info.changeset, info.uid), (0, 0, 0, 0));
    assert_eq!(info.user_sid, "");
    assert!(nodes[0].tags.is_empty());
}

#[test]
fn tag_index_out_of_table_is_malformed() {
    let node = Node { id: 1, keys: vec![5], vals: vec![0], ..Default::default() };
    let group = PrimitiveGroup { nodes: vec![node], ..Default::default() };
    let block = block_with(&[""], group);
    let decoder = PrimitiveBlockDecoder::new(&block).unwrap();
    assert_eq!(decode_nodes(&block, &decoder).err(), Some(DecodeError::MalformedBlock));
}

#[test]
fn dense_nodes_decode_in_lockstep() {
    let dense = DenseNodes {
        id: vec![10, 1, 1],
        lat: vec![1000, -10, 20],
        lon: vec![-5, 5, 5],
        keys_vals: vec![1, 2, 0, 0, 2, 1, 0],
        denseinfo: Some(DenseInfo {
            version: vec![1, 2, 1],
            timestamp: vec![100, 5, -5],
            changeset: vec![7, 1, 1],
            uid: vec![3, 0, 2],
            user_sid: vec![3, 0, -3],
            visible: vec![],
        }),
    };
    let group = PrimitiveGroup { dense: Some(dense), ..Default::default() };
    let block = block_with(&["", "k", "v", "bob"], group);
    let decoder = PrimitiveBlockDecoder::new(&block).unwrap();
    let nodes = decoder.decode_dense_nodes(block.primitivegroup[0].dense.as_ref().unwrap()).unwrap();
    assert_eq!(nodes.iter().map(|n| n.id).collect::<Vec<_>>(), vec![10, 11, 12]);
    assert_eq!(nodes.iter().map(|n| n.latitude).collect::<Vec<_>>(), vec![100_000, 99_000, 101_000]);
    assert_eq!(nodes.iter().map(|n| n.longitude).collect::<Vec<_>>(), vec![-500, 0, 500]);
    // version is taken as it is, the other streams are running sums
    assert_eq!(nodes.iter().map(|n| n.info.version).collect::<Vec<_>>(), vec![1, 2, 1]);
    assert_eq!(nodes.iter().map(|n| n.info.timestamp).collect::<Vec<_>>(), vec![100_000, 105_000, 100_000]);
    assert_eq!(nodes.iter().map(|n| n.info.changeset).collect::<Vec<_>>(), vec![7, 8, 9]);
    assert_eq!(nodes.iter().map(|n| n.info.uid).collect::<Vec<_>>(), vec![3, 3, 5]);
    assert_eq!(nodes.iter().map(|n| n.info.user_sid.as_str()).collect::<Vec<_>>(), vec!["bob", "bob", ""]);
    assert_eq!(pairs(&nodes[0].tags), vec![("k".to_string(), "v".to_string())]);
    assert!(nodes[1].tags.is_empty());
    assert_eq!(pairs(&nodes[2].tags), vec![("v".to_string(), "k".to_string())]);
}

#[test]
fn dense_nodes_with_short_stream_are_malformed() {
    let dense = DenseNodes { id: vec![1, 1], lat: vec![0], lon: vec![0, 0], ..Default::default() };
    let group = PrimitiveGroup { dense: Some(dense), ..Default::default() };
    let block = block_with(&[""], group);
    let decoder = PrimitiveBlockDecoder::new(&block).unwrap();
    assert_eq!(decode_nodes(&block, &decoder).err(), Some(DecodeError::MalformedBlock));
}

#[test]
fn plain_nodes_come_before_dense_nodes_of_a_group() {
    let group = PrimitiveGroup {
        nodes: vec![Node { id: 5, ..Default::default() }],
        dense: Some(DenseNodes { id: vec![1, 1], lat: vec![0, 0], lon: vec![0, 0], ..Default::default() }),
        ..Default::default()
    };
    let second = PrimitiveGroup { nodes: vec![Node { id: 9, ..Default::default() }], ..Default::default() };
    let block = PrimitiveBlock {
        stringtable: table(&[""]),
        primitivegroup: vec![group, second],
        ..Default::default()
    };
    let decoder = PrimitiveBlockDecoder::new(&block).unwrap();
    let nodes = decode_nodes(&block, &decoder).unwrap();
    assert_eq!(nodes.iter().map(|n| n.id).collect::<Vec<_>>(), vec![5, 1, 2, 9]);
}

#[test]
fn way_refs_are_delta_decoded() {
    let way = Way { id: 7, keys: vec![1], vals: vec![2], info: None, refs: vec![100, 1, -50] };
    let group = PrimitiveGroup { ways: vec![way], ..Default::default() };
    let block = block_with(&["", "building", "yes"], group);
    let decoder = PrimitiveBlockDecoder::new(&block).unwrap();
    let ways = decode_ways(&block, &decoder).unwrap();
    assert_eq!(ways.len(), 1);
    assert_eq!(ways[0].id, 7);
    assert_eq!(ways[0].nodes, vec![100, 101, 51]);
    assert_eq!(pairs(&ways[0].tags), vec![("building".to_string(), "yes".to_string())]);
}

#[test]
fn relation_members_are_decoded() {
    let relation = Relation {
        id: 3,
        roles_sid: vec![1, 2, 0],
        memids: vec![10, 5, -12],
        types: vec![0, 1, 2],
        ..Default::default()
    };
    let group = PrimitiveGroup { relations: vec![relation], ..Default::default() };
    let block = block_with(&["", "outer", "inner"], group);
    let decoder = PrimitiveBlockDecoder::new(&block).unwrap();
    let relations = decode_relations(&block, &decoder).unwrap();
    let m = &relations[0].members;
    assert_eq!(m.len(), 3);
    assert_eq!((m[0].role.as_str(), m[0].id, m[0].member_type.as_str()), ("outer", 10, "node"));
    assert_eq!((m[1].role.as_str(), m[1].id, m[1].member_type.as_str()), ("inner", 15, "way"));
    assert_eq!((m[2].role.as_str(), m[2].id, m[2].member_type.as_str()), ("", 3, "relation"));
}

#[test]
fn unknown_member_type_is_malformed() {
    let relation = Relation { id: 3, roles_sid: vec![0], memids: vec![1], types: vec![3], ..Default::default() };
    let group = PrimitiveGroup { relations: vec![relation], ..Default::default() };
    let block = block_with(&[""], group);
    assert_eq!(decode_primitive_block(&block).err(), Some(DecodeError::MalformedBlock));
}

#[test]
fn member_type_names() {
    assert_eq!(get_node_string(), "node");
    assert_eq!(get_way_string(), "way");
    assert_eq!(get_relation_string(), "relation");
}

#[test]
fn decode_string_reads_table_entry() {
    let block = block_with(&["", "name"], PrimitiveGroup::default());
    let decoder = PrimitiveBlockDecoder::new(&block).unwrap();
    assert_eq!(decoder.decode_string(1), "name");
}

#[test]
fn repeated_key_keeps_last_value() {
    let node = Node { id: 1, keys: vec![1, 2, 1], vals: vec![2, 3, 3], ..Default::default() };
    let group = PrimitiveGroup { nodes: vec![node], ..Default::default() };
    let block = block_with(&["", "k", "a", "b"], group);
    let decoder = PrimitiveBlockDecoder::new(&block).unwrap();
    let nodes = decode_nodes(&block, &decoder).unwrap();
    assert_eq!(
        pairs(&nodes[0].tags),
        vec![("k".to_string(), "b".to_string()), ("a".to_string(), "b".to_string())]
    );
}

#[test]
fn dense_repeated_key_keeps_last_value() {
    let block = block_with(&["", "k", "x", "y"], PrimitiveGroup::default());
    let decoder = PrimitiveBlockDecoder::new(&block).unwrap();
    let tags = decoder.decode_dense_tags(&vec![1, 2, 1, 3, 0], 1).unwrap();
    assert_eq!(pairs(&tags[0]), vec![("k".to_string(), "y".to_string())]);
}
