use osm_to_parquet::records::{create_batch_for_nodes, create_batch_for_ways, ElementBatches, InfoBuilder};
use osm_to_parquet::types::{ElementCount, OsmElements, OsmInfo, OsmNode, OsmRelation, OsmRelationMember, OsmWay, Tag};

fn info(version: i32, user: &str) -> OsmInfo {
    OsmInfo { version, timestamp: 0, changeset: 5, uid: 0, user_sid: user.to_string() }
}

fn node(id: i64, version: i32, tags: Vec<Tag>) -> OsmNode {
    OsmNode { id, info: info(version, ""), tags, latitude: id as i128 * 10, longitude: -(id as i128) }
}

fn tag(k: &str, v: &str) -> Tag {
    Tag { key: k.to_string(), value: v.to_string() }
}

#[test]
fn zero_version_is_null_and_three_is_kept() {
    let mut cols = InfoBuilder::with_capacity(2);
    cols.append(&info(0, ""));
    cols.append(&info(3, "carol"));
    assert_eq!(cols.version, vec![None, Some(3)]);
    assert_eq!(cols.timestamp, vec![None, None]);
    assert_eq!(cols.changeset, vec![Some(5), Some(5)]);
    assert_eq!(cols.uid, vec![None, None]);
    assert_eq!(cols.user_sid, vec![None, Some("carol".to_string())]);
}

#[test]
fn empty_tag_set_is_a_null_map_cell() {
    let nodes = vec![node(1, 1, vec![]), node(2, 1, vec![tag("a", "b")])];
    let batch = create_batch_for_nodes(&nodes).unwrap();
    assert!(batch.tags[0].is_none());
    let second = batch.tags[1].as_ref().unwrap();
    assert_eq!(second.len(), 1);
    assert_eq!((second[0].key.as_str(), second[0].value.as_str()), ("a", "b"));
    assert_eq!(batch.id, vec![1, 2]);
    assert_eq!(batch.latitude, vec![10, 20]);
    assert_eq!(batch.longitude, vec![-1, -2]);
    assert_eq!(batch.num_rows(), 2);
}

#[test]
fn no_elements_no_batch() {
    assert!(create_batch_for_nodes(&[]).is_none());
    assert!(create_batch_for_ways(&[]).is_none());
}

#[test]
fn way_batch_keeps_node_lists() {
    let way = OsmWay { id: 4, info: info(2, "dave"), tags: vec![], nodes: vec![8, 9, 8] };
    let batch = create_batch_for_ways(&[way]).unwrap();
    assert_eq!(batch.nodes, vec![vec![8, 9, 8]]);
    assert_eq!(batch.info.version, vec![Some(2)]);
    assert_eq!(batch.info.user_sid, vec![Some("dave".to_string())]);
}

fn elements(n: i64, w: i64, r: i64) -> OsmElements {
    OsmElements {
        nodes: (0..n).map(|i| node(i + 1, 1, vec![])).collect(),
        ways: (0..w).map(|i| OsmWay { id: i + 1, info: info(1, ""), tags: vec![], nodes: vec![1] }).collect(),
        relations: (0..r)
            .map(|i| OsmRelation {
                id: i + 1,
                info: info(1, ""),
                tags: vec![tag("type", "route")],
                members: vec![OsmRelationMember { role: "".to_string(), id: 1, member_type: "way".to_string() }],
            })
            .collect(),
    }
}

#[test]
fn from_elements_counts_rows() {
    let batches = ElementBatches::from_elements(&elements(3, 0, 2));
    assert!(batches.ways.is_none());
    assert_eq!(batches.count(), ElementCount::new(3, 0, 2));
    let members = &batches.relations.as_ref().unwrap().members;
    assert_eq!(members[0][0].member_type, "way");
}

#[test]
fn batches_of_bounded_size() {
    let chunks = ElementBatches::from_elements_in_batches(&elements(5, 2, 0), 2);
    assert_eq!(chunks.len(), 3);
    let counts: Vec<ElementCount> = chunks.iter().map(|c| c.count()).collect();
    assert_eq!(counts, vec![ElementCount::new(2, 2, 0), ElementCount::new(2, 0, 0), ElementCount::new(1, 0, 0)]);
    assert_eq!(chunks[2].nodes.as_ref().unwrap().id, vec![5]);
    assert!(chunks[1].ways.is_none());
}

#[test]
fn batches_of_nothing() {
    assert!(ElementBatches::from_elements_in_batches(&elements(0, 0, 0), 10).is_empty());
}

#[test]
fn element_count_total() {
    assert_eq!(ElementCount::new(2, 3, 4).total(), 9);
}
