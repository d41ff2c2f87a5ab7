//! The messages of a primitive block as they stand on the wire: string
//! table indices, delta-coded streams and raw coordinates.

use vstd::prelude::*;

verus! {

/// Authorship metadata of a plain element. Absent values read as zero.
#[derive(Debug, Clone, Default)]
pub struct Info {
    pub version: Option<i32>,
    pub timestamp: Option<i64>,
    pub changeset: Option<i64>,
    pub uid: Option<i32>,
    pub user_sid: Option<u32>,
    pub visible: Option<bool>,
}

/// Metadata of dense nodes: parallel streams, one entry per node. All but
/// `version` and `visible` are delta-coded.
#[derive(Debug, Clone, Default)]
pub struct DenseInfo {
    pub version: Vec<i32>,
    pub timestamp: Vec<i64>,
    pub changeset: Vec<i64>,
    pub uid: Vec<i32>,
    pub user_sid: Vec<i32>,
    pub visible: Vec<bool>,
}

/// A plain node.
#[derive(Debug, Clone, Default)]
pub struct Node {
    pub id: i64,
    pub keys: Vec<u32>,
    pub vals: Vec<u32>,
    pub info: Option<Info>,
    pub lat: i64,
    pub lon: i64,
}

/// Nodes in the dense encoding: delta-coded ids and coordinates, and the
/// tags of all nodes in one flattened array.
#[derive(Debug, Clone, Default)]
pub struct DenseNodes {
    pub id: Vec<i64>,
    pub denseinfo: Option<DenseInfo>,
    pub lat: Vec<i64>,
    pub lon: Vec<i64>,
    pub keys_vals: Vec<i32>,
}

/// A way; `refs` is the delta-coded list of its node ids.
#[derive(Debug, Clone, Default)]
pub struct Way {
    pub id: i64,
    pub keys: Vec<u32>,
    pub vals: Vec<u32>,
    pub info: Option<Info>,
    pub refs: Vec<i64>,
}

/// A relation; its members are given by parallel arrays of role indices,
/// delta-coded member ids and member type codes.
#[derive(Debug, Clone, Default)]
pub struct Relation {
    pub id: i64,
    pub keys: Vec<u32>,
    pub vals: Vec<u32>,
    pub info: Option<Info>,
    pub roles_sid: Vec<i32>,
    pub memids: Vec<i64>,
    pub types: Vec<i32>,
}

/// A group of elements of a block.
#[derive(Debug, Clone, Default)]
pub struct PrimitiveGroup {
    pub nodes: Vec<Node>,
    pub dense: Option<DenseNodes>,
    pub ways: Vec<Way>,
    pub relations: Vec<Relation>,
}

/// A primitive block: its string table, its groups, and the constants that
/// scale coordinates and timestamps.
#[derive(Debug, Clone, Default)]
pub struct PrimitiveBlock {
    pub stringtable: Vec<Vec<u8>>,
    pub primitivegroup: Vec<PrimitiveGroup>,
    pub granularity: Option<i32>,
    pub lat_offset: Option<i64>,
    pub lon_offset: Option<i64>,
    pub date_granularity: Option<i32>,
}

} // verus!
