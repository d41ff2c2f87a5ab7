//! Columnar record batches of decoded elements. A zero attribute and an
//! empty user name become null cells; an empty tag set becomes a null map
//! cell, not an empty map.

use crate::delta::ints;
use crate::types::{
    copy_members, copy_tags, members_view, tags_view, ElementCount, InfoView, MemberView,
    OsmElements, OsmInfo, OsmNode, OsmRelation, OsmRelationMember, OsmWay, Tag,
};
use vstd::prelude::*;

verus! {

pub open spec fn null_if_zero_i32(x: i32) -> Option<i32> {
    if x == 0 {
        None
    } else {
        Some(x)
    }
}

pub open spec fn null_if_zero_i64(x: i64) -> Option<i64> {
    if x == 0 {
        None
    } else {
        Some(x)
    }
}

pub open spec fn null_if_empty_str(s: Seq<char>) -> Option<Seq<char>> {
    if s.len() == 0 {
        None
    } else {
        Some(s)
    }
}

/// The map cell of a tag set: null where the set is empty.
pub open spec fn tags_cell(t: Seq<(Seq<char>, Seq<char>)>) -> Option<Seq<(Seq<char>, Seq<char>)>> {
    if t.len() == 0 {
        None
    } else {
        Some(t)
    }
}

/// The attribute cells of one row.
pub struct InfoCells {
    pub version: Option<i32>,
    pub timestamp: Option<i64>,
    pub changeset: Option<i64>,
    pub uid: Option<i64>,
    pub user_sid: Option<Seq<char>>,
}

/// The attribute cells of an element's metadata.
pub open spec fn info_cells(i: InfoView) -> InfoCells {
    InfoCells {
        version: null_if_zero_i32(i.version),
        timestamp: null_if_zero_i64(i.timestamp),
        changeset: null_if_zero_i64(i.changeset),
        uid: null_if_zero_i64(i.uid),
        user_sid: null_if_empty_str(i.user_sid),
    }
}

pub open spec fn opt_string_view(s: Option<String>) -> Option<Seq<char>> {
    match s {
        Some(x) => Some(x@),
        None => None,
    }
}

pub open spec fn opt_tags_view(t: Option<Vec<Tag>>) -> Option<Seq<(Seq<char>, Seq<char>)>> {
    match t {
        Some(x) => Some(tags_view(x@)),
        None => None,
    }
}

/// The attribute columns of a batch: version, timestamp, changeset, uid and
/// user name, nullable.
#[derive(Debug, Clone)]
pub struct InfoBuilder {
    pub version: Vec<Option<i32>>,
    pub timestamp: Vec<Option<i64>>,
    pub changeset: Vec<Option<i64>>,
    pub uid: Vec<Option<i64>>,
    pub user_sid: Vec<Option<String>>,
}

impl InfoBuilder {
    /// Every column has one cell per row.
    pub open spec fn wf(&self) -> bool {
        &&& self.timestamp@.len() == self.version@.len()
        &&& self.changeset@.len() == self.version@.len()
        &&& self.uid@.len() == self.version@.len()
        &&& self.user_sid@.len() == self.version@.len()
    }

    pub open spec fn rows(&self) -> Seq<InfoCells> {
        Seq::new(
            self.version@.len(),
            |i: int|
                InfoCells {
                    version: self.version@[i],
                    timestamp: self.timestamp@[i],
                    changeset: self.changeset@[i],
                    uid: self.uid@[i],
                    user_sid: opt_string_view(self.user_sid@[i]),
                },
        )
    }

    pub fn with_capacity(capacity: usize) -> (r: Self)
        ensures
            r.wf(),
            r.rows().len() == 0,
    {
        InfoBuilder {
            version: Vec::with_capacity(capacity),
            timestamp: Vec::with_capacity(capacity),
            changeset: Vec::with_capacity(capacity),
            uid: Vec::with_capacity(capacity),
            user_sid: Vec::with_capacity(capacity),
        }
    }

    /// Appends the cells of one element's metadata.
    pub fn append(&mut self, info: &OsmInfo)
        requires
            old(self).wf(),
        ensures
            final(self).wf(),
            final(self).version@.len() == old(self).version@.len() + 1,
            final(self).rows() == old(self).rows().push(info_cells(info@)),
    {
        let ghost before = self.rows();
        self.version.push(if info.version == 0 {
            None
        } else {
            Some(info.version)
        });
        self.timestamp.push(Self::optional_i64(info.timestamp));
        self.changeset.push(Self::optional_i64(info.changeset));
        self.uid.push(Self::optional_i64(info.uid));
        self.user_sid.push(
            if info.user_sid.as_str().is_empty() {
                None
            } else {
                Some(info.user_sid.clone())
            },
        );
        assert(self.rows() =~= before.push(info_cells(info@)));
    }

    fn optional_i64(value: i64) -> (r: Option<i64>)
        ensures
            r == null_if_zero_i64(value),
    {
        if value == 0 {
            None
        } else {
            Some(value)
        }
    }
}

/// The map cell of a tag set.
pub fn tags_column_cell(tags: &Vec<Tag>) -> (r: Option<Vec<Tag>>)
    ensures
        opt_tags_view(r) == tags_cell(tags_view(tags@)),
{
    if tags.len() == 0 {
        None
    } else {
        Some(copy_tags(tags))
    }
}

/// One row of a node batch.
pub struct NodeRow {
    pub id: i64,
    pub tags: Option<Seq<(Seq<char>, Seq<char>)>>,
    pub latitude: int,
    pub longitude: int,
    pub info: InfoCells,
}

pub open spec fn node_row(n: OsmNode) -> NodeRow {
    NodeRow {
        id: n.id,
        tags: tags_cell(n@.tags),
        latitude: n@.latitude,
        longitude: n@.longitude,
        info: info_cells(n@.info),
    }
}

/// A columnar batch of nodes: id, version, tags, latitude, longitude,
/// timestamp, changeset, uid, user name. Coordinates are in nanodegrees.
#[derive(Debug, Clone)]
pub struct NodeBatch {
    pub id: Vec<i64>,
    pub tags: Vec<Option<Vec<Tag>>>,
    pub latitude: Vec<i128>,
    pub longitude: Vec<i128>,
    pub info: InfoBuilder,
}

impl NodeBatch {
    pub open spec fn wf(&self) -> bool {
        &&& self.info.wf()
        &&& self.tags@.len() == self.id@.len()
        &&& self.latitude@.len() == self.id@.len()
        &&& self.longitude@.len() == self.id@.len()
        &&& self.info.version@.len() == self.id@.len()
    }

    pub open spec fn rows(&self) -> Seq<NodeRow> {
        Seq::new(
            self.id@.len(),
            |i: int|
                NodeRow {
                    id: self.id@[i],
                    tags: opt_tags_view(self.tags@[i]),
                    latitude: self.latitude@[i] as int,
                    longitude: self.longitude@[i] as int,
                    info: self.info.rows()[i],
                },
        )
    }

    pub fn num_rows(&self) -> (r: usize)
        ensures
            r == self.id@.len(),
    {
        self.id.len()
    }
}

/// One row of a way batch.
pub struct WayRow {
    pub id: i64,
    pub tags: Option<Seq<(Seq<char>, Seq<char>)>>,
    pub nodes: Seq<int>,
    pub info: InfoCells,
}

pub open spec fn way_row(w: OsmWay) -> WayRow {
    WayRow { id: w.id, tags: tags_cell(w@.tags), nodes: w@.nodes, info: info_cells(w@.info) }
}

/// A columnar batch of ways: id, version, tags, node list, timestamp,
/// changeset, uid, user name.
#[derive(Debug, Clone)]
pub struct WayBatch {
    pub id: Vec<i64>,
    pub tags: Vec<Option<Vec<Tag>>>,
    pub nodes: Vec<Vec<i64>>,
    pub info: InfoBuilder,
}

impl WayBatch {
    pub open spec fn wf(&self) -> bool {
        &&& self.info.wf()
        &&& self.tags@.len() == self.id@.len()
        &&& self.nodes@.len() == self.id@.len()
        &&& self.info.version@.len() == self.id@.len()
    }

    pub open spec fn rows(&self) -> Seq<WayRow> {
        Seq::new(
            self.id@.len(),
            |i: int|
                WayRow {
                    id: self.id@[i],
                    tags: opt_tags_view(self.tags@[i]),
                    nodes: ints(self.nodes@[i]@),
                    info: self.info.rows()[i],
                },
        )
    }

    pub fn num_rows(&self) -> (r: usize)
        ensures
            r == self.id@.len(),
    {
        self.id.len()
    }
}

/// One row of a relation batch.
pub struct RelationRow {
    pub id: i64,
    pub tags: Option<Seq<(Seq<char>, Seq<char>)>>,
    pub members: Seq<MemberView>,
    pub info: InfoCells,
}

pub open spec fn relation_row(r: OsmRelation) -> RelationRow {
    RelationRow {
        id: r.id,
        tags: tags_cell(r@.tags),
        members: r@.members,
        info: info_cells(r@.info),
    }
}

/// A columnar batch of relations: id, version, tags, member list,
/// timestamp, changeset, uid, user name.
#[derive(Debug, Clone)]
pub struct RelationBatch {
    pub id: Vec<i64>,
    pub tags: Vec<Option<Vec<Tag>>>,
    pub members: Vec<Vec<OsmRelationMember>>,
    pub info: InfoBuilder,
}

impl RelationBatch {
    pub open spec fn wf(&self) -> bool {
        &&& self.info.wf()
        &&& self.tags@.len() == self.id@.len()
        &&& self.members@.len() == self.id@.len()
        &&& self.info.version@.len() == self.id@.len()
    }

    pub open spec fn rows(&self) -> Seq<RelationRow> {
        Seq::new(
            self.id@.len(),
            |i: int|
                RelationRow {
                    id: self.id@[i],
                    tags: opt_tags_view(self.tags@[i]),
                    members: members_view(self.members@[i]@),
                    info: self.info.rows()[i],
                },
        )
    }

    pub fn num_rows(&self) -> (r: usize)
        ensures
            r == self.id@.len(),
    {
        self.id.len()
    }
}

pub open spec fn node_row_fn() -> spec_fn(OsmNode) -> NodeRow {
    |n: OsmNode| node_row(n)
}

pub open spec fn node_rows(s: Seq<OsmNode>) -> Seq<NodeRow> {
    s.map_values(node_row_fn())
}

pub open spec fn way_row_fn() -> spec_fn(OsmWay) -> WayRow {
    |w: OsmWay| way_row(w)
}

pub open spec fn way_rows(s: Seq<OsmWay>) -> Seq<WayRow> {
    s.map_values(way_row_fn())
}

pub open spec fn relation_row_fn() -> spec_fn(OsmRelation) -> RelationRow {
    |r: OsmRelation| relation_row(r)
}

pub open spec fn relation_rows(s: Seq<OsmRelation>) -> Seq<RelationRow> {
    s.map_values(relation_row_fn())
}

/// The batch of the nodes `start..end`.
pub fn node_batch_range(nodes: &[OsmNode], start: usize, end: usize) -> (r: NodeBatch)
    requires
        start <= end <= nodes@.len(),
    ensures
        r.wf(),
        r.rows() == node_rows(nodes@.subrange(start as int, end as int)),
{
    let n = end - start;
    let mut b = NodeBatch {
        id: Vec::with_capacity(n),
        tags: Vec::with_capacity(n),
        latitude: Vec::with_capacity(n),
        longitude: Vec::with_capacity(n),
        info: InfoBuilder::with_capacity(n),
    };
    let mut i: usize = start;
    assert(b.rows() =~= node_rows(nodes@.subrange(start as int, start as int)));
    while i < end
        invariant
            start <= i <= end,
            end <= nodes@.len(),
            b.wf(),
            b.rows() == node_rows(nodes@.subrange(start as int, i as int)),
        decreases end - i,
    {
        let node = &nodes[i];
        let ghost before = b.rows();
        b.id.push(node.id);
        b.tags.push(tags_column_cell(&node.tags));
        b.latitude.push(node.latitude);
        b.longitude.push(node.longitude);
        b.info.append(&node.info);
        assert(b.rows() =~= before.push(node_row(*node)));
        assert(nodes@.subrange(start as int, i + 1) =~= nodes@.subrange(start as int, i as int).push(
            *node,
        ));
        assert(node_rows(nodes@.subrange(start as int, i + 1)) =~= before.push(node_row(*node)));
        i = i + 1;
    }
    b
}

/// The batch of the ways `start..end`.
pub fn way_batch_range(ways: &[OsmWay], start: usize, end: usize) -> (r: WayBatch)
    requires
        start <= end <= ways@.len(),
    ensures
        r.wf(),
        r.rows() == way_rows(ways@.subrange(start as int, end as int)),
{
    let n = end - start;
    let mut b = WayBatch {
        id: Vec::with_capacity(n),
        tags: Vec::with_capacity(n),
        nodes: Vec::with_capacity(n),
        info: InfoBuilder::with_capacity(n),
    };
    let mut i: usize = start;
    assert(b.rows() =~= way_rows(ways@.subrange(start as int, start as int)));
    while i < end
        invariant
            start <= i <= end,
            end <= ways@.len(),
            b.wf(),
            b.rows() == way_rows(ways@.subrange(start as int, i as int)),
        decreases end - i,
    {
        let way = &ways[i];
        let ghost before = b.rows();
        b.id.push(way.id);
        b.tags.push(tags_column_cell(&way.tags));
        b.nodes.push(way.nodes.clone());
        b.info.append(&way.info);
        assert(b.rows() =~= before.push(way_row(*way)));
        assert(ways@.subrange(start as int, i + 1) =~= ways@.subrange(start as int, i as int).push(
            *way,
        ));
        assert(way_rows(ways@.subrange(start as int, i + 1)) =~= before.push(way_row(*way)));
        i = i + 1;
    }
    b
}

/// The batch of the relations `start..end`.
pub fn relation_batch_range(relations: &[OsmRelation], start: usize, end: usize) -> (r: RelationBatch)
    requires
        start <= end <= relations@.len(),
    ensures
        r.wf(),
        r.rows() == relation_rows(relations@.subrange(start as int, end as int)),
{
    let n = end - start;
    let mut b = RelationBatch {
        id: Vec::with_capacity(n),
        tags: Vec::with_capacity(n),
        members: Vec::with_capacity(n),
        info: InfoBuilder::with_capacity(n),
    };
    let mut i: usize = start;
    assert(b.rows() =~= relation_rows(relations@.subrange(start as int, start as int)));
    while i < end
        invariant
            start <= i <= end,
            end <= relations@.len(),
            b.wf(),
            b.rows() == relation_rows(relations@.subrange(start as int, i as int)),
        decreases end - i,
    {
        let relation = &relations[i];
        let ghost before = b.rows();
        b.id.push(relation.id);
        b.tags.push(tags_column_cell(&relation.tags));
        b.members.push(copy_members(&relation.members));
        b.info.append(&relation.info);
        assert(b.rows() =~= before.push(relation_row(*relation)));
        assert(relations@.subrange(start as int, i + 1) =~= relations@.subrange(
            start as int,
            i as int,
        ).push(*relation));
        assert(relation_rows(relations@.subrange(start as int, i + 1)) =~= before.push(
            relation_row(*relation),
        ));
        i = i + 1;
    }
    b
}

/// The batch of all nodes; `None` where there are none.
pub fn create_batch_for_nodes(nodes: &[OsmNode]) -> (r: Option<NodeBatch>)
    ensures
        r is None <==> nodes@.len() == 0,
        r matches Some(b) ==> b.wf() && b.rows() == node_rows(nodes@),
{
    if nodes.len() == 0 {
        return None;
    }
    let b = node_batch_range(nodes, 0, nodes.len());
    assert(nodes@.subrange(0, nodes@.len() as int) =~= nodes@);
    Some(b)
}

/// The batch of all ways; `None` where there are none.
pub fn create_batch_for_ways(ways: &[OsmWay]) -> (r: Option<WayBatch>)
    ensures
        r is None <==> ways@.len() == 0,
        r matches Some(b) ==> b.wf() && b.rows() == way_rows(ways@),
{
    if ways.len() == 0 {
        return None;
    }
    let b = way_batch_range(ways, 0, ways.len());
    assert(ways@.subrange(0, ways@.len() as int) =~= ways@);
    Some(b)
}

/// The batch of all relations; `None` where there are none.
pub fn create_batch_for_relations(relations: &[OsmRelation]) -> (r: Option<RelationBatch>)
    ensures
        r is None <==> relations@.len() == 0,
        r matches Some(b) ==> b.wf() && b.rows() == relation_rows(relations@),
{
    if relations.len() == 0 {
        return None;
    }
    let b = relation_batch_range(relations, 0, relations.len());
    assert(relations@.subrange(0, relations@.len() as int) =~= relations@);
    Some(b)
}

/// The default number of rows per kind in one batch.
pub const DEFAULT_BATCH_SIZE: usize = 1000;

/// The batches of one block or chunk, one per element kind that has rows.
#[derive(Debug, Clone)]
pub struct ElementBatches {
    pub nodes: Option<NodeBatch>,
    pub ways: Option<WayBatch>,
    pub relations: Option<RelationBatch>,
}

pub open spec fn min_int(a: int, b: int) -> int {
    if a <= b {
        a
    } else {
        b
    }
}

pub open spec fn max3(a: int, b: int, c: int) -> int {
    if a >= b && a >= c {
        a
    } else if b >= c {
        b
    } else {
        c
    }
}

/// `b` holds, for each kind, the batch of the elements `start..start + size`
/// that exist, and no batch for a kind that has none there.
pub open spec fn chunk_of(b: ElementBatches, e: OsmElements, start: int, size: int) -> bool {
    let n = e.nodes@.len() as int;
    let w = e.ways@.len() as int;
    let r = e.relations@.len() as int;
    &&& (b.nodes is None <==> start >= n)
    &&& (b.nodes matches Some(x) ==> x.wf() && x.rows() == node_rows(
        e.nodes@.subrange(start, min_int(start + size, n)),
    ))
    &&& (b.ways is None <==> start >= w)
    &&& (b.ways matches Some(x) ==> x.wf() && x.rows() == way_rows(
        e.ways@.subrange(start, min_int(start + size, w)),
    ))
    &&& (b.relations is None <==> start >= r)
    &&& (b.relations matches Some(x) ==> x.wf() && x.rows() == relation_rows(
        e.relations@.subrange(start, min_int(start + size, r)),
    ))
}

pub open spec fn opt_node_rows(b: Option<NodeBatch>) -> Seq<NodeRow> {
    match b {
        Some(x) => x.rows(),
        None => Seq::empty(),
    }
}

pub open spec fn opt_way_rows(b: Option<WayBatch>) -> Seq<WayRow> {
    match b {
        Some(x) => x.rows(),
        None => Seq::empty(),
    }
}

pub open spec fn opt_relation_rows(b: Option<RelationBatch>) -> Seq<RelationRow> {
    match b {
        Some(x) => x.rows(),
        None => Seq::empty(),
    }
}

/// The rows that `part` takes from each batch, batch after batch.
pub open spec fn all_rows<B>(bs: Seq<ElementBatches>, part: spec_fn(ElementBatches) -> Seq<B>) -> Seq<B>
    decreases bs.len(),
{
    if bs.len() == 0 {
        Seq::empty()
    } else {
        all_rows(bs.drop_last(), part) + part(bs.last())
    }
}

pub open spec fn node_part() -> spec_fn(ElementBatches) -> Seq<NodeRow> {
    |b: ElementBatches| opt_node_rows(b.nodes)
}

pub open spec fn way_part() -> spec_fn(ElementBatches) -> Seq<WayRow> {
    |b: ElementBatches| opt_way_rows(b.ways)
}

pub open spec fn relation_part() -> spec_fn(ElementBatches) -> Seq<RelationRow> {
    |b: ElementBatches| opt_relation_rows(b.relations)
}

/// The node rows of a sequence of batches, batch after batch.
pub open spec fn all_node_rows(bs: Seq<ElementBatches>) -> Seq<NodeRow> {
    all_rows(bs, node_part())
}

/// The way rows of a sequence of batches, batch after batch.
pub open spec fn all_way_rows(bs: Seq<ElementBatches>) -> Seq<WayRow> {
    all_rows(bs, way_part())
}

/// The relation rows of a sequence of batches, batch after batch.
pub open spec fn all_relation_rows(bs: Seq<ElementBatches>) -> Seq<RelationRow> {
    all_rows(bs, relation_part())
}

/// Where batch `i` holds the rows of the items `i * size ..` up to the next
/// batch's start, the first `k` batches hold the rows of the items before
/// `k * size`, in order.
proof fn lemma_batches_cover<A, B>(
    bs: Seq<ElementBatches>,
    items: Seq<A>,
    f: spec_fn(A) -> B,
    part: spec_fn(ElementBatches) -> Seq<B>,
    size: int,
    k: int,
)
    requires
        size > 0,
        0 <= k <= bs.len(),
        forall|i: int|
            0 <= i < bs.len() ==> #[trigger] part(bs[i]) == items.subrange(
                min_int(i * size, items.len() as int),
                min_int(i * size + size, items.len() as int),
            ).map_values(f),
    ensures
        all_rows(bs.take(k), part) == items.subrange(0, min_int(k * size, items.len() as int)).map_values(f),
    decreases k,
{
    let n = items.len() as int;
    if k == 0 {
        assert(bs.take(0) =~= Seq::<ElementBatches>::empty());
        assert(k * size == 0) by (nonlinear_arith)
            requires
                k == 0,
        ;
        assert(items.subrange(0, 0).map_values(f) =~= Seq::<B>::empty());
    } else {
        lemma_batches_cover(bs, items, f, part, size, k - 1);
        let start = (k - 1) * size;
        assert(k * size == start + size) by (nonlinear_arith)
            requires
                start == (k - 1) * size,
        ;
        assert(start >= 0) by (nonlinear_arith)
            requires
                start == (k - 1) * size,
                k >= 1,
                size > 0,
        ;
        assert(bs.take(k).drop_last() =~= bs.take(k - 1));
        assert(bs.take(k).last() == bs[k - 1]);
        let a = min_int(start, n);
        let z = min_int(start + size, n);
        assert(part(bs[k - 1]) == items.subrange(a, z).map_values(f));
        assert(items.subrange(0, a).map_values(f) + items.subrange(a, z).map_values(f)
            =~= items.subrange(0, z).map_values(f));
    }
}

/// The end of the chunk that starts at `start`, for `n` items.
fn chunk_end(start: usize, size: usize, n: usize) -> (r: usize)
    ensures
        r == if start >= n {
            n as int
        } else {
            min_int(start + size, n as int)
        },
{
    if start >= n {
        n
    } else if n - start > size {
        start + size
    } else {
        n
    }
}

impl ElementBatches {
    /// One batch per kind for all elements of a block.
    pub fn from_elements(elements: &OsmElements) -> (r: Self)
        ensures
            r.nodes is None <==> elements.nodes@.len() == 0,
            r.nodes matches Some(b) ==> b.wf() && b.rows() == node_rows(elements.nodes@),
            r.ways is None <==> elements.ways@.len() == 0,
            r.ways matches Some(b) ==> b.wf() && b.rows() == way_rows(elements.ways@),
            r.relations is None <==> elements.relations@.len() == 0,
            r.relations matches Some(b) ==> b.wf() && b.rows() == relation_rows(
                elements.relations@,
            ),
    {
        ElementBatches {
            nodes: create_batch_for_nodes(elements.nodes.as_slice()),
            ways: create_batch_for_ways(elements.ways.as_slice()),
            relations: create_batch_for_relations(elements.relations.as_slice()),
        }
    }

    /// The number of rows of each kind.
    pub fn count(&self) -> (r: ElementCount)
        ensures
            r.nodes == match self.nodes {
                Some(b) => b.id@.len(),
                None => 0,
            },
            r.ways == match self.ways {
                Some(b) => b.id@.len(),
                None => 0,
            },
            r.relations == match self.relations {
                Some(b) => b.id@.len(),
                None => 0,
            },
    {
        ElementCount {
            nodes: match &self.nodes {
                Some(b) => b.num_rows(),
                None => 0,
            },
            ways: match &self.ways {
                Some(b) => b.num_rows(),
                None => 0,
            },
            relations: match &self.relations {
                Some(b) => b.num_rows(),
                None => 0,
            },
        }
    }

    /// Splits the elements of a block into batches of at most `batch_size`
    /// rows per kind, in source order: batch `i` holds, for each kind, the
    /// elements `i * batch_size ..` up to the next batch's start. There are
    /// just enough batches for the kind with the most elements, and the
    /// batches' rows, one batch after the other, are the rows of all
    /// elements in source order.
    pub fn from_elements_in_batches(elements: &OsmElements, batch_size: usize) -> (r: Vec<Self>)
        requires
            batch_size > 0,
        ensures
            r@.len() * batch_size >= max3(
                elements.nodes@.len() as int,
                elements.ways@.len() as int,
                elements.relations@.len() as int,
            ),
            r@.len() == 0 || (r@.len() - 1) * batch_size < max3(
                elements.nodes@.len() as int,
                elements.ways@.len() as int,
                elements.relations@.len() as int,
            ),
            forall|i: int|
                0 <= i < r@.len() ==> chunk_of(
                    #[trigger] r@[i],
                    *elements,
                    i * batch_size,
                    batch_size as int,
                ),
            all_node_rows(r@) == node_rows(elements.nodes@),
            all_way_rows(r@) == way_rows(elements.ways@),
            all_relation_rows(r@) == relation_rows(elements.relations@),
    {
        let n = elements.nodes.len();
        let w = elements.ways.len();
        let rl = elements.relations.len();
        let most = if n >= w && n >= rl {
            n
        } else if w >= rl {
            w
        } else {
            rl
        };
        let mut out: Vec<Self> = Vec::new();
        let mut start: usize = 0;
        while start < most
            invariant
                n == elements.nodes@.len(),
                w == elements.ways@.len(),
                rl == elements.relations@.len(),
                most as int == max3(n as int, w as int, rl as int),
                batch_size > 0,
                start as int == out@.len() * batch_size || start == most,
                start <= most,
                out@.len() == 0 || (out@.len() - 1) * batch_size < most,
                start == most ==> out@.len() * batch_size >= most,
                forall|i: int|
                    0 <= i < out@.len() ==> chunk_of(
                        #[trigger] out@[i],
                        *elements,
                        i * batch_size,
                        batch_size as int,
                    ),
            decreases most - start,
        {
            assert(start as int == out@.len() * batch_size);
            let ne = chunk_end(start, batch_size, n);
            let we = chunk_end(start, batch_size, w);
            let re = chunk_end(start, batch_size, rl);
            let b = ElementBatches {
                nodes: if start < n {
                    Some(node_batch_range(elements.nodes.as_slice(), start, ne))
                } else {
                    None
                },
                ways: if start < w {
                    Some(way_batch_range(elements.ways.as_slice(), start, we))
                } else {
                    None
                },
                relations: if start < rl {
                    Some(relation_batch_range(elements.relations.as_slice(), start, re))
                } else {
                    None
                },
            };
            let ghost k = out@.len() as int;
            out.push(b);
            assert((k + 1) * batch_size == k * batch_size + batch_size) by (nonlinear_arith);
            if most - start > batch_size {
                start = start + batch_size;
            } else {
                start = most;
            }
            assert(forall|i: int|
                0 <= i < out@.len() ==> chunk_of(
                    #[trigger] out@[i],
                    *elements,
                    i * batch_size,
                    batch_size as int,
                ));
        }
        proof {
            let bs = batch_size as int;
            let nodes = elements.nodes@;
            let ways = elements.ways@;
            let relations = elements.relations@;
            assert forall|i: int| 0 <= i < out@.len() implies #[trigger] node_part()(out@[i])
                == nodes.subrange(
                min_int(i * bs, n as int),
                min_int(i * bs + bs, n as int),
            ).map_values(node_row_fn()) by {
                assert(chunk_of(out@[i], *elements, i * bs, bs));
                if i * bs >= n {
                    assert(nodes.subrange(n as int, n as int).map_values(node_row_fn())
                        =~= Seq::<NodeRow>::empty());
                }
            }
            assert forall|i: int| 0 <= i < out@.len() implies #[trigger] way_part()(out@[i])
                == ways.subrange(
                min_int(i * bs, w as int),
                min_int(i * bs + bs, w as int),
            ).map_values(way_row_fn()) by {
                assert(chunk_of(out@[i], *elements, i * bs, bs));
                if i * bs >= w {
                    assert(ways.subrange(w as int, w as int).map_values(way_row_fn())
                        =~= Seq::<WayRow>::empty());
                }
            }
            assert forall|i: int| 0 <= i < out@.len() implies #[trigger] relation_part()(out@[i])
                == relations.subrange(
                min_int(i * bs, rl as int),
                min_int(i * bs + bs, rl as int),
            ).map_values(relation_row_fn()) by {
                assert(chunk_of(out@[i], *elements, i * bs, bs));
                if i * bs >= rl {
                    assert(relations.subrange(rl as int, rl as int).map_values(relation_row_fn())
                        =~= Seq::<RelationRow>::empty());
                }
            }
            lemma_batches_cover(out@, nodes, node_row_fn(), node_part(), bs, out@.len() as int);
            lemma_batches_cover(out@, ways, way_row_fn(), way_part(), bs, out@.len() as int);
            lemma_batches_cover(
                out@,
                relations,
                relation_row_fn(),
                relation_part(),
                bs,
                out@.len() as int,
            );
            assert(out@.take(out@.len() as int) =~= out@);
            assert(elements.nodes@.subrange(0, n as int) =~= elements.nodes@);
            assert(elements.ways@.subrange(0, w as int) =~= elements.ways@);
            assert(elements.relations@.subrange(0, rl as int) =~= elements.relations@);
        }
        out
    }
}

} // verus!
