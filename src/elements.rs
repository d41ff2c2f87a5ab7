//! Decoding of primitive blocks into elements: the string table, the
//! coordinate and timestamp scales, tags, the dense node encoding, ways and
//! relations.

use crate::block::{DenseInfo, DenseNodes, Info, Node, PrimitiveBlock, PrimitiveGroup, Relation, Way};
use crate::blobs::DecodeError;
use crate::delta::{all_fit_i64, decoded, delta_decode, fits_i64, ints, ints32};
use crate::types::{
    empty_info, insert_tag, members_view, set_tag, tag_map, TagPair, nodes_view, relations_view, tags_view, ways_view, InfoView,
    MemberView, NodeView, OsmElements, OsmInfo, OsmNode, OsmRelation, OsmRelationMember, OsmWay,
    RelationView, Tag, WayView,
};
use vstd::prelude::*;

verus! {

/// The text that a byte string holds, where it is valid UTF-8.
pub uninterp spec fn utf8_text(b: Seq<u8>) -> Option<Seq<char>>;

/// Relies on `String::from_utf8`: it accepts exactly the valid UTF-8 byte
/// strings, and the text it returns depends on the bytes alone.
#[verifier::external_body]
fn utf8_string(b: &Vec<u8>) -> (r: Option<String>)
    ensures
        r is Some == utf8_text(b@) is Some,
        r matches Some(s) ==> s@ == utf8_text(b@)->0,
{
    String::from_utf8(b.clone()).ok()
}

/// The string table of a block as text, where every entry is valid UTF-8.
pub open spec fn string_table_text(raw: Seq<Vec<u8>>) -> Option<Seq<Seq<char>>> {
    if forall|i: int| 0 <= i < raw.len() ==> (#[trigger] utf8_text(raw[i]@)) is Some {
        Some(Seq::new(raw.len(), |i: int| utf8_text(raw[i]@)->0))
    } else {
        None
    }
}

/// The entry `i` of a string table, where there is one.
pub open spec fn lookup(t: Seq<Seq<char>>, i: int) -> Option<Seq<char>> {
    if 0 <= i < t.len() {
        Some(t[i])
    } else {
        None
    }
}

/// The name of the element kind that a relation member type code denotes.
pub open spec fn member_type_name(code: int) -> Option<Seq<char>> {
    if code == 0 {
        Some("node"@)
    } else if code == 1 {
        Some("way"@)
    } else if code == 2 {
        Some("relation"@)
    } else {
        None
    }
}

pub fn get_node_string() -> (r: String)
    ensures
        r@ == "node"@,
{
    "node".to_owned()
}

pub fn get_way_string() -> (r: String)
    ensures
        r@ == "way"@,
{
    "way".to_owned()
}

pub fn get_relation_string() -> (r: String)
    ensures
        r@ == "relation"@,
{
    "relation".to_owned()
}

/// The scale constants of a block.
#[derive(Debug, Clone, Copy, PartialEq, Eq, Structural)]
pub struct ValueDecoder {
    pub granularity: i64,
    pub lat_offset: i64,
    pub lon_offset: i64,
    pub date_granularity: i64,
}

pub open spec fn or_default_i32(o: Option<i32>, d: i32) -> i32 {
    match o {
        Some(x) => x,
        None => d,
    }
}

pub open spec fn or_default_i64(o: Option<i64>, d: i64) -> i64 {
    match o {
        Some(x) => x,
        None => d,
    }
}

/// The scale constants of a block, with their defaults: granularity 100,
/// offsets 0, date granularity 1000.
pub open spec fn block_scales(b: PrimitiveBlock) -> ValueDecoder {
    ValueDecoder {
        granularity: or_default_i32(b.granularity, 100) as i64,
        lat_offset: or_default_i64(b.lat_offset, 0),
        lon_offset: or_default_i64(b.lon_offset, 0),
        date_granularity: or_default_i32(b.date_granularity, 1000) as i64,
    }
}

/// A coordinate in nanodegrees from its raw value.
pub open spec fn scaled(offset: i64, granularity: i64, raw: int) -> int {
    offset + granularity * raw
}

/// A timestamp from its raw value, where it fits in an `i64`.
pub open spec fn scaled_time(v: ValueDecoder, raw: int) -> Option<i64> {
    let t = raw * v.date_granularity;
    if fits_i64(t) {
        Some(t as i64)
    } else {
        None
    }
}

proof fn lemma_scaled_bounds(offset: i64, granularity: i64, raw: i64)
    ensures
        i128::MIN <= granularity * raw <= i128::MAX,
        i128::MIN <= scaled(offset, granularity, raw as int) <= i128::MAX,
{
    let g = granularity as int;
    let r = raw as int;
    assert(-0x8000_0000_0000_0000 <= g <= 0x7fff_ffff_ffff_ffff);
    assert(-0x8000_0000_0000_0000 <= r <= 0x7fff_ffff_ffff_ffff);
    assert(-0x4000_0000_0000_0000_0000_0000_0000_0000 <= g * r <= 0x4000_0000_0000_0000_0000_0000_0000_0000)
        by (nonlinear_arith)
        requires
            -0x8000_0000_0000_0000 <= g <= 0x7fff_ffff_ffff_ffff,
            -0x8000_0000_0000_0000 <= r <= 0x7fff_ffff_ffff_ffff,
    ;
}

impl ValueDecoder {
    /// The scale constants of `block`, defaults filled in.
    pub fn new(block: &PrimitiveBlock) -> (r: Self)
        ensures
            r == block_scales(*block),
    {
        ValueDecoder {
            granularity: match block.granularity {
                Some(g) => g as i64,
                None => 100,
            },
            lat_offset: match block.lat_offset {
                Some(o) => o,
                None => 0,
            },
            lon_offset: match block.lon_offset {
                Some(o) => o,
                None => 0,
            },
            date_granularity: match block.date_granularity {
                Some(g) => g as i64,
                None => 1000,
            },
        }
    }

    /// Latitude in nanodegrees: `lat_offset + granularity * value`.
    pub fn latitude(&self, value: i64) -> (r: i128)
        ensures
            r as int == scaled(self.lat_offset, self.granularity, value as int),
    {
        proof {
            lemma_scaled_bounds(self.lat_offset, self.granularity, value);
        }
        self.lat_offset as i128 + self.granularity as i128 * value as i128
    }

    /// Longitude in nanodegrees: `lon_offset + granularity * value`.
    pub fn longitude(&self, value: i64) -> (r: i128)
        ensures
            r as int == scaled(self.lon_offset, self.granularity, value as int),
    {
        proof {
            lemma_scaled_bounds(self.lon_offset, self.granularity, value);
        }
        self.lon_offset as i128 + self.granularity as i128 * value as i128
    }

    /// Timestamp: `value * date_granularity`, or `None` where that leaves
    /// the `i64` range.
    pub fn timestamp(&self, value: i64) -> (r: Option<i64>)
        ensures
            r == scaled_time(*self, value as int),
    {
        value.checked_mul(self.date_granularity)
    }
}

/// The metadata of a plain element: absent values read as zero, a missing
/// user index as index 0. `None` where the user index has no entry or the
/// timestamp does not fit.
pub open spec fn info_spec(t: Seq<Seq<char>>, v: ValueDecoder, info: Option<Info>) -> Option<
    InfoView,
> {
    match info {
        None => Some(empty_info()),
        Some(i) => {
            let ts = scaled_time(v, or_default_i64(i.timestamp, 0) as int);
            let sid = lookup(
                t,
                match i.user_sid {
                    Some(s) => s as int,
                    None => 0,
                },
            );
            if ts is Some && sid is Some {
                Some(
                    InfoView {
                        version: or_default_i32(i.version, 0),
                        timestamp: ts->0,
                        changeset: or_default_i64(i.changeset, 0),
                        uid: or_default_i32(i.uid, 0) as i64,
                        user_sid: sid->0,
                    },
                )
            } else {
                None
            }
        },
    }
}

/// The key and value pairs of a plain element, position by position.
pub open spec fn tag_pairs(t: Seq<Seq<char>>, keys: Seq<u32>, vals: Seq<u32>) -> Seq<TagPair> {
    Seq::new(keys.len(), |i: int| (t[keys[i] as int], t[vals[i] as int]))
}

/// The tags of a plain element: key and value at the same position form a
/// pair, set in order, so a repeated key keeps its last value. `None` where
/// the arrays differ in length or an index has no entry.
pub open spec fn tags_spec(t: Seq<Seq<char>>, keys: Seq<u32>, vals: Seq<u32>) -> Option<
    Seq<(Seq<char>, Seq<char>)>,
> {
    if keys.len() == vals.len() && forall|i: int|
        0 <= i < keys.len() ==> (#[trigger] keys[i]) < t.len() && vals[i] < t.len() {
        Some(tag_map(tag_pairs(t, keys, vals)))
    } else {
        None
    }
}

/// The views of a list of tag lists.
pub open spec fn tag_lists_view(s: Seq<Vec<Tag>>) -> Seq<Seq<TagPair>> {
    s.map_values(|v: Vec<Tag>| tags_view(v@))
}

/// `s` extended with empty tag lists up to length `count`.
pub open spec fn pad_tags(s: Seq<Seq<TagPair>>, count: int) -> Seq<Seq<TagPair>> {
    s + Seq::new((count - s.len()) as nat, |i: int| Seq::<TagPair>::empty())
}

/// The scan of a flattened dense tag array from position `i`, with the tag
/// lists of the nodes already closed in `done` and the pairs of the current
/// node in `cur`. A `0` closes the current node; any other entry starts a
/// (key, value) pair set in the current node's tags. Zeros past the last node are
/// ignored; a pair past it, a pair cut short or an index without an entry
/// is malformed.
pub open spec fn dense_scan(
    t: Seq<Seq<char>>,
    kv: Seq<i32>,
    count: int,
    i: int,
    done: Seq<Seq<TagPair>>,
    cur: Seq<TagPair>,
) -> Option<Seq<Seq<TagPair>>>
    decreases kv.len() - i,
{
    if i >= kv.len() || i < 0 {
        if done.len() < count {
            Some(pad_tags(done.push(cur), count))
        } else {
            Some(done)
        }
    } else if kv[i] == 0 {
        dense_scan(
            t,
            kv,
            count,
            i + 1,
            if done.len() < count {
                done.push(cur)
            } else {
                done
            },
            Seq::empty(),
        )
    } else if i + 1 >= kv.len() || done.len() >= count {
        None
    } else {
        match (lookup(t, kv[i] as int), lookup(t, kv[i + 1] as int)) {
            (Some(k), Some(v)) => dense_scan(t, kv, count, i + 2, done, set_tag(cur, k, v)),
            _ => None,
        }
    }
}

proof fn lemma_dense_scan_len(
    t: Seq<Seq<char>>,
    kv: Seq<i32>,
    count: int,
    i: int,
    done: Seq<Seq<TagPair>>,
    cur: Seq<TagPair>,
)
    requires
        done.len() <= count,
    ensures
        dense_scan(t, kv, count, i, done, cur) matches Some(r) ==> r.len() == count,
    decreases kv.len() - i,
{
    if i >= kv.len() || i < 0 {
    } else if kv[i] == 0 {
        let next = if done.len() < count {
            done.push(cur)
        } else {
            done
        };
        lemma_dense_scan_len(t, kv, count, i + 1, next, Seq::empty());
    } else if i + 1 >= kv.len() || done.len() >= count {
    } else {
        match (lookup(t, kv[i] as int), lookup(t, kv[i + 1] as int)) {
            (Some(k), Some(v)) => lemma_dense_scan_len(t, kv, count, i + 2, done, set_tag(cur, k, v)),
            _ => {},
        }
    }
}

/// The tag lists of `count` dense nodes from their flattened array.
pub open spec fn dense_tags_spec(t: Seq<Seq<char>>, kv: Seq<i32>, count: int) -> Option<
    Seq<Seq<TagPair>>,
> {
    dense_scan(t, kv, count, 0, Seq::empty(), Seq::empty())
}

/// The metadata of `count` dense nodes: every stream has one entry per
/// node; version is taken as it is, the other streams are delta-decoded.
pub open spec fn dense_info_spec(t: Seq<Seq<char>>, v: ValueDecoder, di: DenseInfo, count: int) -> Option<
    Seq<InfoView>,
> {
    let ts = decoded(ints(di.timestamp@));
    let cs = decoded(ints(di.changeset@));
    let uid = decoded(ints32(di.uid@));
    let sid = decoded(ints32(di.user_sid@));
    if di.version@.len() == count && di.timestamp@.len() == count && di.changeset@.len() == count
        && di.uid@.len() == count && di.user_sid@.len() == count && all_fit_i64(ts) && all_fit_i64(
        cs,
    ) && all_fit_i64(uid) && all_fit_i64(sid) && (forall|i: int|
        0 <= i < count ==> scaled_time(v, #[trigger] ts[i]) is Some) && (forall|i: int|
        0 <= i < count ==> lookup(t, #[trigger] sid[i]) is Some) {
        Some(
            Seq::new(
                count as nat,
                |i: int|
                    InfoView {
                        version: di.version@[i],
                        timestamp: scaled_time(v, ts[i])->0,
                        changeset: cs[i] as i64,
                        uid: uid[i] as i64,
                        user_sid: lookup(t, sid[i])->0,
                    },
            ),
        )
    } else {
        None
    }
}

/// Dense nodes: ids and coordinates delta-decoded in lockstep, one entry
/// per id in each stream, zipped with their tags and metadata (all absent
/// where the block gives none).
pub open spec fn dense_nodes_spec(t: Seq<Seq<char>>, v: ValueDecoder, dn: DenseNodes) -> Option<
    Seq<NodeView>,
> {
    let count = dn.id@.len() as int;
    let ids = decoded(ints(dn.id@));
    let lats = decoded(ints(dn.lat@));
    let lons = decoded(ints(dn.lon@));
    let tags = dense_tags_spec(t, dn.keys_vals@, count);
    let infos = match dn.denseinfo {
        None => Some(Seq::new(count as nat, |i: int| empty_info())),
        Some(di) => dense_info_spec(t, v, di, count),
    };
    if dn.lat@.len() == count && dn.lon@.len() == count && all_fit_i64(ids) && all_fit_i64(lats)
        && all_fit_i64(lons) && tags is Some && infos is Some {
        Some(
            Seq::new(
                count as nat,
                |i: int|
                    NodeView {
                        id: ids[i] as i64,
                        info: infos->0[i],
                        tags: tags->0[i],
                        latitude: scaled(v.lat_offset, v.granularity, lats[i]),
                        longitude: scaled(v.lon_offset, v.granularity, lons[i]),
                    },
            ),
        )
    } else {
        None
    }
}

/// A plain node.
pub open spec fn node_spec(t: Seq<Seq<char>>, v: ValueDecoder, n: Node) -> Option<NodeView> {
    match (info_spec(t, v, n.info), tags_spec(t, n.keys@, n.vals@)) {
        (Some(i), Some(tg)) => Some(
            NodeView {
                id: n.id,
                info: i,
                tags: tg,
                latitude: scaled(v.lat_offset, v.granularity, n.lat as int),
                longitude: scaled(v.lon_offset, v.granularity, n.lon as int),
            },
        ),
        _ => None,
    }
}

/// A way: its node ids are one delta-coded stream.
pub open spec fn way_spec(t: Seq<Seq<char>>, v: ValueDecoder, w: Way) -> Option<WayView> {
    let refs = decoded(ints(w.refs@));
    match (info_spec(t, v, w.info), tags_spec(t, w.keys@, w.vals@)) {
        (Some(i), Some(tg)) => if all_fit_i64(refs) {
            Some(WayView { id: w.id, info: i, tags: tg, nodes: refs })
        } else {
            None
        },
        _ => None,
    }
}

/// The members of a relation: roles, delta-coded ids and type codes zipped
/// position by position; the three arrays have one length.
pub open spec fn members_spec(t: Seq<Seq<char>>, roles: Seq<i32>, memids: Seq<i64>, types: Seq<i32>) -> Option<
    Seq<MemberView>,
> {
    let ids = decoded(ints(memids));
    let n = roles.len();
    if memids.len() == n && types.len() == n && all_fit_i64(ids) && (forall|i: int|
        0 <= i < n ==> lookup(t, #[trigger] roles[i] as int) is Some) && (forall|i: int|
        0 <= i < n ==> member_type_name(#[trigger] types[i] as int) is Some) {
        Some(
            Seq::new(
                n,
                |i: int|
                    MemberView {
                        role: lookup(t, roles[i] as int)->0,
                        id: ids[i] as i64,
                        member_type: member_type_name(types[i] as int)->0,
                    },
            ),
        )
    } else {
        None
    }
}

/// A relation.
pub open spec fn relation_spec(t: Seq<Seq<char>>, v: ValueDecoder, r: Relation) -> Option<
    RelationView,
> {
    match (
        info_spec(t, v, r.info),
        tags_spec(t, r.keys@, r.vals@),
        members_spec(t, r.roles_sid@, r.memids@, r.types@),
    ) {
        (Some(i), Some(tg), Some(m)) => Some(
            RelationView { id: r.id, info: i, tags: tg, members: m },
        ),
        _ => None,
    }
}

/// `f` applied to each item, where it succeeds on all of them.
pub open spec fn all_some<A, B>(s: Seq<A>, f: spec_fn(A) -> Option<B>) -> Option<Seq<B>>
    decreases s.len(),
{
    if s.len() == 0 {
        Some(Seq::empty())
    } else {
        match all_some(s.drop_last(), f) {
            Some(a) => match f(s.last()) {
                Some(b) => Some(a.push(b)),
                None => None,
            },
            None => None,
        }
    }
}

/// The concatenation of `f` applied to each item, where it succeeds on all
/// of them.
pub open spec fn concat_some<A, B>(s: Seq<A>, f: spec_fn(A) -> Option<Seq<B>>) -> Option<Seq<B>>
    decreases s.len(),
{
    if s.len() == 0 {
        Some(Seq::empty())
    } else {
        match concat_some(s.drop_last(), f) {
            Some(a) => match f(s.last()) {
                Some(b) => Some(a + b),
                None => None,
            },
            None => None,
        }
    }
}

pub open spec fn node_fn(t: Seq<Seq<char>>, v: ValueDecoder) -> spec_fn(Node) -> Option<NodeView> {
    |n: Node| node_spec(t, v, n)
}

pub open spec fn way_fn(t: Seq<Seq<char>>, v: ValueDecoder) -> spec_fn(Way) -> Option<WayView> {
    |w: Way| way_spec(t, v, w)
}

pub open spec fn relation_fn(t: Seq<Seq<char>>, v: ValueDecoder) -> spec_fn(Relation) -> Option<
    RelationView,
> {
    |r: Relation| relation_spec(t, v, r)
}

/// The nodes of a group: its plain nodes, then its dense nodes.
pub open spec fn group_nodes_spec(t: Seq<Seq<char>>, v: ValueDecoder, g: PrimitiveGroup) -> Option<
    Seq<NodeView>,
> {
    match all_some(g.nodes@, node_fn(t, v)) {
        None => None,
        Some(plain) => match g.dense {
            None => Some(plain),
            Some(d) => match dense_nodes_spec(t, v, d) {
                Some(dense) => Some(plain + dense),
                None => None,
            },
        },
    }
}

pub open spec fn group_nodes_fn(t: Seq<Seq<char>>, v: ValueDecoder) -> spec_fn(PrimitiveGroup) -> Option<
    Seq<NodeView>,
> {
    |g: PrimitiveGroup| group_nodes_spec(t, v, g)
}

pub open spec fn group_ways_fn(t: Seq<Seq<char>>, v: ValueDecoder) -> spec_fn(PrimitiveGroup) -> Option<
    Seq<WayView>,
> {
    |g: PrimitiveGroup| all_some(g.ways@, way_fn(t, v))
}

pub open spec fn group_relations_fn(t: Seq<Seq<char>>, v: ValueDecoder) -> spec_fn(PrimitiveGroup) -> Option<
    Seq<RelationView>,
> {
    |g: PrimitiveGroup| all_some(g.relations@, relation_fn(t, v))
}

/// The nodes of a block's groups, group by group.
pub open spec fn block_nodes_spec(t: Seq<Seq<char>>, v: ValueDecoder, gs: Seq<PrimitiveGroup>) -> Option<
    Seq<NodeView>,
> {
    concat_some(gs, group_nodes_fn(t, v))
}

/// The ways of a block's groups, group by group.
pub open spec fn block_ways_spec(t: Seq<Seq<char>>, v: ValueDecoder, gs: Seq<PrimitiveGroup>) -> Option<
    Seq<WayView>,
> {
    concat_some(gs, group_ways_fn(t, v))
}

/// The relations of a block's groups, group by group.
pub open spec fn block_relations_spec(t: Seq<Seq<char>>, v: ValueDecoder, gs: Seq<PrimitiveGroup>) -> Option<
    Seq<RelationView>,
> {
    concat_some(gs, group_relations_fn(t, v))
}

proof fn lemma_all_some_prefix<A, B>(s: Seq<A>, f: spec_fn(A) -> Option<B>, k: int)
    requires
        0 <= k <= s.len(),
        all_some(s.take(k), f) is None,
    ensures
        all_some(s, f) is None,
    decreases s.len() - k,
{
    if k < s.len() {
        assert(s.take(k + 1).drop_last() =~= s.take(k));
        lemma_all_some_prefix(s, f, k + 1);
    } else {
        assert(s.take(k) =~= s);
    }
}

proof fn lemma_concat_prefix<A, B>(s: Seq<A>, f: spec_fn(A) -> Option<Seq<B>>, k: int)
    requires
        0 <= k <= s.len(),
        concat_some(s.take(k), f) is None,
    ensures
        concat_some(s, f) is None,
    decreases s.len() - k,
{
    if k < s.len() {
        assert(s.take(k + 1).drop_last() =~= s.take(k));
        lemma_concat_prefix(s, f, k + 1);
    } else {
        assert(s.take(k) =~= s);
    }
}

/// The elements of a block: nodes, ways and relations, each in source
/// order. `None` where the block breaks an encoding rule.
pub open spec fn block_spec(b: PrimitiveBlock) -> Option<
    (Seq<NodeView>, Seq<WayView>, Seq<RelationView>),
> {
    match string_table_text(b.stringtable@) {
        None => None,
        Some(t) => {
            let v = block_scales(b);
            match (
                block_nodes_spec(t, v, b.primitivegroup@),
                block_ways_spec(t, v, b.primitivegroup@),
                block_relations_spec(t, v, b.primitivegroup@),
            ) {
                (Some(n), Some(w), Some(r)) => Some((n, w, r)),
                _ => None,
            }
        },
    }
}

/// Widens a stream of `i32` to `i64`.
fn widen(v: &Vec<i32>) -> (r: Vec<i64>)
    ensures
        ints(r@) == ints32(v@),
{
    let mut out: Vec<i64> = Vec::with_capacity(v.len());
    let mut i: usize = 0;
    while i < v.len()
        invariant
            i <= v@.len(),
            out@.len() == i,
            forall|j: int| 0 <= j < i ==> (#[trigger] out@[j]) as int == v@[j] as int,
        decreases v.len() - i,
    {
        out.push(v[i] as i64);
        i = i + 1;
    }
    assert(ints(out@) =~= ints32(v@));
    out
}

/// Decodes the elements of one block against its string table.
pub struct PrimitiveBlockDecoder {
    strings: Vec<String>,
    decoder: ValueDecoder,
}

impl PrimitiveBlockDecoder {
    /// The string table as text.
    pub closed spec fn table(&self) -> Seq<Seq<char>> {
        self.strings@.map_values(|s: String| s@)
    }

    /// The scale constants.
    pub closed spec fn scales(&self) -> ValueDecoder {
        self.decoder
    }

    /// A decoder for `block`; fails where an entry of its string table is
    /// not valid UTF-8.
    pub fn new(block: &PrimitiveBlock) -> (r: Result<PrimitiveBlockDecoder, DecodeError>)
        ensures
            string_table_text(block.stringtable@) is None ==> r == Err::<
                PrimitiveBlockDecoder,
                DecodeError,
            >(DecodeError::MalformedBlock),
            string_table_text(block.stringtable@) matches Some(t) ==> (r matches Ok(d) && d.table()
                == t && d.scales() == block_scales(*block)),
    {
        let strings = match Self::string_table(block) {
            Some(s) => s,
            None => {
                return Err(DecodeError::MalformedBlock);
            },
        };
        Ok(PrimitiveBlockDecoder { strings, decoder: ValueDecoder::new(block) })
    }

    fn string_table(block: &PrimitiveBlock) -> (r: Option<Vec<String>>)
        ensures
            r is Some == string_table_text(block.stringtable@) is Some,
            r matches Some(v) ==> v@.map_values(|s: String| s@) == string_table_text(
                block.stringtable@,
            )->0,
    {
        let raw = &block.stringtable;
        let mut out: Vec<String> = Vec::with_capacity(raw.len());
        let mut i: usize = 0;
        while i < raw.len()
            invariant
                i <= raw@.len(),
                raw == &block.stringtable,
                out@.len() == i,
                forall|j: int| 0 <= j < i ==> utf8_text(#[trigger] raw@[j]@) is Some,
                forall|j: int| 0 <= j < i ==> (#[trigger] out@[j])@ == utf8_text(raw@[j]@)->0,
            decreases raw.len() - i,
        {
            match utf8_string(&raw[i]) {
                Some(s) => {
                    out.push(s);
                },
                None => {
                    return None;
                },
            }
            i = i + 1;
        }
        assert(out@.map_values(|s: String| s@) =~= string_table_text(block.stringtable@)->0);
        Some(out)
    }

    /// The entry `index` of the string table.
    pub fn decode_string(&self, index: usize) -> (r: String)
        requires
            index < self.table().len(),
        ensures
            r@ == self.table()[index as int],
    {
        self.strings[index].clone()
    }

    /// The entry `index` of the string table, or `None` where there is none.
    fn lookup_string(&self, index: i64) -> (r: Option<String>)
        ensures
            r is Some == lookup(self.table(), index as int) is Some,
            r matches Some(s) ==> s@ == lookup(self.table(), index as int)->0,
    {
        if index < 0 {
            return None;
        }
        let u = index as u64;
        if u < self.strings.len() as u64 {
            Some(self.decode_string(u as usize))
        } else {
            None
        }
    }

    /// Decodes the metadata of a plain element.
    pub fn decode_info(&self, info: &Option<Info>) -> (r: Result<OsmInfo, DecodeError>)
        ensures
            r is Ok == info_spec(self.table(), self.scales(), *info) is Some,
            r matches Ok(x) ==> x@ == info_spec(self.table(), self.scales(), *info)->0,
            r matches Err(e) ==> e == DecodeError::MalformedBlock,
    {
        match info {
            None => Ok(OsmInfo::empty()),
            Some(i) => {
                let raw_time = match i.timestamp {
                    Some(x) => x,
                    None => 0,
                };
                let timestamp = match self.decoder.timestamp(raw_time) {
                    Some(x) => x,
                    None => {
                        return Err(DecodeError::MalformedBlock);
                    },
                };
                let sid: i64 = match i.user_sid {
                    Some(s) => s as i64,
                    None => 0,
                };
                let user_sid = match self.lookup_string(sid) {
                    Some(s) => s,
                    None => {
                        return Err(DecodeError::MalformedBlock);
                    },
                };
                Ok(
                    OsmInfo {
                        version: match i.version {
                            Some(x) => x,
                            None => 0,
                        },
                        timestamp,
                        changeset: match i.changeset {
                            Some(x) => x,
                            None => 0,
                        },
                        uid: match i.uid {
                            Some(x) => x as i64,
                            None => 0,
                        },
                        user_sid,
                    },
                )
            },
        }
    }

    /// Decodes the tags of a plain element from its key and value indices.
    fn decode_tags(&self, keys: &Vec<u32>, values: &Vec<u32>) -> (r: Result<Vec<Tag>, DecodeError>)
        ensures
            r is Ok == tags_spec(self.table(), keys@, values@) is Some,
            r matches Ok(x) ==> tags_view(x@) == tags_spec(self.table(), keys@, values@)->0,
            r matches Err(e) ==> e == DecodeError::MalformedBlock,
    {
        if keys.len() != values.len() {
            return Err(DecodeError::MalformedBlock);
        }
        let mut out: Vec<Tag> = Vec::with_capacity(keys.len());
        let mut i: usize = 0;
        assert(tags_view(out@) =~= Seq::<TagPair>::empty());
        assert(tag_pairs(self.table(), keys@, values@).take(0) =~= Seq::<TagPair>::empty());
        while i < keys.len()
            invariant
                i <= keys@.len(),
                keys@.len() == values@.len(),
                forall|j: int|
                    0 <= j < i ==> (#[trigger] keys@[j]) < self.table().len() && values@[j]
                        < self.table().len(),
                tags_view(out@) == tag_map(
                    tag_pairs(self.table(), keys@, values@).take(i as int),
                ),
            decreases keys.len() - i,
        {
            let ghost pairs = tag_pairs(self.table(), keys@, values@);
            let k = keys[i] as usize;
            let v = values[i] as usize;
            if k >= self.strings.len() || v >= self.strings.len() {
                return Err(DecodeError::MalformedBlock);
            }
            assert(pairs.take(i + 1).drop_last() =~= pairs.take(i as int));
            assert(pairs.take(i + 1).last() == pairs[i as int]);
            insert_tag(&mut out, Tag { key: self.decode_string(k), value: self.decode_string(v) });
            i = i + 1;
        }
        assert(tag_pairs(self.table(), keys@, values@).take(i as int) =~= tag_pairs(
            self.table(),
            keys@,
            values@,
        ));
        Ok(out)
    }

    /// Decodes the tag lists of `count` dense nodes from their flattened
    /// `key_val` array.
    pub fn decode_dense_tags(&self, key_vals: &Vec<i32>, count: usize) -> (r: Result<
        Vec<Vec<Tag>>,
        DecodeError,
    >)
        ensures
            r is Ok == dense_tags_spec(self.table(), key_vals@, count as int) is Some,
            r matches Ok(x) ==> tag_lists_view(x@) == dense_tags_spec(
                self.table(),
                key_vals@,
                count as int,
            )->0,
            r matches Err(e) ==> e == DecodeError::MalformedBlock,
    {
        let ghost t = self.table();
        let ghost kv = key_vals@;
        let ghost c = count as int;
        let mut done: Vec<Vec<Tag>> = Vec::with_capacity(count);
        let mut cur: Vec<Tag> = Vec::new();
        let mut i: usize = 0;
        assert(tag_lists_view(done@) =~= Seq::<Seq<TagPair>>::empty());
        assert(tags_view(cur@) =~= Seq::<TagPair>::empty());
        while i < key_vals.len()
            invariant
                t == self.table(),
                kv == key_vals@,
                c == count as int,
                i <= kv.len(),
                done@.len() <= count,
                dense_scan(t, kv, c, i as int, tag_lists_view(done@), tags_view(cur@))
                    == dense_tags_spec(t, kv, c),
            decreases key_vals.len() - i,
        {
            if key_vals[i] == 0 {
                if done.len() < count {
                    proof {
                        assert(tag_lists_view(done@.push(cur)) =~= tag_lists_view(done@).push(
                            tags_view(cur@),
                        ));
                    }
                    done.push(cur);
                }
                cur = Vec::new();
                proof {
                    assert(tags_view(cur@) =~= Seq::<TagPair>::empty());
                }
                i = i + 1;
            } else {
                if i + 1 >= key_vals.len() || done.len() >= count {
                    return Err(DecodeError::MalformedBlock);
                }
                let key = match self.lookup_string(key_vals[i] as i64) {
                    Some(k) => k,
                    None => {
                        return Err(DecodeError::MalformedBlock);
                    },
                };
                let value = match self.lookup_string(key_vals[i + 1] as i64) {
                    Some(v) => v,
                    None => {
                        return Err(DecodeError::MalformedBlock);
                    },
                };
                insert_tag(&mut cur, Tag { key, value });
                i = i + 2;
            }
        }
        if done.len() < count {
            proof {
                assert(tag_lists_view(done@.push(cur)) =~= tag_lists_view(done@).push(
                    tags_view(cur@),
                ));
            }
            done.push(cur);
            let ghost base = tag_lists_view(done@);
            while done.len() < count
                invariant
                    base.len() <= done@.len() <= count,
                    tag_lists_view(done@) =~= pad_tags(base, done@.len() as int),
                decreases count - done.len(),
            {
                let empty: Vec<Tag> = Vec::new();
                proof {
                    assert(tags_view(empty@) =~= Seq::<TagPair>::empty());
                    assert(tag_lists_view(done@.push(empty)) =~= tag_lists_view(done@).push(
                        tags_view(empty@),
                    ));
                }
                done.push(empty);
            }
        }
        Ok(done)
    }

    /// Decodes the metadata of `count` dense nodes.
    fn decode_dense_info(&self, info: &DenseInfo, count: usize) -> (r: Result<Vec<OsmInfo>, DecodeError>)
        ensures
            r is Ok == dense_info_spec(self.table(), self.scales(), *info, count as int) is Some,
            r matches Ok(x) ==> x@.map_values(|i: OsmInfo| i@) == dense_info_spec(
                self.table(),
                self.scales(),
                *info,
                count as int,
            )->0,
            r matches Err(e) ==> e == DecodeError::MalformedBlock,
    {
        if info.version.len() != count || info.timestamp.len() != count || info.changeset.len()
            != count || info.uid.len() != count || info.user_sid.len() != count {
            return Err(DecodeError::MalformedBlock);
        }
        let timestamps = match delta_decode(info.timestamp.as_slice()) {
            Some(v) => v,
            None => {
                return Err(DecodeError::MalformedBlock);
            },
        };
        let changesets = match delta_decode(info.changeset.as_slice()) {
            Some(v) => v,
            None => {
                return Err(DecodeError::MalformedBlock);
            },
        };
        let uid_deltas = widen(&info.uid);
        let uids = match delta_decode(uid_deltas.as_slice()) {
            Some(v) => v,
            None => {
                return Err(DecodeError::MalformedBlock);
            },
        };
        let sid_deltas = widen(&info.user_sid);
        let sids = match delta_decode(sid_deltas.as_slice()) {
            Some(v) => v,
            None => {
                return Err(DecodeError::MalformedBlock);
            },
        };
        let ghost ts = decoded(ints(info.timestamp@));
        let ghost sid = decoded(ints32(info.user_sid@));
        assert(ints(timestamps@).len() == count);
        assert(ints(sids@).len() == count);
        assert(ints(changesets@).len() == count);
        assert(ints(uid_deltas@).len() == count);
        assert(ints(uids@).len() == count);
        let mut out: Vec<OsmInfo> = Vec::with_capacity(count);
        let mut i: usize = 0;
        while i < count
            invariant
                i <= count,
                out@.len() == i,
                timestamps@.len() == count,
                changesets@.len() == count,
                uids@.len() == count,
                sids@.len() == count,
                info.version@.len() == count,
                ints(timestamps@) == decoded(ints(info.timestamp@)),
                ints(changesets@) == decoded(ints(info.changeset@)),
                ints(uids@) == decoded(ints32(info.uid@)),
                ints(sids@) == decoded(ints32(info.user_sid@)),
                ts == decoded(ints(info.timestamp@)),
                sid == decoded(ints32(info.user_sid@)),
                forall|j: int| 0 <= j < i ==> scaled_time(self.scales(), #[trigger] ts[j]) is Some,
                forall|j: int| 0 <= j < i ==> lookup(self.table(), #[trigger] sid[j]) is Some,
                forall|j: int|
                    0 <= j < i ==> (#[trigger] out@[j])@ == (InfoView {
                        version: info.version@[j],
                        timestamp: scaled_time(self.scales(), ts[j])->0,
                        changeset: changesets@[j],
                        uid: uids@[j],
                        user_sid: lookup(self.table(), sid[j])->0,
                    }),
            decreases count - i,
        {
            assert(ints(timestamps@)[i as int] == timestamps@[i as int] as int);
            assert(ints(sids@)[i as int] == sids@[i as int] as int);
            let timestamp = match self.decoder.timestamp(timestamps[i]) {
                Some(x) => x,
                None => {
                    return Err(DecodeError::MalformedBlock);
                },
            };
            let user_sid = match self.lookup_string(sids[i]) {
                Some(x) => x,
                None => {
                    return Err(DecodeError::MalformedBlock);
                },
            };
            out.push(
                OsmInfo {
                    version: info.version[i],
                    timestamp,
                    changeset: changesets[i],
                    uid: uids[i],
                    user_sid,
                },
            );
            i = i + 1;
        }
        proof {
            let spec = dense_info_spec(self.table(), self.scales(), *info, count as int);
            assert(spec is Some);
            assert forall|j: int| 0 <= j < count implies (#[trigger] out@[j])@ == spec->0[j] by {
                assert(ints(changesets@)[j] == changesets@[j] as int);
                assert(ints(uids@)[j] == uids@[j] as int);
            }
            assert(out@.map_values(|i: OsmInfo| i@) =~= spec->0);
        }
        Ok(out)
    }

    /// Decodes a plain node.
    pub fn decode_node(&self, node: &Node) -> (r: Result<OsmNode, DecodeError>)
        ensures
            r is Ok == node_spec(self.table(), self.scales(), *node) is Some,
            r matches Ok(x) ==> x@ == node_spec(self.table(), self.scales(), *node)->0,
            r matches Err(e) ==> e == DecodeError::MalformedBlock,
    {
        let info = self.decode_info(&node.info)?;
        let tags = self.decode_tags(&node.keys, &node.vals)?;
        Ok(
            OsmNode {
                id: node.id,
                info,
                tags,
                latitude: self.decoder.latitude(node.lat),
                longitude: self.decoder.longitude(node.lon),
            },
        )
    }

    /// Decodes dense nodes.
    pub fn decode_dense_nodes(&self, nodes: &DenseNodes) -> (r: Result<Vec<OsmNode>, DecodeError>)
        ensures
            r is Ok == dense_nodes_spec(self.table(), self.scales(), *nodes) is Some,
            r matches Ok(x) ==> nodes_view(x@) == dense_nodes_spec(
                self.table(),
                self.scales(),
                *nodes,
            )->0,
            r matches Err(e) ==> e == DecodeError::MalformedBlock,
    {
        let count = nodes.id.len();
        if nodes.lat.len() != count || nodes.lon.len() != count {
            return Err(DecodeError::MalformedBlock);
        }
        let ids = match delta_decode(nodes.id.as_slice()) {
            Some(v) => v,
            None => {
                return Err(DecodeError::MalformedBlock);
            },
        };
        let lats = match delta_decode(nodes.lat.as_slice()) {
            Some(v) => v,
            None => {
                return Err(DecodeError::MalformedBlock);
            },
        };
        let lons = match delta_decode(nodes.lon.as_slice()) {
            Some(v) => v,
            None => {
                return Err(DecodeError::MalformedBlock);
            },
        };
        let mut tags = self.decode_dense_tags(&nodes.keys_vals, count)?;
        let mut infos: Vec<OsmInfo> = match &nodes.denseinfo {
            Some(info) => self.decode_dense_info(info, count)?,
            None => {
                let mut v: Vec<OsmInfo> = Vec::with_capacity(count);
                let mut k: usize = 0;
                while k < count
                    invariant
                        k <= count,
                        v@.len() == k,
                        forall|j: int| 0 <= j < k ==> (#[trigger] v@[j])@ == empty_info(),
                    decreases count - k,
                {
                    v.push(OsmInfo::empty());
                    k = k + 1;
                }
                proof {
                    assert(v@.map_values(|i: OsmInfo| i@) =~= Seq::new(
                        count as nat,
                        |i: int| empty_info(),
                    ));
                }
                v
            },
        };
        proof {
            lemma_dense_scan_len(
                self.table(),
                nodes.keys_vals@,
                count as int,
                0,
                Seq::empty(),
                Seq::empty(),
            );
        }
        let ghost spec_tags = tag_lists_view(tags@);
        let ghost spec_infos = infos@.map_values(|i: OsmInfo| i@);
        assert(ints(ids@).len() == count && ints(lats@).len() == count && ints(lons@).len()
            == count);
        assert(spec_tags.len() == count && spec_infos.len() == count);
        // Consume the per-node lists from the back, then restore source order.
        let mut rev: Vec<OsmNode> = Vec::with_capacity(count);
        let mut i: usize = count;
        while i > 0
            invariant
                i <= count,
                tags@.len() == i,
                infos@.len() == i,
                ids@.len() == count,
                lats@.len() == count,
                lons@.len() == count,
                rev@.len() == count - i,
                forall|j: int| 0 <= j < i ==> tags_view((#[trigger] tags@[j])@) == spec_tags[j],
                forall|j: int| 0 <= j < i ==> (#[trigger] infos@[j])@ == spec_infos[j],
                forall|j: int|
                    0 <= j < count - i ==> (#[trigger] rev@[j])@ == (NodeView {
                        id: ids@[count - 1 - j],
                        info: spec_infos[count - 1 - j],
                        tags: spec_tags[count - 1 - j],
                        latitude: scaled(
                            self.scales().lat_offset,
                            self.scales().granularity,
                            lats@[count - 1 - j] as int,
                        ),
                        longitude: scaled(
                            self.scales().lon_offset,
                            self.scales().granularity,
                            lons@[count - 1 - j] as int,
                        ),
                    }),
            decreases i,
        {
            i = i - 1;
            let node_tags = tags.pop().unwrap();
            let info = infos.pop().unwrap();
            rev.push(
                OsmNode {
                    id: ids[i],
                    info,
                    tags: node_tags,
                    latitude: self.decoder.latitude(lats[i]),
                    longitude: self.decoder.longitude(lons[i]),
                },
            );
        }
        let mut out: Vec<OsmNode> = Vec::with_capacity(count);
        while rev.len() > 0
            invariant
                out@.len() + rev@.len() == count,
                forall|j: int|
                    0 <= j < rev@.len() ==> (#[trigger] rev@[j])@ == (NodeView {
                        id: ids@[count - 1 - j],
                        info: spec_infos[count - 1 - j],
                        tags: spec_tags[count - 1 - j],
                        latitude: scaled(
                            self.scales().lat_offset,
                            self.scales().granularity,
                            lats@[count - 1 - j] as int,
                        ),
                        longitude: scaled(
                            self.scales().lon_offset,
                            self.scales().granularity,
                            lons@[count - 1 - j] as int,
                        ),
                    }),
                forall|j: int|
                    0 <= j < out@.len() ==> (#[trigger] out@[j])@ == (NodeView {
                        id: ids@[j],
                        info: spec_infos[j],
                        tags: spec_tags[j],
                        latitude: scaled(
                            self.scales().lat_offset,
                            self.scales().granularity,
                            lats@[j] as int,
                        ),
                        longitude: scaled(
                            self.scales().lon_offset,
                            self.scales().granularity,
                            lons@[j] as int,
                        ),
                    }),
            decreases rev@.len(),
        {
            let n = rev.pop().unwrap();
            out.push(n);
        }
        proof {
            let spec = dense_nodes_spec(self.table(), self.scales(), *nodes);
            assert(spec is Some);
            assert forall|j: int| 0 <= j < count implies (#[trigger] out@[j])@ == spec->0[j] by {
                assert(ints(ids@)[j] == ids@[j] as int);
                assert(ints(lats@)[j] == lats@[j] as int);
                assert(ints(lons@)[j] == lons@[j] as int);
            }
            assert(nodes_view(out@) =~= spec->0);
        }
        Ok(out)
    }

    /// Decodes a way.
    pub fn decode_way(&self, way: &Way) -> (r: Result<OsmWay, DecodeError>)
        ensures
            r is Ok == way_spec(self.table(), self.scales(), *way) is Some,
            r matches Ok(x) ==> x@ == way_spec(self.table(), self.scales(), *way)->0,
            r matches Err(e) ==> e == DecodeError::MalformedBlock,
    {
        let info = self.decode_info(&way.info)?;
        let tags = self.decode_tags(&way.keys, &way.vals)?;
        let nodes = match delta_decode(way.refs.as_slice()) {
            Some(v) => v,
            None => {
                return Err(DecodeError::MalformedBlock);
            },
        };
        Ok(OsmWay { id: way.id, info, tags, nodes })
    }

    /// The name of the element kind that a member type code denotes.
    fn get_relation_member_type(&self, member_type: i32) -> (r: Option<String>)
        ensures
            r is Some == member_type_name(member_type as int) is Some,
            r matches Some(s) ==> s@ == member_type_name(member_type as int)->0,
    {
        if member_type == 0 {
            Some(get_node_string())
        } else if member_type == 1 {
            Some(get_way_string())
        } else if member_type == 2 {
            Some(get_relation_string())
        } else {
            None
        }
    }

    /// Decodes the members of a relation from its parallel arrays.
    fn decode_relation_members(&self, roles: &Vec<i32>, member_ids: &Vec<i64>, member_types: &Vec<i32>) -> (r: Result<
        Vec<OsmRelationMember>,
        DecodeError,
    >)
        ensures
            r is Ok == members_spec(self.table(), roles@, member_ids@, member_types@) is Some,
            r matches Ok(x) ==> members_view(x@) == members_spec(
                self.table(),
                roles@,
                member_ids@,
                member_types@,
            )->0,
            r matches Err(e) ==> e == DecodeError::MalformedBlock,
    {
        let n = roles.len();
        if member_ids.len() != n || member_types.len() != n {
            return Err(DecodeError::MalformedBlock);
        }
        let ids = match delta_decode(member_ids.as_slice()) {
            Some(v) => v,
            None => {
                return Err(DecodeError::MalformedBlock);
            },
        };
        assert(ints(ids@).len() == n);
        let mut out: Vec<OsmRelationMember> = Vec::with_capacity(n);
        let mut i: usize = 0;
        while i < n
            invariant
                i <= n,
                n == roles@.len(),
                member_types@.len() == n,
                ids@.len() == n,
                out@.len() == i,
                forall|j: int| 0 <= j < i ==> lookup(self.table(), #[trigger] roles@[j] as int) is Some,
                forall|j: int| 0 <= j < i ==> member_type_name(#[trigger] member_types@[j] as int) is Some,
                forall|j: int|
                    0 <= j < i ==> (#[trigger] out@[j])@ == (MemberView {
                        role: lookup(self.table(), roles@[j] as int)->0,
                        id: ids@[j],
                        member_type: member_type_name(member_types@[j] as int)->0,
                    }),
            decreases n - i,
        {
            let role = match self.lookup_string(roles[i] as i64) {
                Some(s) => s,
                None => {
                    return Err(DecodeError::MalformedBlock);
                },
            };
            let member_type = match self.get_relation_member_type(member_types[i]) {
                Some(s) => s,
                None => {
                    return Err(DecodeError::MalformedBlock);
                },
            };
            out.push(OsmRelationMember { role, id: ids[i], member_type });
            i = i + 1;
        }
        proof {
            let spec = members_spec(self.table(), roles@, member_ids@, member_types@);
            assert(spec is Some);
            assert forall|j: int| 0 <= j < n implies (#[trigger] out@[j])@ == spec->0[j] by {
                assert(ints(ids@)[j] == ids@[j] as int);
            }
            assert(members_view(out@) =~= spec->0);
        }
        Ok(out)
    }

    /// Decodes a relation.
    pub fn decode_relation(&self, relation: &Relation) -> (r: Result<OsmRelation, DecodeError>)
        ensures
            r is Ok == relation_spec(self.table(), self.scales(), *relation) is Some,
            r matches Ok(x) ==> x@ == relation_spec(self.table(), self.scales(), *relation)->0,
            r matches Err(e) ==> e == DecodeError::MalformedBlock,
    {
        let info = self.decode_info(&relation.info)?;
        let tags = self.decode_tags(&relation.keys, &relation.vals)?;
        let members = self.decode_relation_members(
            &relation.roles_sid,
            &relation.memids,
            &relation.types,
        )?;
        Ok(OsmRelation { id: relation.id, info, tags, members })
    }
}

/// Decodes the ways of a block, group by group.
pub fn decode_ways(block: &PrimitiveBlock, decoder: &PrimitiveBlockDecoder) -> (r: Result<
    Vec<OsmWay>,
    DecodeError,
>)
    ensures
        r is Ok == block_ways_spec(decoder.table(), decoder.scales(), block.primitivegroup@) is Some,
        r matches Ok(x) ==> ways_view(x@) == block_ways_spec(
            decoder.table(),
            decoder.scales(),
            block.primitivegroup@,
        )->0,
        r matches Err(e) ==> e == DecodeError::MalformedBlock,
{
    let ghost t = decoder.table();
    let ghost v = decoder.scales();
    let ghost gs = block.primitivegroup@;
    let mut ways: Vec<OsmWay> = Vec::new();
    let mut gi: usize = 0;
    assert(gs.take(0) =~= Seq::<PrimitiveGroup>::empty());
    assert(ways_view(ways@) =~= Seq::<WayView>::empty());
    while gi < block.primitivegroup.len()
        invariant
            gi <= gs.len(),
            gs == block.primitivegroup@,
            t == decoder.table(),
            v == decoder.scales(),
            concat_some(gs.take(gi as int), group_ways_fn(t, v)) == Some(ways_view(ways@)),
        decreases gs.len() - gi,
    {
        let group = &block.primitivegroup[gi];
        let ghost prev = ways_view(ways@);
        let mut k: usize = 0;
        assert(group.ways@.take(0) =~= Seq::<Way>::empty());
        assert(prev + Seq::<WayView>::empty() =~= prev);
        while k < group.ways.len()
            invariant
                k <= group.ways@.len(),
                gi < gs.len(),
                gs == block.primitivegroup@,
                *group == gs[gi as int],
                t == decoder.table(),
                v == decoder.scales(),
                concat_some(gs.take(gi as int), group_ways_fn(t, v)) == Some(prev),
                all_some(group.ways@.take(k as int), way_fn(t, v)) matches Some(p) && ways_view(
                    ways@,
                ) == prev + p,
            decreases group.ways@.len() - k,
        {
            assert(group.ways@.take(k + 1).drop_last() =~= group.ways@.take(k as int));
            let ghost p = all_some(group.ways@.take(k as int), way_fn(t, v))->0;
            match decoder.decode_way(&group.ways[k]) {
                Ok(w) => {
                    let ghost before = ways@;
                    ways.push(w);
                    assert(ways_view(ways@) =~= ways_view(before).push(w@));
                    assert(ways_view(ways@) =~= prev + p.push(w@));
                },
                Err(e) => {
                    proof {
                        lemma_all_some_prefix(group.ways@, way_fn(t, v), k + 1);
                        assert(gs.take(gi + 1).drop_last() =~= gs.take(gi as int));
                        lemma_concat_prefix(gs, group_ways_fn(t, v), gi + 1);
                    }
                    return Err(e);
                },
            }
            k = k + 1;
        }
        assert(group.ways@.take(k as int) =~= group.ways@);
        assert(gs.take(gi + 1).drop_last() =~= gs.take(gi as int));
        gi = gi + 1;
    }
    assert(gs.take(gi as int) =~= gs);
    Ok(ways)
}

/// Decodes the relations of a block, group by group.
pub fn decode_relations(block: &PrimitiveBlock, decoder: &PrimitiveBlockDecoder) -> (r: Result<
    Vec<OsmRelation>,
    DecodeError,
>)
    ensures
        r is Ok == block_relations_spec(decoder.table(), decoder.scales(), block.primitivegroup@) is Some,
        r matches Ok(x) ==> relations_view(x@) == block_relations_spec(
            decoder.table(),
            decoder.scales(),
            block.primitivegroup@,
        )->0,
        r matches Err(e) ==> e == DecodeError::MalformedBlock,
{
    let ghost t = decoder.table();
    let ghost v = decoder.scales();
    let ghost gs = block.primitivegroup@;
    let mut relations: Vec<OsmRelation> = Vec::new();
    let mut gi: usize = 0;
    assert(gs.take(0) =~= Seq::<PrimitiveGroup>::empty());
    assert(relations_view(relations@) =~= Seq::<RelationView>::empty());
    while gi < block.primitivegroup.len()
        invariant
            gi <= gs.len(),
            gs == block.primitivegroup@,
            t == decoder.table(),
            v == decoder.scales(),
            concat_some(gs.take(gi as int), group_relations_fn(t, v)) == Some(relations_view(relations@)),
        decreases gs.len() - gi,
    {
        let group = &block.primitivegroup[gi];
        let ghost prev = relations_view(relations@);
        let mut k: usize = 0;
        assert(group.relations@.take(0) =~= Seq::<Relation>::empty());
        assert(prev + Seq::<RelationView>::empty() =~= prev);
        while k < group.relations.len()
            invariant
                k <= group.relations@.len(),
                gi < gs.len(),
                gs == block.primitivegroup@,
                *group == gs[gi as int],
                t == decoder.table(),
                v == decoder.scales(),
                concat_some(gs.take(gi as int), group_relations_fn(t, v)) == Some(prev),
                all_some(group.relations@.take(k as int), relation_fn(t, v)) matches Some(p) && relations_view(
                    relations@,
                ) == prev + p,
            decreases group.relations@.len() - k,
        {
            assert(group.relations@.take(k + 1).drop_last() =~= group.relations@.take(k as int));
            let ghost p = all_some(group.relations@.take(k as int), relation_fn(t, v))->0;
            match decoder.decode_relation(&group.relations[k]) {
                Ok(w) => {
                    let ghost before = relations@;
                    relations.push(w);
                    assert(relations_view(relations@) =~= relations_view(before).push(w@));
                    assert(relations_view(relations@) =~= prev + p.push(w@));
                },
                Err(e) => {
                    proof {
                        lemma_all_some_prefix(group.relations@, relation_fn(t, v), k + 1);
                        assert(gs.take(gi + 1).drop_last() =~= gs.take(gi as int));
                        lemma_concat_prefix(gs, group_relations_fn(t, v), gi + 1);
                    }
                    return Err(e);
                },
            }
            k = k + 1;
        }
        assert(group.relations@.take(k as int) =~= group.relations@);
        assert(gs.take(gi + 1).drop_last() =~= gs.take(gi as int));
        gi = gi + 1;
    }
    assert(gs.take(gi as int) =~= gs);
    Ok(relations)
}

/// Decodes the nodes of a block, group by group: in each group its plain
/// nodes, then its dense nodes.
pub fn decode_nodes(block: &PrimitiveBlock, decoder: &PrimitiveBlockDecoder) -> (r: Result<
    Vec<OsmNode>,
    DecodeError,
>)
    ensures
        r is Ok == block_nodes_spec(decoder.table(), decoder.scales(), block.primitivegroup@) is Some,
        r matches Ok(x) ==> nodes_view(x@) == block_nodes_spec(
            decoder.table(),
            decoder.scales(),
            block.primitivegroup@,
        )->0,
        r matches Err(e) ==> e == DecodeError::MalformedBlock,
{
    let ghost t = decoder.table();
    let ghost v = decoder.scales();
    let ghost gs = block.primitivegroup@;
    let mut nodes: Vec<OsmNode> = Vec::new();
    let mut gi: usize = 0;
    assert(gs.take(0) =~= Seq::<PrimitiveGroup>::empty());
    assert(nodes_view(nodes@) =~= Seq::<NodeView>::empty());
    while gi < block.primitivegroup.len()
        invariant
            gi <= gs.len(),
            gs == block.primitivegroup@,
            t == decoder.table(),
            v == decoder.scales(),
            concat_some(gs.take(gi as int), group_nodes_fn(t, v)) == Some(nodes_view(nodes@)),
        decreases gs.len() - gi,
    {
        let group = &block.primitivegroup[gi];
        let ghost prev = nodes_view(nodes@);
        let mut k: usize = 0;
        assert(group.nodes@.take(0) =~= Seq::<Node>::empty());
        assert(prev + Seq::<NodeView>::empty() =~= prev);
        while k < group.nodes.len()
            invariant
                k <= group.nodes@.len(),
                gi < gs.len(),
                gs == block.primitivegroup@,
                *group == gs[gi as int],
                t == decoder.table(),
                v == decoder.scales(),
                concat_some(gs.take(gi as int), group_nodes_fn(t, v)) == Some(prev),
                all_some(group.nodes@.take(k as int), node_fn(t, v)) matches Some(p) && nodes_view(
                    nodes@,
                ) == prev + p,
            decreases group.nodes@.len() - k,
        {
            assert(group.nodes@.take(k + 1).drop_last() =~= group.nodes@.take(k as int));
            let ghost p = all_some(group.nodes@.take(k as int), node_fn(t, v))->0;
            match decoder.decode_node(&group.nodes[k]) {
                Ok(n) => {
                    let ghost before = nodes@;
                    nodes.push(n);
                    assert(nodes_view(nodes@) =~= nodes_view(before).push(n@));
                    assert(nodes_view(nodes@) =~= prev + p.push(n@));
                },
                Err(e) => {
                    proof {
                        lemma_all_some_prefix(group.nodes@, node_fn(t, v), k + 1);
                        assert(gs.take(gi + 1).drop_last() =~= gs.take(gi as int));
                        lemma_concat_prefix(gs, group_nodes_fn(t, v), gi + 1);
                    }
                    return Err(e);
                },
            }
            k = k + 1;
        }
        assert(group.nodes@.take(k as int) =~= group.nodes@);
        assert(gs.take(gi + 1).drop_last() =~= gs.take(gi as int));
        let ghost plain = all_some(group.nodes@, node_fn(t, v))->0;
        if let Some(dense) = &group.dense {
            match decoder.decode_dense_nodes(dense) {
                Ok(mut d) => {
                    let ghost before = nodes@;
                    let ghost dv = nodes_view(d@);
                    nodes.append(&mut d);
                    assert(nodes_view(nodes@) =~= nodes_view(before) + dv);
                    assert(nodes_view(nodes@) =~= prev + (plain + dv));
                },
                Err(e) => {
                    proof {
                        lemma_concat_prefix(gs, group_nodes_fn(t, v), gi + 1);
                    }
                    return Err(e);
                },
            }
        } else {
            assert(nodes_view(nodes@) =~= prev + plain);
        }
        gi = gi + 1;
    }
    assert(gs.take(gi as int) =~= gs);
    Ok(nodes)
}

/// Decodes all elements of a block.
pub fn decode_primitive_block(block: &PrimitiveBlock) -> (r: Result<OsmElements, DecodeError>)
    ensures
        r is Ok == block_spec(*block) is Some,
        r matches Ok(x) ==> (nodes_view(x.nodes@), ways_view(x.ways@), relations_view(
            x.relations@,
        )) == block_spec(*block)->0,
        r matches Err(e) ==> e == DecodeError::MalformedBlock,
{
    let decoder = PrimitiveBlockDecoder::new(block)?;
    let nodes = decode_nodes(block, &decoder)?;
    let ways = decode_ways(block, &decoder)?;
    let relations = decode_relations(block, &decoder)?;
    Ok(OsmElements { nodes, ways, relations })
}

} // verus!
