//! Decoded elements: nodes, ways and relations with their attributes, and
//! the mathematical views that contracts speak of.

use crate::delta::ints;
use vstd::prelude::*;

verus! {

/// A tag: a key and its value.
#[derive(Debug, Clone)]
pub struct Tag {
    pub key: String,
    pub value: String,
}

impl View for Tag {
    type V = (Seq<char>, Seq<char>);

    open spec fn view(&self) -> (Seq<char>, Seq<char>) {
        (self.key@, self.value@)
    }
}

impl Tag {
    /// A copy of this tag.
    pub fn copy(&self) -> (r: Tag)
        ensures
            r@ == self@,
    {
        Tag { key: self.key.clone(), value: self.value.clone() }
    }
}

/// A copy of a tag list.
pub fn copy_tags(tags: &Vec<Tag>) -> (r: Vec<Tag>)
    ensures
        tags_view(r@) == tags_view(tags@),
{
    let mut out: Vec<Tag> = Vec::with_capacity(tags.len());
    let mut i: usize = 0;
    while i < tags.len()
        invariant
            i <= tags@.len(),
            out@.len() == i,
            forall|j: int| 0 <= j < i ==> (#[trigger] out@[j])@ == tags@[j]@,
        decreases tags.len() - i,
    {
        out.push(tags[i].copy());
        i = i + 1;
    }
    assert(tags_view(out@) =~= tags_view(tags@));
    out
}

/// The views of a tag list, in order.
pub open spec fn tags_view(tags: Seq<Tag>) -> Seq<(Seq<char>, Seq<char>)> {
    tags.map_values(|t: Tag| t@)
}

/// A tag as a pair of texts.
pub type TagPair = (Seq<char>, Seq<char>);

/// The position of the last entry with key `k`, or -1 where there is none.
pub open spec fn key_position(s: Seq<TagPair>, k: Seq<char>) -> int
    decreases s.len(),
{
    if s.len() == 0 {
        -1
    } else if s.last().0 == k {
        s.len() - 1
    } else {
        key_position(s.drop_last(), k)
    }
}

/// Sets key `k` to `v`: the entry with key `k` takes the new value, or the
/// pair is appended where no entry has that key.
pub open spec fn set_tag(s: Seq<TagPair>, k: Seq<char>, v: Seq<char>) -> Seq<TagPair> {
    let j = key_position(s, k);
    if j < 0 {
        s.push((k, v))
    } else {
        s.update(j, (k, v))
    }
}

/// The tag mapping of a list of pairs, set one after the other: a later
/// pair with a key overwrites the value of an earlier one.
pub open spec fn tag_map(pairs: Seq<TagPair>) -> Seq<TagPair>
    decreases pairs.len(),
{
    if pairs.len() == 0 {
        Seq::empty()
    } else {
        set_tag(tag_map(pairs.drop_last()), pairs.last().0, pairs.last().1)
    }
}

/// No two entries share a key.
pub open spec fn keys_distinct(s: Seq<TagPair>) -> bool {
    forall|i: int, j: int| 0 <= i < j < s.len() ==> (#[trigger] s[i]).0 != (#[trigger] s[j]).0
}

proof fn lemma_key_position(s: Seq<TagPair>, k: Seq<char>)
    ensures
        -1 <= key_position(s, k) < s.len(),
        key_position(s, k) >= 0 ==> s[key_position(s, k)].0 == k,
        key_position(s, k) < 0 ==> forall|i: int| 0 <= i < s.len() ==> (#[trigger] s[i]).0 != k,
    decreases s.len(),
{
    if s.len() > 0 {
        lemma_key_position(s.drop_last(), k);
        if s.last().0 != k && key_position(s.drop_last(), k) < 0 {
            assert forall|i: int| 0 <= i < s.len() implies (#[trigger] s[i]).0 != k by {
                if i < s.len() - 1 {
                    assert(s[i] == s.drop_last()[i]);
                }
            }
        }
    }
}

/// Setting a tag keeps the keys of a tag list distinct.
pub proof fn lemma_set_tag_distinct(s: Seq<TagPair>, k: Seq<char>, v: Seq<char>)
    requires
        keys_distinct(s),
    ensures
        keys_distinct(set_tag(s, k, v)),
{
    lemma_key_position(s, k);
}

/// The keys of a tag mapping are distinct.
pub proof fn lemma_tag_map_distinct(pairs: Seq<TagPair>)
    ensures
        keys_distinct(tag_map(pairs)),
    decreases pairs.len(),
{
    if pairs.len() > 0 {
        lemma_tag_map_distinct(pairs.drop_last());
        lemma_set_tag_distinct(tag_map(pairs.drop_last()), pairs.last().0, pairs.last().1);
    }
}

/// Sets a tag in a tag list: the entry with the tag's key takes its value,
/// or the tag is appended.
pub fn insert_tag(tags: &mut Vec<Tag>, tag: Tag)
    ensures
        tags_view(final(tags)@) == set_tag(tags_view(old(tags)@), tag@.0, tag@.1),
{
    let ghost v = tags_view(tags@);
    let ghost k = tag@.0;
    let ghost tv = tag@;
    let mut j: usize = tags.len();
    let mut found = false;
    assert(v.take(j as int) =~= v);
    while j > 0 && !found
        invariant
            j <= tags@.len(),
            v == tags_view(tags@),
            k == tag@.0,
            found ==> j > 0 && key_position(v, k) == j - 1,
            !found ==> key_position(v, k) == key_position(v.take(j as int), k),
        decreases j + if found {
            0int
        } else {
            1int
        },
    {
        assert(v.take(j as int).drop_last() =~= v.take(j - 1));
        assert(v.take(j as int).last() == v[j - 1]);
        assert(v.take(j as int).len() == j);
        if tags[j - 1].key == tag.key {
            found = true;
        } else {
            j = j - 1;
        }
    }
    if found {
        tags.set(j - 1, tag);
        assert(tags_view(tags@) =~= v.update(j - 1, tv));
    } else {
        assert(v.take(0) =~= Seq::<TagPair>::empty());
        tags.push(tag);
        assert(tags_view(tags@) =~= v.push(tv));
    }
}

/// Authorship metadata of an element. A zero number or an empty user name
/// means that the value is absent.
#[derive(Debug, Clone)]
pub struct OsmInfo {
    pub version: i32,
    pub timestamp: i64,
    pub changeset: i64,
    pub uid: i64,
    pub user_sid: String,
}

pub struct InfoView {
    pub version: i32,
    pub timestamp: i64,
    pub changeset: i64,
    pub uid: i64,
    pub user_sid: Seq<char>,
}

impl View for OsmInfo {
    type V = InfoView;

    open spec fn view(&self) -> InfoView {
        InfoView {
            version: self.version,
            timestamp: self.timestamp,
            changeset: self.changeset,
            uid: self.uid,
            user_sid: self.user_sid@,
        }
    }
}

/// The metadata of an element that carries none.
pub open spec fn empty_info() -> InfoView {
    InfoView { version: 0, timestamp: 0, changeset: 0, uid: 0, user_sid: Seq::empty() }
}

impl OsmInfo {
    /// Metadata with every value absent.
    pub fn empty() -> (r: OsmInfo)
        ensures
            r@ == empty_info(),
    {
        OsmInfo { version: 0, timestamp: 0, changeset: 0, uid: 0, user_sid: String::new() }
    }
}

/// A node. Its coordinates are in nanodegrees: the degrees times 10^9.
#[derive(Debug, Clone)]
pub struct OsmNode {
    pub id: i64,
    pub info: OsmInfo,
    pub tags: Vec<Tag>,
    pub latitude: i128,
    pub longitude: i128,
}

pub struct NodeView {
    pub id: i64,
    pub info: InfoView,
    pub tags: Seq<(Seq<char>, Seq<char>)>,
    pub latitude: int,
    pub longitude: int,
}

impl View for OsmNode {
    type V = NodeView;

    open spec fn view(&self) -> NodeView {
        NodeView {
            id: self.id,
            info: self.info@,
            tags: tags_view(self.tags@),
            latitude: self.latitude as int,
            longitude: self.longitude as int,
        }
    }
}

/// A way: an ordered list of node ids.
#[derive(Debug, Clone)]
pub struct OsmWay {
    pub id: i64,
    pub info: OsmInfo,
    pub tags: Vec<Tag>,
    pub nodes: Vec<i64>,
}

pub struct WayView {
    pub id: i64,
    pub info: InfoView,
    pub tags: Seq<(Seq<char>, Seq<char>)>,
    pub nodes: Seq<int>,
}

impl View for OsmWay {
    type V = WayView;

    open spec fn view(&self) -> WayView {
        WayView { id: self.id, info: self.info@, tags: tags_view(self.tags@), nodes: ints(self.nodes@) }
    }
}

/// A member of a relation: its role, the id it refers to, and the kind of
/// element referred to (`node`, `way` or `relation`).
#[derive(Debug, Clone)]
pub struct OsmRelationMember {
    pub role: String,
    pub id: i64,
    pub member_type: String,
}

pub struct MemberView {
    pub role: Seq<char>,
    pub id: i64,
    pub member_type: Seq<char>,
}

impl View for OsmRelationMember {
    type V = MemberView;

    open spec fn view(&self) -> MemberView {
        MemberView { role: self.role@, id: self.id, member_type: self.member_type@ }
    }
}

impl OsmRelationMember {
    /// A copy of this member.
    pub fn copy(&self) -> (r: OsmRelationMember)
        ensures
            r@ == self@,
    {
        OsmRelationMember { role: self.role.clone(), id: self.id, member_type: self.member_type.clone() }
    }
}

/// A copy of a member list.
pub fn copy_members(members: &Vec<OsmRelationMember>) -> (r: Vec<OsmRelationMember>)
    ensures
        members_view(r@) == members_view(members@),
{
    let mut out: Vec<OsmRelationMember> = Vec::with_capacity(members.len());
    let mut i: usize = 0;
    while i < members.len()
        invariant
            i <= members@.len(),
            out@.len() == i,
            forall|j: int| 0 <= j < i ==> (#[trigger] out@[j])@ == members@[j]@,
        decreases members.len() - i,
    {
        out.push(members[i].copy());
        i = i + 1;
    }
    assert(members_view(out@) =~= members_view(members@));
    out
}

pub open spec fn members_view(m: Seq<OsmRelationMember>) -> Seq<MemberView> {
    m.map_values(|x: OsmRelationMember| x@)
}

/// A relation: an ordered list of members.
#[derive(Debug, Clone)]
pub struct OsmRelation {
    pub id: i64,
    pub info: OsmInfo,
    pub tags: Vec<Tag>,
    pub members: Vec<OsmRelationMember>,
}

pub struct RelationView {
    pub id: i64,
    pub info: InfoView,
    pub tags: Seq<(Seq<char>, Seq<char>)>,
    pub members: Seq<MemberView>,
}

impl View for OsmRelation {
    type V = RelationView;

    open spec fn view(&self) -> RelationView {
        RelationView {
            id: self.id,
            info: self.info@,
            tags: tags_view(self.tags@),
            members: members_view(self.members@),
        }
    }
}

/// The elements decoded from one block, in source order within each kind.
#[derive(Debug, Clone)]
pub struct OsmElements {
    pub nodes: Vec<OsmNode>,
    pub ways: Vec<OsmWay>,
    pub relations: Vec<OsmRelation>,
}

pub open spec fn nodes_view(s: Seq<OsmNode>) -> Seq<NodeView> {
    s.map_values(|x: OsmNode| x@)
}

pub open spec fn ways_view(s: Seq<OsmWay>) -> Seq<WayView> {
    s.map_values(|x: OsmWay| x@)
}

pub open spec fn relations_view(s: Seq<OsmRelation>) -> Seq<RelationView> {
    s.map_values(|x: OsmRelation| x@)
}

/// Counts of elements per kind.
#[derive(Debug, Clone, Copy, Default, PartialEq, Eq, Structural)]
pub struct ElementCount {
    pub nodes: usize,
    pub ways: usize,
    pub relations: usize,
}

impl ElementCount {
    pub fn new(nodes: usize, ways: usize, relations: usize) -> (r: Self)
        ensures
            r.nodes == nodes,
            r.ways == ways,
            r.relations == relations,
    {
        ElementCount { nodes, ways, relations }
    }

    /// The number of elements of all kinds.
    pub fn total(&self) -> (r: usize)
        requires
            self.nodes + self.ways + self.relations <= usize::MAX,
        ensures
            r == self.nodes + self.ways + self.relations,
    {
        self.nodes + self.ways + self.relations
    }
}

} // verus!
