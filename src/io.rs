//! The byte sink that persists finished files, and the naming of output
//! files: `<kind>/<kind>_<worker>_<index>.parquet` with zero-padded indices.

use vstd::prelude::*;

verus! {

/// The kinds of elements, each with its own output directory.
#[derive(Debug, Clone, Copy, PartialEq, Eq, Structural)]
pub enum ElementKind {
    Node,
    Way,
    Relation,
}

/// The directory and file prefix of a kind.
pub open spec fn kind_name(k: ElementKind) -> Seq<char> {
    match k {
        ElementKind::Node => "nodes"@,
        ElementKind::Way => "ways"@,
        ElementKind::Relation => "relations"@,
    }
}

/// The character of a decimal digit.
pub open spec fn digit(d: int) -> char {
    if d == 0 {
        '0'
    } else if d == 1 {
        '1'
    } else if d == 2 {
        '2'
    } else if d == 3 {
        '3'
    } else if d == 4 {
        '4'
    } else if d == 5 {
        '5'
    } else if d == 6 {
        '6'
    } else if d == 7 {
        '7'
    } else if d == 8 {
        '8'
    } else {
        '9'
    }
}

/// The decimal digits of `n`, without leading zeros.
pub open spec fn decimal(n: nat) -> Seq<char>
    decreases n,
{
    if n < 10 {
        seq![digit(n as int)]
    } else {
        decimal(n / 10).push(digit((n % 10) as int))
    }
}

/// The decimal digits of `n`, with leading zeros up to `width` digits.
pub open spec fn padded(n: nat, width: nat) -> Seq<char> {
    let d = decimal(n);
    if d.len() < width {
        Seq::new((width - d.len()) as nat, |i: int| '0') + d
    } else {
        d
    }
}

/// The path of an output file below the output root.
pub open spec fn file_name(kind: ElementKind, worker: nat, index: nat) -> Seq<char> {
    kind_name(kind) + "/"@ + kind_name(kind) + "_"@ + padded(worker, 4) + "_"@ + padded(index, 6)
        + ".parquet"@
}

/// Relies on `String::push`: it appends one character.
#[verifier::external_body]
fn push_char(s: &mut String, c: char)
    ensures
        final(s)@ == old(s)@.push(c),
{
    s.push(c)
}

/// Relies on `String::push_str`: it appends the text.
#[verifier::external_body]
fn push_text(s: &mut String, t: &str)
    ensures
        final(s)@ == old(s)@ + t@,
{
    s.push_str(t)
}

fn digit_char(d: usize) -> (r: char)
    requires
        d < 10,
    ensures
        r == digit(d as int),
{
    if d == 0 {
        '0'
    } else if d == 1 {
        '1'
    } else if d == 2 {
        '2'
    } else if d == 3 {
        '3'
    } else if d == 4 {
        '4'
    } else if d == 5 {
        '5'
    } else if d == 6 {
        '6'
    } else if d == 7 {
        '7'
    } else if d == 8 {
        '8'
    } else {
        '9'
    }
}

fn decimal_len(n: usize) -> (r: usize)
    ensures
        r == decimal(n as nat).len(),
    decreases n,
{
    if n < 10 {
        1
    } else {
        let k = decimal_len(n / 10);
        proof {
            lemma_decimal_len_bound((n / 10) as nat);
        }
        k + 1
    }
}

proof fn lemma_decimal_len_bound(n: nat)
    ensures
        decimal(n).len() <= n + 1,
    decreases n,
{
    if n >= 10 {
        lemma_decimal_len_bound(n / 10);
    }
}

fn push_decimal(s: &mut String, n: usize)
    ensures
        final(s)@ == old(s)@ + decimal(n as nat),
    decreases n,
{
    if n >= 10 {
        push_decimal(s, n / 10);
    }
    push_char(s, digit_char(n % 10));
    assert(decimal(n as nat) == if n < 10 {
        seq![digit(n as int)]
    } else {
        decimal((n / 10) as nat).push(digit((n % 10) as int))
    });
}

fn push_padded(s: &mut String, n: usize, width: usize)
    ensures
        final(s)@ == old(s)@ + padded(n as nat, width as nat),
{
    let ghost start = s@;
    let len = decimal_len(n);
    let mut k: usize = len;
    while k < width
        invariant
            len <= k,
            k <= if len < width {
                width
            } else {
                len
            },
            len == decimal(n as nat).len(),
            s@ == start + Seq::new((k - len) as nat, |i: int| '0'),
        decreases width - k,
    {
        push_char(s, '0');
        k = k + 1;
        assert(s@ =~= start + Seq::new((k - len) as nat, |i: int| '0'));
    }
    let ghost zeros = Seq::new((k - len) as nat, |i: int| '0');
    push_decimal(s, n);
    assert(s@ =~= start + (zeros + decimal(n as nat)));
    assert(s@ =~= start + padded(n as nat, width as nat));
}

/// The path of an output file below the output root.
pub fn output_file_name(kind: ElementKind, worker: usize, index: usize) -> (r: String)
    ensures
        r@ == file_name(kind, worker as nat, index as nat),
{
    let mut s = String::new();
    let name = match kind {
        ElementKind::Node => "nodes",
        ElementKind::Way => "ways",
        ElementKind::Relation => "relations",
    };
    push_text(&mut s, name);
    push_text(&mut s, "/");
    push_text(&mut s, name);
    push_text(&mut s, "_");
    push_padded(&mut s, worker, 4);
    push_text(&mut s, "_");
    push_padded(&mut s, index, 6);
    push_text(&mut s, ".parquet");
    assert(s@ =~= file_name(kind, worker as nat, index as nat));
    s
}

/// Why a sink could not persist a file.
#[derive(Debug, Clone, Copy, PartialEq, Eq, Structural)]
pub enum SinkError {
    Io,
}

/// A sink for finished files, one operation per element kind.
pub trait FileWriter {
    fn write_nodes(&self, data: &[u8]) -> Result<(), SinkError>;

    fn write_ways(&self, data: &[u8]) -> Result<(), SinkError>;

    fn write_relations(&self, data: &[u8]) -> Result<(), SinkError>;
}

/// The file counters of a sink on a local directory: one per kind, each
/// counting the files handed out so far.
#[derive(Debug, Clone)]
pub struct LocalFileWriter {
    root_path: String,
    nodes: usize,
    ways: usize,
    relations: usize,
}

impl LocalFileWriter {
    pub closed spec fn root_view(&self) -> Seq<char> {
        self.root_path@
    }

    /// The number of files of `kind` handed out so far.
    pub closed spec fn issued(&self, kind: ElementKind) -> nat {
        match kind {
            ElementKind::Node => self.nodes as nat,
            ElementKind::Way => self.ways as nat,
            ElementKind::Relation => self.relations as nat,
        }
    }

    pub fn new(root_path: String) -> (r: Self)
        ensures
            r.root_view() == root_path@,
            r.issued(ElementKind::Node) == 0,
            r.issued(ElementKind::Way) == 0,
            r.issued(ElementKind::Relation) == 0,
    {
        LocalFileWriter { root_path, nodes: 0, ways: 0, relations: 0 }
    }

    /// The output root.
    pub fn root_path(&self) -> (r: &String)
        ensures
            r@ == self.root_view(),
    {
        &self.root_path
    }

    /// Hands out the next index of `kind`, starting at 1; `None` once the
    /// counter is exhausted. Other kinds keep their counters.
    pub fn next_index(&mut self, kind: ElementKind) -> (r: Option<usize>)
        ensures
            final(self).root_view() == old(self).root_view(),
            old(self).issued(kind) < usize::MAX ==> (r == Some((old(self).issued(kind) + 1) as usize)
                && final(self).issued(kind) == old(self).issued(kind) + 1),
            old(self).issued(kind) == usize::MAX ==> (r is None && final(self).issued(kind)
                == old(self).issued(kind)),
            forall|k: ElementKind| k != kind ==> final(self).issued(k) == old(self).issued(k),
    {
        match kind {
            ElementKind::Node => {
                if self.nodes == usize::MAX {
                    return None;
                }
                self.nodes = self.nodes + 1;
                Some(self.nodes)
            },
            ElementKind::Way => {
                if self.ways == usize::MAX {
                    return None;
                }
                self.ways = self.ways + 1;
                Some(self.ways)
            },
            ElementKind::Relation => {
                if self.relations == usize::MAX {
                    return None;
                }
                self.relations = self.relations + 1;
                Some(self.relations)
            },
        }
    }
}

} // verus!
