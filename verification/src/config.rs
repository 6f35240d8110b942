//! The raw shape of a parsed configuration document.
//!
//! A document has two optional top-level sections, `config` (named shared
//! blocks) and `rules` (named rule specifications), each a table of tables
//! whose fields are strings, booleans, or a one-level table of strings (the
//! `headers` field). Values of any other shape are kept as `Other` so that
//! resolution can reject them with a precise error instead of panicking.
//! Entry order is the document's declaration order.

use vstd::prelude::*;

verus! {

/// A value inside a rule's `headers` table: a string, or something malformed.
pub enum HVal {
    Str(String),
    Other,
}

/// Mathematical form of an [`HVal`].
pub enum HValV {
    Str(Seq<char>),
    Other,
}

impl View for HVal {
    type V = HValV;

    open spec fn view(&self) -> HValV {
        match self {
            HVal::Str(s) => HValV::Str(s@),
            HVal::Other => HValV::Other,
        }
    }
}

/// A field of one rule or shared block: a string, a boolean, a table of
/// header values, or something malformed.
pub enum FVal {
    Str(String),
    Bool(bool),
    Tbl(Vec<(String, HVal)>),
    Other,
}

/// Mathematical form of an [`FVal`].
pub enum FValV {
    Str(Seq<char>),
    Bool(bool),
    Tbl(Seq<(Seq<char>, HValV)>),
    Other,
}

/// View of a sequence of named header values.
pub open spec fn hpairs_view(s: Seq<(String, HVal)>) -> Seq<(Seq<char>, HValV)> {
    s.map_values(|p: (String, HVal)| (p.0@, p.1@))
}

impl View for FVal {
    type V = FValV;

    open spec fn view(&self) -> FValV {
        match self {
            FVal::Str(s) => FValV::Str(s@),
            FVal::Bool(b) => FValV::Bool(*b),
            FVal::Tbl(t) => FValV::Tbl(hpairs_view(t@)),
            FVal::Other => FValV::Other,
        }
    }
}

/// One entry of a top-level section: a rule or shared block (a table of
/// fields), or something malformed.
pub enum Node {
    Tbl(Vec<(String, FVal)>),
    Other,
}

/// Mathematical form of a [`Node`].
pub enum NodeV {
    Tbl(Seq<(Seq<char>, FValV)>),
    Other,
}

/// View of a sequence of named fields.
pub open spec fn fpairs_view(s: Seq<(String, FVal)>) -> Seq<(Seq<char>, FValV)> {
    s.map_values(|p: (String, FVal)| (p.0@, p.1@))
}

impl View for Node {
    type V = NodeV;

    open spec fn view(&self) -> NodeV {
        match self {
            Node::Tbl(t) => NodeV::Tbl(fpairs_view(t@)),
            Node::Other => NodeV::Other,
        }
    }
}

/// A top-level section (`config` or `rules`): a table of named entries, or
/// something malformed.
pub enum Section {
    Tbl(Vec<(String, Node)>),
    Other,
}

/// Mathematical form of a [`Section`].
pub enum SectionV {
    Tbl(Seq<(Seq<char>, NodeV)>),
    Other,
}

/// View of a sequence of named section entries.
pub open spec fn npairs_view(s: Seq<(String, Node)>) -> Seq<(Seq<char>, NodeV)> {
    s.map_values(|p: (String, Node)| (p.0@, p.1@))
}

impl View for Section {
    type V = SectionV;

    open spec fn view(&self) -> SectionV {
        match self {
            Section::Tbl(t) => SectionV::Tbl(npairs_view(t@)),
            Section::Other => SectionV::Other,
        }
    }
}

/// A whole raw document: its `config` and `rules` sections, each `None` when
/// the document does not carry the section at all.
pub struct RawDoc {
    pub config: Option<Section>,
    pub rules: Option<Section>,
}

/// Mathematical form of a [`RawDoc`].
pub struct RawDocV {
    pub config: Option<SectionV>,
    pub rules: Option<SectionV>,
}

impl View for RawDoc {
    type V = RawDocV;

    open spec fn view(&self) -> RawDocV {
        RawDocV {
            config: match &self.config {
                Some(s) => Some(s@),
                None => None,
            },
            rules: match &self.rules {
                Some(s) => Some(s@),
                None => None,
            },
        }
    }
}

/// Value bound to `k` at or after position `i` in an ordered table, if any.
pub open spec fn tget_from<V>(t: Seq<(Seq<char>, V)>, k: Seq<char>, i: int) -> Option<V>
    decreases t.len() - i,
{
    if i < 0 || i >= t.len() {
        None
    } else if t[i].0 == k {
        Some(t[i].1)
    } else {
        tget_from(t, k, i + 1)
    }
}

/// First value bound to `k` in an ordered table, if any.
pub open spec fn tget<V>(t: Seq<(Seq<char>, V)>, k: Seq<char>) -> Option<V> {
    tget_from(t, k, 0)
}

} // verus!
