//! Trusted boundary around the `toml` crate, and the verified walk that
//! turns a parsed document into the library's own raw shape.
//!
//! Only the calls into `toml` are trusted; classifying the entries and
//! building the [`RawDoc`] is ordinary verified code. What the opaque
//! `toml` values hold is given names — `tbl_entries` for a table's ordered
//! entries, `val_str` / `val_bool` / `val_tbl` for what the accessors
//! return — and the walk's reading of a document over those names is
//! `spec_doc`. Parsing is a function of the text alone, so the reading of
//! the document a text parses to has a name too, `doc_of`:
//! [`parse_config`] returns exactly that document.

use vstd::prelude::*;

use crate::config::{
    fpairs_view, hpairs_view, npairs_view, tget, tget_from, FVal, FValV, HVal, HValV, Node, NodeV,
    RawDoc, RawDocV, Section, SectionV,
};
use crate::rules::opt_str_view;

verus! {

#[verifier::external_type_specification]
#[verifier::external_body]
#[verifier::reject_recursive_types(K)]
#[verifier::reject_recursive_types(V)]
pub struct ExTomlMap<K, V>(toml::map::Map<K, V>);

#[verifier::external_type_specification]
#[verifier::external_body]
pub struct ExTomlValue(toml::Value);

/// Whether `text` is a well-formed TOML document: parsing succeeds or fails
/// on the text alone.
pub uninterp spec fn toml_parses(text: Seq<char>) -> bool;

/// The raw reading of the document that `text` parses to, when it parses:
/// parsing is deterministic, so this is a function of the text alone.
pub uninterp spec fn doc_of(text: Seq<char>) -> RawDocV;

/// The (key, value) entries a parsed table holds, in declaration order.
pub uninterp spec fn tbl_entries(t: toml::Table) -> Seq<(Seq<char>, toml::Value)>;

/// The string a parsed value holds, when it is a string.
pub uninterp spec fn val_str(v: toml::Value) -> Option<Seq<char>>;

/// The boolean a parsed value holds, when it is a boolean.
pub uninterp spec fn val_bool(v: toml::Value) -> Option<bool>;

/// The table a parsed value holds, when it is a table.
pub uninterp spec fn val_tbl(v: toml::Value) -> Option<toml::Table>;

/// View of owned table entries as the named entry sequence.
pub open spec fn tvpairs_view(s: Seq<(String, toml::Value)>) -> Seq<(Seq<char>, toml::Value)> {
    s.map_values(|p: (String, toml::Value)| (p.0@, p.1))
}

/// The reading of a header value: its string, or malformed.
pub open spec fn spec_hval(v: toml::Value) -> HValV {
    match val_str(v) {
        Some(s) => HValV::Str(s),
        None => HValV::Other,
    }
}

/// The readings of a headers table's entries.
pub open spec fn spec_hpairs(s: Seq<(Seq<char>, toml::Value)>) -> Seq<(Seq<char>, HValV)> {
    s.map_values(|p: (Seq<char>, toml::Value)| (p.0, spec_hval(p.1)))
}

/// The reading of one field of a rule or shared block, classified in the
/// same order the walk tests: string, then boolean, then table.
pub open spec fn spec_fval(v: toml::Value) -> FValV {
    if val_str(v) is Some {
        FValV::Str(val_str(v)->Some_0)
    } else if val_bool(v) is Some {
        FValV::Bool(val_bool(v)->Some_0)
    } else {
        match val_tbl(v) {
            Some(t) => FValV::Tbl(spec_hpairs(tbl_entries(t))),
            None => FValV::Other,
        }
    }
}

/// The readings of a rule's or shared block's fields.
pub open spec fn spec_fpairs(s: Seq<(Seq<char>, toml::Value)>) -> Seq<(Seq<char>, FValV)> {
    s.map_values(|p: (Seq<char>, toml::Value)| (p.0, spec_fval(p.1)))
}

/// The reading of one section entry: a table of fields, or malformed.
pub open spec fn spec_node(v: toml::Value) -> NodeV {
    match val_tbl(v) {
        Some(t) => NodeV::Tbl(spec_fpairs(tbl_entries(t))),
        None => NodeV::Other,
    }
}

/// The readings of a section's entries.
pub open spec fn spec_npairs(s: Seq<(Seq<char>, toml::Value)>) -> Seq<(Seq<char>, NodeV)> {
    s.map_values(|p: (Seq<char>, toml::Value)| (p.0, spec_node(p.1)))
}

/// The reading of a top-level section value.
pub open spec fn spec_section(v: toml::Value) -> SectionV {
    match val_tbl(v) {
        Some(t) => SectionV::Tbl(spec_npairs(tbl_entries(t))),
        None => SectionV::Other,
    }
}

/// The reading of a whole parsed document: its `config` and `rules`
/// entries, absent when the document does not carry them.
pub open spec fn spec_doc(t: toml::Table) -> RawDocV {
    RawDocV {
        config: match tget(tbl_entries(t), "config"@) {
            Some(v) => Some(spec_section(v)),
            None => None,
        },
        rules: match tget(tbl_entries(t), "rules"@) {
            Some(v) => Some(spec_section(v)),
            None => None,
        },
    }
}

/// Relies on `<toml::Table as FromStr>::from_str`: the same text always
/// parses to the same document, or fails; so the parsed document's reading
/// is the text's.
#[verifier::external_body]
pub(crate) fn parse_toml(text: &str) -> (r: Option<toml::Table>)
    ensures
        r is Some <==> toml_parses(text@),
        r matches Some(t) ==> spec_doc(t) == doc_of(text@),
{
    text.parse::<toml::Table>().ok()
}

/// Relies on `toml::map::Map` iteration; with the `preserve_order` feature
/// the entries come in the document's declaration order, and they are what
/// the table holds.
#[verifier::external_body]
pub(crate) fn table_entries(t: &toml::Table) -> (r: Vec<(String, toml::Value)>)
    ensures
        tvpairs_view(r@) == tbl_entries(*t),
{
    t.clone().into_iter().collect()
}

/// Relies on `toml::Value::as_str`.
#[verifier::external_body]
pub(crate) fn value_as_str(v: &toml::Value) -> (r: Option<String>)
    ensures
        opt_str_view(r) == val_str(*v),
{
    v.as_str().map(str::to_owned)
}

/// Relies on `toml::Value::as_bool`.
#[verifier::external_body]
pub(crate) fn value_as_bool(v: &toml::Value) -> (r: Option<bool>)
    ensures
        r == val_bool(*v),
{
    v.as_bool()
}

/// Relies on `toml::Value::as_table`.
#[verifier::external_body]
pub(crate) fn value_as_table<'a>(v: &'a toml::Value) -> (r: Option<&'a toml::Table>)
    ensures
        match r {
            Some(t) => val_tbl(*v) == Some(*t),
            None => val_tbl(*v) is None,
        },
{
    v.as_table()
}

/// First entry of this name among a table's owned entries.
fn tv_get<'a>(ents: &'a Vec<(String, toml::Value)>, k: &str) -> (r: Option<&'a toml::Value>)
    ensures
        match r {
            Some(v) => tget(tvpairs_view(ents@), k@) == Some(*v),
            None => tget(tvpairs_view(ents@), k@) is None,
        },
{
    let key = k.to_owned();
    let n = ents.len();
    let mut i: usize = 0;
    while i < n
        invariant
            n == ents@.len(),
            0 <= i <= n,
            key@ == k@,
            tget_from(tvpairs_view(ents@), k@, 0) == tget_from(tvpairs_view(ents@), k@, i as int),
        decreases n - i,
    {
        if ents[i].0 == key {
            return Some(&ents[i].1);
        }
        i += 1;
    }
    None
}

/// Classifies a header value: a string, or malformed.
fn hval_of(v: &toml::Value) -> (r: HVal)
    ensures
        r@ == spec_hval(*v),
{
    match value_as_str(v) {
        Some(s) => HVal::Str(s),
        None => HVal::Other,
    }
}

/// Classifies one field of a rule or shared block.
fn fval_of(v: &toml::Value) -> (r: FVal)
    ensures
        r@ == spec_fval(*v),
{
    if let Some(s) = value_as_str(v) {
        return FVal::Str(s);
    }
    if let Some(b) = value_as_bool(v) {
        return FVal::Bool(b);
    }
    match value_as_table(v) {
        Some(t) => {
            let entries = table_entries(t);
            let mut out: Vec<(String, HVal)> = Vec::new();
            let n = entries.len();
            let mut i: usize = 0;
            while i < n
                invariant
                    n == entries@.len(),
                    0 <= i <= n,
                    tvpairs_view(entries@) == tbl_entries(*t),
                    hpairs_view(out@) == spec_hpairs(tbl_entries(*t)).take(i as int),
                decreases n - i,
            {
                let item = hval_of(&entries[i].1);
                let pair = (entries[i].0.clone(), item);
                let ghost gp = pair;
                let ghost out0 = out@;
                out.push(pair);
                proof {
                    let tv = tbl_entries(*t);
                    let tgt = spec_hpairs(tv);
                    assert(out@ == out0.push(gp));
                    assert(hpairs_view(out0).len() == out0.len());
                    assert(out0.len() == i as int);
                    assert(tv.len() == entries@.len());
                    assert(tgt.len() == tv.len());
                    assert(tv[i as int] == (entries@[i as int].0@, entries@[i as int].1));
                    assert(tgt[i as int] == (tv[i as int].0, spec_hval(tv[i as int].1)));
                    assert forall|j: int| 0 <= j < out@.len() implies #[trigger] hpairs_view(
                        out@,
                    )[j] == tgt.take(i + 1)[j] by {
                        if j < i {
                            assert(out@[j] == out0[j]);
                            assert(hpairs_view(out0)[j] == tgt.take(i as int)[j]);
                        } else {
                            assert(out@[j] == gp);
                        }
                    }
                    assert(hpairs_view(out@) =~= tgt.take(i + 1));
                }
                i += 1;
            }
            proof {
                assert(spec_hpairs(tbl_entries(*t)).take(n as int) =~= spec_hpairs(
                    tbl_entries(*t),
                ));
            }
            FVal::Tbl(out)
        },
        None => FVal::Other,
    }
}

/// Classifies one entry of a top-level section.
fn node_of(v: &toml::Value) -> (r: Node)
    ensures
        r@ == spec_node(*v),
{
    match value_as_table(v) {
        Some(t) => {
            let entries = table_entries(t);
            let mut out: Vec<(String, FVal)> = Vec::new();
            let n = entries.len();
            let mut i: usize = 0;
            while i < n
                invariant
                    n == entries@.len(),
                    0 <= i <= n,
                    tvpairs_view(entries@) == tbl_entries(*t),
                    fpairs_view(out@) == spec_fpairs(tbl_entries(*t)).take(i as int),
                decreases n - i,
            {
                let item = fval_of(&entries[i].1);
                let pair = (entries[i].0.clone(), item);
                let ghost gp = pair;
                let ghost out0 = out@;
                out.push(pair);
                proof {
                    let tv = tbl_entries(*t);
                    let tgt = spec_fpairs(tv);
                    assert(out@ == out0.push(gp));
                    assert(fpairs_view(out0).len() == out0.len());
                    assert(out0.len() == i as int);
                    assert(tv.len() == entries@.len());
                    assert(tgt.len() == tv.len());
                    assert(tv[i as int] == (entries@[i as int].0@, entries@[i as int].1));
                    assert(tgt[i as int] == (tv[i as int].0, spec_fval(tv[i as int].1)));
                    assert forall|j: int| 0 <= j < out@.len() implies #[trigger] fpairs_view(
                        out@,
                    )[j] == tgt.take(i + 1)[j] by {
                        if j < i {
                            assert(out@[j] == out0[j]);
                            assert(fpairs_view(out0)[j] == tgt.take(i as int)[j]);
                        } else {
                            assert(out@[j] == gp);
                        }
                    }
                    assert(fpairs_view(out@) =~= tgt.take(i + 1));
                }
                i += 1;
            }
            proof {
                assert(spec_fpairs(tbl_entries(*t)).take(n as int) =~= spec_fpairs(
                    tbl_entries(*t),
                ));
            }
            Node::Tbl(out)
        },
        None => Node::Other,
    }
}

/// Classifies a top-level section value.
fn section_of(v: &toml::Value) -> (r: Section)
    ensures
        r@ == spec_section(*v),
{
    match value_as_table(v) {
        Some(t) => {
            let entries = table_entries(t);
            let mut out: Vec<(String, Node)> = Vec::new();
            let n = entries.len();
            let mut i: usize = 0;
            while i < n
                invariant
                    n == entries@.len(),
                    0 <= i <= n,
                    tvpairs_view(entries@) == tbl_entries(*t),
                    npairs_view(out@) == spec_npairs(tbl_entries(*t)).take(i as int),
                decreases n - i,
            {
                let item = node_of(&entries[i].1);
                let pair = (entries[i].0.clone(), item);
                let ghost gp = pair;
                let ghost out0 = out@;
                out.push(pair);
                proof {
                    let tv = tbl_entries(*t);
                    let tgt = spec_npairs(tv);
                    assert(out@ == out0.push(gp));
                    assert(npairs_view(out0).len() == out0.len());
                    assert(out0.len() == i as int);
                    assert(tv.len() == entries@.len());
                    assert(tgt.len() == tv.len());
                    assert(tv[i as int] == (entries@[i as int].0@, entries@[i as int].1));
                    assert(tgt[i as int] == (tv[i as int].0, spec_node(tv[i as int].1)));
                    assert forall|j: int| 0 <= j < out@.len() implies #[trigger] npairs_view(
                        out@,
                    )[j] == tgt.take(i + 1)[j] by {
                        if j < i {
                            assert(out@[j] == out0[j]);
                            assert(npairs_view(out0)[j] == tgt.take(i as int)[j]);
                        } else {
                            assert(out@[j] == gp);
                        }
                    }
                    assert(npairs_view(out@) =~= tgt.take(i + 1));
                }
                i += 1;
            }
            proof {
                assert(spec_npairs(tbl_entries(*t)).take(n as int) =~= spec_npairs(
                    tbl_entries(*t),
                ));
            }
            Section::Tbl(out)
        },
        None => Section::Other,
    }
}

/// Picks the `config` and `rules` sections out of a parsed document.
fn extract_doc(t: &toml::Table) -> (r: RawDoc)
    ensures
        r@ == spec_doc(*t),
{
    let entries = table_entries(t);
    let config: Option<Section> = match tv_get(&entries, "config") {
        Some(v) => Some(section_of(v)),
        None => None,
    };
    let rules: Option<Section> = match tv_get(&entries, "rules") {
        Some(v) => Some(section_of(v)),
        None => None,
    };
    RawDoc { config, rules }
}

/// Parses configuration text into the raw document shape: exactly the
/// text's named reading when it is well-formed TOML, `None` otherwise.
pub fn parse_config(text: &str) -> (r: Option<RawDoc>)
    ensures
        r is Some <==> toml_parses(text@),
        r matches Some(d) ==> d@ == doc_of(text@),
{
    match parse_toml(text) {
        Some(t) => Some(extract_doc(&t)),
        None => None,
    }
}

} // verus!
