//! Merging shared blocks into rules: the raw document becomes a flat,
//! self-contained rule table, or a single precise error.
//!
//! A rule that names a shared block starts from the block's fields and
//! overlays every field literally present on the rule itself: presence, not
//! value, decides the override. Resolution walks the `rules` section in
//! declaration order and fails fast on the first malformed value or
//! dangling reference. Body patterns are compiled here, once; a pattern
//! that does not compile disables only its own rule.

use vstd::prelude::*;

use crate::config::{
    fpairs_view, hpairs_view, npairs_view, tget, tget_from, FVal, FValV, HVal, HValV, Node, NodeV,
    RawDoc, RawDocV, Section, SectionV,
};
use crate::error::{ConfigError, ErrV};
use crate::patterns::{regex_compile, regex_valid};
use crate::rules::{rpairs_view, spairs_view, ResolvedRule, RuleTable, RuleV};

verus! {

/// The shared blocks of the document: an absent `config` section is an
/// empty table; a `config` section that is not a table is malformed.
pub open spec fn spec_shared(doc: RawDocV) -> Result<Seq<(Seq<char>, NodeV)>, ErrV> {
    match doc.config {
        None => Ok(Seq::empty()),
        Some(SectionV::Tbl(s)) => Ok(s),
        Some(SectionV::Other) => Err(
            ErrV::Schema { rule: Seq::empty(), field: "config"@ },
        ),
    }
}

/// The rule entries of the document: the `rules` section is required and
/// must be a table.
pub open spec fn spec_rules_list(doc: RawDocV) -> Result<Seq<(Seq<char>, NodeV)>, ErrV> {
    match doc.rules {
        Some(SectionV::Tbl(s)) => Ok(s),
        _ => Err(ErrV::Schema { rule: Seq::empty(), field: "rules"@ }),
    }
}

/// Field-presence override: a field literally present on the rule wins over
/// the shared block's field of the same name.
pub open spec fn field_of(
    own: Seq<(Seq<char>, FValV)>,
    base: Seq<(Seq<char>, FValV)>,
    k: Seq<char>,
) -> Option<FValV> {
    match tget(own, k) {
        Some(v) => Some(v),
        None => tget(base, k),
    }
}

/// The shared-block fields a rule inherits: none when it has no `config`
/// reference; an error when the reference is not a string, names no shared
/// block, or names one that is not a table.
pub open spec fn spec_base(
    shared: Seq<(Seq<char>, NodeV)>,
    key: Seq<char>,
    own: Seq<(Seq<char>, FValV)>,
) -> Result<Seq<(Seq<char>, FValV)>, ErrV> {
    match tget(own, "config"@) {
        None => Ok(Seq::empty()),
        Some(FValV::Str(name)) => match tget(shared, name) {
            None => Err(ErrV::UnknownConfigReference { rule: key, name }),
            Some(NodeV::Tbl(b)) => Ok(b),
            Some(NodeV::Other) => Err(ErrV::Schema { rule: key, field: "config"@ }),
        },
        Some(_) => Err(ErrV::Schema { rule: key, field: "config"@ }),
    }
}

/// An optional field is a well-shaped boolean.
pub open spec fn bool_ok(v: Option<FValV>) -> bool {
    match v {
        None => true,
        Some(FValV::Bool(_)) => true,
        _ => false,
    }
}

/// The boolean a field carries, or the default when absent.
pub open spec fn bool_default(v: Option<FValV>, d: bool) -> bool {
    match v {
        Some(FValV::Bool(b)) => b,
        _ => d,
    }
}

/// An optional field is a well-shaped string.
pub open spec fn str_ok(v: Option<FValV>) -> bool {
    match v {
        None => true,
        Some(FValV::Str(_)) => true,
        _ => false,
    }
}

/// The string a field carries, or the default when absent.
pub open spec fn str_default(v: Option<FValV>, d: Seq<char>) -> Seq<char> {
    match v {
        Some(FValV::Str(s)) => s,
        _ => d,
    }
}

/// The string a field carries, when present.
pub open spec fn str_opt(v: Option<FValV>) -> Option<Seq<char>> {
    match v {
        Some(FValV::Str(s)) => Some(s),
        _ => None,
    }
}

/// Every value of a headers table is a string.
pub open spec fn all_strs(h: Seq<(Seq<char>, HValV)>) -> bool {
    forall|i: int| 0 <= i < h.len() ==> (#[trigger] h[i]).1 is Str
}

/// The string a header value carries.
pub open spec fn hstr(v: HValV) -> Seq<char> {
    match v {
        HValV::Str(s) => s,
        HValV::Other => Seq::empty(),
    }
}

/// A headers table as required (name, value) pairs.
pub open spec fn hdrs_view(h: Seq<(Seq<char>, HValV)>) -> Seq<(Seq<char>, Seq<char>)> {
    h.map_values(|p: (Seq<char>, HValV)| (p.0, hstr(p.1)))
}

/// An optional field is a well-shaped headers table.
pub open spec fn hdrs_ok(v: Option<FValV>) -> bool {
    match v {
        None => true,
        Some(FValV::Tbl(h)) => all_strs(h),
        _ => false,
    }
}

/// The header pairs a field carries, or none when absent.
pub open spec fn hdrs_default(v: Option<FValV>) -> Seq<(Seq<char>, Seq<char>)> {
    match v {
        Some(FValV::Tbl(h)) => hdrs_view(h),
        _ => Seq::empty(),
    }
}

/// Typed extraction of one rule from its own fields overlaid on the
/// inherited ones. Fields are checked in a fixed order (`enabled`, `uri`,
/// `method`, `headers`, `body_re`, `redirect_to`, `name`); the first
/// malformed one names the error. Defaults: enabled, match-all URI, any
/// method, no required headers, match-all body, no redirect, the rule's key
/// as display name.
pub open spec fn spec_fields(
    own: Seq<(Seq<char>, FValV)>,
    base: Seq<(Seq<char>, FValV)>,
    key: Seq<char>,
) -> Result<RuleV, ErrV> {
    if !bool_ok(field_of(own, base, "enabled"@)) {
        Err(ErrV::Schema { rule: key, field: "enabled"@ })
    } else if !str_ok(field_of(own, base, "uri"@)) {
        Err(ErrV::Schema { rule: key, field: "uri"@ })
    } else if !str_ok(field_of(own, base, "method"@)) {
        Err(ErrV::Schema { rule: key, field: "method"@ })
    } else if !hdrs_ok(field_of(own, base, "headers"@)) {
        Err(ErrV::Schema { rule: key, field: "headers"@ })
    } else if !str_ok(field_of(own, base, "body_re"@)) {
        Err(ErrV::Schema { rule: key, field: "body_re"@ })
    } else if !str_ok(field_of(own, base, "redirect_to"@)) {
        Err(ErrV::Schema { rule: key, field: "redirect_to"@ })
    } else if !str_ok(field_of(own, base, "name"@)) {
        Err(ErrV::Schema { rule: key, field: "name"@ })
    } else {
        Ok(
            RuleV {
                enabled: bool_default(field_of(own, base, "enabled"@), true),
                uri: str_default(field_of(own, base, "uri"@), Seq::empty()),
                method: str_opt(field_of(own, base, "method"@)),
                headers: hdrs_default(field_of(own, base, "headers"@)),
                body_re: str_default(field_of(own, base, "body_re"@), Seq::empty()),
                pattern_ok: regex_valid(str_default(field_of(own, base, "body_re"@), Seq::empty())),
                redirect_to: str_opt(field_of(own, base, "redirect_to"@)),
                name: str_default(field_of(own, base, "name"@), key),
            },
        )
    }
}

/// One rule resolved against the shared blocks: the entry must be a table;
/// its inherited fields come from [`spec_base`], its typed fields from
/// [`spec_fields`].
pub open spec fn spec_resolve_rule(
    shared: Seq<(Seq<char>, NodeV)>,
    key: Seq<char>,
    node: NodeV,
) -> Result<RuleV, ErrV> {
    match node {
        NodeV::Other => Err(ErrV::Schema { rule: key, field: Seq::empty() }),
        NodeV::Tbl(own) => match spec_base(shared, key, own) {
            Err(e) => Err(e),
            Ok(base) => spec_fields(own, base, key),
        },
    }
}

/// All rules resolved in declaration order, failing fast on the first
/// error.
pub open spec fn spec_resolve_rules(
    shared: Seq<(Seq<char>, NodeV)>,
    rs: Seq<(Seq<char>, NodeV)>,
) -> Result<Seq<(Seq<char>, RuleV)>, ErrV>
    decreases rs.len(),
{
    if rs.len() == 0 {
        Ok(Seq::empty())
    } else {
        match spec_resolve_rule(shared, rs[0].0, rs[0].1) {
            Err(e) => Err(e),
            Ok(r) => match spec_resolve_rules(shared, rs.drop_first()) {
                Err(e) => Err(e),
                Ok(rest) => Ok(seq![(rs[0].0, r)] + rest),
            },
        }
    }
}

/// What resolution returns for a whole raw document.
pub open spec fn spec_resolve(doc: RawDocV) -> Result<Seq<(Seq<char>, RuleV)>, ErrV> {
    match spec_shared(doc) {
        Err(e) => Err(e),
        Ok(shared) => match spec_rules_list(doc) {
            Err(e) => Err(e),
            Ok(rs) => spec_resolve_rules(shared, rs),
        },
    }
}

/// First field of this name in a rule's or shared block's field list.
fn fget<'a>(t: &'a Vec<(String, FVal)>, k: &str) -> (r: Option<&'a FVal>)
    ensures
        match r {
            Some(v) => tget(fpairs_view(t@), k@) == Some(v@),
            None => tget(fpairs_view(t@), k@) is None,
        },
{
    let key = k.to_owned();
    let n = t.len();
    let mut i: usize = 0;
    while i < n
        invariant
            n == t@.len(),
            0 <= i <= n,
            key@ == k@,
            tget_from(fpairs_view(t@), k@, 0) == tget_from(fpairs_view(t@), k@, i as int),
        decreases n - i,
    {
        if t[i].0 == key {
            return Some(&t[i].1);
        }
        i += 1;
    }
    None
}

/// First entry of this name in a section's entry list.
fn nget<'a>(t: &'a Vec<(String, Node)>, k: &str) -> (r: Option<&'a Node>)
    ensures
        match r {
            Some(v) => tget(npairs_view(t@), k@) == Some(v@),
            None => tget(npairs_view(t@), k@) is None,
        },
{
    let key = k.to_owned();
    let n = t.len();
    let mut i: usize = 0;
    while i < n
        invariant
            n == t@.len(),
            0 <= i <= n,
            key@ == k@,
            tget_from(npairs_view(t@), k@, 0) == tget_from(npairs_view(t@), k@, i as int),
        decreases n - i,
    {
        if t[i].0 == key {
            return Some(&t[i].1);
        }
        i += 1;
    }
    None
}

/// A field looked up with rule-over-block precedence.
fn get_field<'a>(own: &'a Vec<(String, FVal)>, base: &'a Vec<(String, FVal)>, k: &str) -> (r:
    Option<&'a FVal>)
    ensures
        match r {
            Some(v) => field_of(fpairs_view(own@), fpairs_view(base@), k@) == Some(v@),
            None => field_of(fpairs_view(own@), fpairs_view(base@), k@) is None,
        },
{
    match fget(own, k) {
        Some(v) => Some(v),
        None => fget(base, k),
    }
}

/// Copies a headers table into (name, value) pairs; `None` when some value
/// is not a string.
fn extract_headers(h: &Vec<(String, HVal)>) -> (r: Option<Vec<(String, String)>>)
    ensures
        match r {
            Some(out) => all_strs(hpairs_view(h@)) && spairs_view(out@) == hdrs_view(
                hpairs_view(h@),
            ),
            None => !all_strs(hpairs_view(h@)),
        },
{
    let mut out: Vec<(String, String)> = Vec::new();
    let n = h.len();
    let mut i: usize = 0;
    while i < n
        invariant
            n == h@.len(),
            0 <= i <= n,
            forall|j: int| 0 <= j < i ==> (#[trigger] hpairs_view(h@)[j]).1 is Str,
            spairs_view(out@) == hdrs_view(hpairs_view(h@)).take(i as int),
        decreases n - i,
    {
        match &h[i].1 {
            HVal::Str(s) => {
                let pair = (h[i].0.clone(), s.clone());
                let ghost gp = pair;
                let ghost out0 = out@;
                out.push(pair);
                proof {
                    let hv = hpairs_view(h@);
                    let tgt = hdrs_view(hv);
                    assert(out@ == out0.push(gp));
                    assert(spairs_view(out0).len() == out0.len());
                    assert(out0.len() == i as int);
                    assert(hv.len() == h@.len());
                    assert(tgt.len() == hv.len());
                    assert(hv[i as int] == (h@[i as int].0@, h@[i as int].1@));
                    assert(tgt[i as int] == (hv[i as int].0, hstr(hv[i as int].1)));
                    assert forall|j: int| 0 <= j < out@.len() implies #[trigger] spairs_view(
                        out@,
                    )[j] == tgt.take(i + 1)[j] by {
                        if j < i {
                            assert(out@[j] == out0[j]);
                            assert(spairs_view(out0)[j] == tgt.take(i as int)[j]);
                        } else {
                            assert(out@[j] == gp);
                        }
                    }
                    assert(spairs_view(out@) =~= tgt.take(i + 1));
                }
            },
            HVal::Other => {
                assert(hpairs_view(h@)[i as int].1 is Other);
                return None;
            },
        }
        i += 1;
    }
    proof {
        assert(hdrs_view(hpairs_view(h@)).take(n as int) =~= hdrs_view(hpairs_view(h@)));
    }
    Some(out)
}

/// Builds a schema error for one rule's field.
fn schema(key: &String, field: &str) -> (r: ConfigError)
    ensures
        r@ == (ErrV::Schema { rule: key@, field: field@ }),
{
    ConfigError::Schema { rule: key.clone(), field: field.to_owned() }
}

/// Resolves one rule entry against the shared blocks.
pub fn resolve_rule(shared: &Vec<(String, Node)>, key: &String, node: &Node) -> (r: Result<
    ResolvedRule,
    ConfigError,
>)
    ensures
        match r {
            Ok(rr) => spec_resolve_rule(npairs_view(shared@), key@, node@) == Ok::<RuleV, ErrV>(rr@)
                && rr.wf(),
            Err(e) => spec_resolve_rule(npairs_view(shared@), key@, node@) == Err::<RuleV, ErrV>(
                e@,
            ),
        },
{
    let own: &Vec<(String, FVal)> = match node {
        Node::Tbl(t) => t,
        Node::Other => {
            return Err(ConfigError::Schema { rule: key.clone(), field: String::new() });
        },
    };
    let empty_fields: Vec<(String, FVal)> = Vec::new();
    proof {
        assert(fpairs_view(empty_fields@) =~= Seq::<(Seq<char>, FValV)>::empty());
        assert(spairs_view(Seq::<(String, String)>::empty()) =~= Seq::<(
            Seq<char>,
            Seq<char>,
        )>::empty());
    }
    let base: &Vec<(String, FVal)> = match fget(own, "config") {
        None => &empty_fields,
        Some(FVal::Str(name)) => match nget(shared, name.as_str()) {
            None => {
                return Err(
                    ConfigError::UnknownConfigReference { rule: key.clone(), name: name.clone() },
                );
            },
            Some(Node::Tbl(b)) => b,
            Some(Node::Other) => {
                return Err(schema(key, "config"));
            },
        },
        Some(_) => {
            return Err(schema(key, "config"));
        },
    };
    let ghost ownv = fpairs_view(own@);
    let ghost basev = fpairs_view(base@);
    proof {
        assert(spec_base(npairs_view(shared@), key@, ownv) == Ok::<_, ErrV>(basev));
    }
    let enabled: bool = match get_field(own, base, "enabled") {
        None => true,
        Some(FVal::Bool(b)) => *b,
        Some(_) => {
            return Err(schema(key, "enabled"));
        },
    };
    let uri: String = match get_field(own, base, "uri") {
        None => String::new(),
        Some(FVal::Str(s)) => s.clone(),
        Some(_) => {
            return Err(schema(key, "uri"));
        },
    };
    let method: Option<String> = match get_field(own, base, "method") {
        None => None,
        Some(FVal::Str(s)) => Some(s.clone()),
        Some(_) => {
            return Err(schema(key, "method"));
        },
    };
    let headers: Vec<(String, String)> = match get_field(own, base, "headers") {
        None => Vec::new(),
        Some(FVal::Tbl(h)) => match extract_headers(h) {
            Some(hs) => hs,
            None => {
                return Err(schema(key, "headers"));
            },
        },
        Some(_) => {
            return Err(schema(key, "headers"));
        },
    };
    let body_re: String = match get_field(own, base, "body_re") {
        None => String::new(),
        Some(FVal::Str(s)) => s.clone(),
        Some(_) => {
            return Err(schema(key, "body_re"));
        },
    };
    let pattern = regex_compile(body_re.as_str());
    let redirect_to: Option<String> = match get_field(own, base, "redirect_to") {
        None => None,
        Some(FVal::Str(s)) => Some(s.clone()),
        Some(_) => {
            return Err(schema(key, "redirect_to"));
        },
    };
    let name: String = match get_field(own, base, "name") {
        None => key.clone(),
        Some(FVal::Str(s)) => s.clone(),
        Some(_) => {
            return Err(schema(key, "name"));
        },
    };
    let rr = ResolvedRule { enabled, uri, method, headers, body_re, pattern, redirect_to, name };
    proof {
        assert(spec_fields(ownv, basev, key@) matches Ok(rv) && rv == rr@);
    }
    Ok(rr)
}

/// An already-resolved prefix combined with the outcome for the remaining
/// rules.
pub open spec fn combine(
    prefix: Seq<(Seq<char>, RuleV)>,
    rest: Result<Seq<(Seq<char>, RuleV)>, ErrV>,
) -> Result<Seq<(Seq<char>, RuleV)>, ErrV> {
    match rest {
        Ok(r) => Ok(prefix + r),
        Err(e) => Err(e),
    }
}

/// Resolves a whole raw document into a rule table, or the first error in
/// declaration order. Pure: the document is only read.
pub fn resolve(doc: &RawDoc) -> (r: Result<RuleTable, ConfigError>)
    ensures
        match r {
            Ok(t) => spec_resolve(doc@) == Ok::<Seq<(Seq<char>, RuleV)>, ErrV>(t@) && t.wf(),
            Err(e) => spec_resolve(doc@) == Err::<Seq<(Seq<char>, RuleV)>, ErrV>(e@),
        },
{
    let empty_nodes: Vec<(String, Node)> = Vec::new();
    proof {
        assert(npairs_view(empty_nodes@) =~= Seq::<(Seq<char>, NodeV)>::empty());
    }
    let shared: &Vec<(String, Node)> = match &doc.config {
        None => &empty_nodes,
        Some(Section::Tbl(t)) => t,
        Some(Section::Other) => {
            return Err(ConfigError::Schema { rule: String::new(), field: "config".to_owned() });
        },
    };
    let rules: &Vec<(String, Node)> = match &doc.rules {
        Some(Section::Tbl(t)) => t,
        Some(Section::Other) => {
            return Err(ConfigError::Schema { rule: String::new(), field: "rules".to_owned() });
        },
        None => {
            return Err(ConfigError::Schema { rule: String::new(), field: "rules".to_owned() });
        },
    };
    let ghost sharedv = npairs_view(shared@);
    let ghost rsv = npairs_view(rules@);
    proof {
        assert(spec_shared(doc@) == Ok::<Seq<(Seq<char>, NodeV)>, ErrV>(sharedv));
        assert(spec_rules_list(doc@) == Ok::<Seq<(Seq<char>, NodeV)>, ErrV>(rsv));
    }
    let mut out: Vec<(String, ResolvedRule)> = Vec::new();
    let n = rules.len();
    let mut i: usize = 0;
    proof {
        assert(rsv.skip(0) =~= rsv);
        assert(rpairs_view(out@) =~= Seq::<(Seq<char>, RuleV)>::empty());
        if spec_resolve_rules(sharedv, rsv) is Ok {
            assert(Seq::<(Seq<char>, RuleV)>::empty() + spec_resolve_rules(sharedv, rsv)->Ok_0
                =~= spec_resolve_rules(sharedv, rsv)->Ok_0);
        }
    }
    while i < n
        invariant
            n == rules@.len(),
            0 <= i <= n,
            sharedv == npairs_view(shared@),
            rsv == npairs_view(rules@),
            spec_shared(doc@) == Ok::<Seq<(Seq<char>, NodeV)>, ErrV>(sharedv),
            spec_rules_list(doc@) == Ok::<Seq<(Seq<char>, NodeV)>, ErrV>(rsv),
            out@.len() == i,
            forall|j: int| 0 <= j < out@.len() ==> (#[trigger] out@[j]).1.wf(),
            combine(rpairs_view(out@), spec_resolve_rules(sharedv, rsv.skip(i as int)))
                == spec_resolve_rules(sharedv, rsv),
        decreases n - i,
    {
        let key = &rules[i].0;
        let node = &rules[i].1;
        proof {
            assert(rsv[i as int] == (rules@[i as int].0@, rules@[i as int].1@));
            assert(rsv.skip(i as int).len() == rsv.len() - i);
            assert(rsv.skip(i as int)[0] == rsv[i as int]);
        }
        match resolve_rule(shared, key, node) {
            Err(e) => {
                proof {
                    assert(spec_resolve_rules(sharedv, rsv.skip(i as int)) == Err::<
                        Seq<(Seq<char>, RuleV)>,
                        ErrV,
                    >(e@));
                }
                return Err(e);
            },
            Ok(rr) => {
                let ghost grr = rr@;
                let ghost pre = rpairs_view(out@);
                out.push((key.clone(), rr));
                proof {
                    assert(rsv.skip(i as int).drop_first() =~= rsv.skip(i as int + 1));
                    assert(rpairs_view(out@) =~= pre.push((rsv[i as int].0, grr)));
                    let restr = spec_resolve_rules(sharedv, rsv.skip(i as int + 1));
                    if restr is Ok {
                        let rest = restr->Ok_0;
                        assert(pre + (seq![(rsv[i as int].0, grr)] + rest) =~= rpairs_view(out@)
                            + rest);
                    }
                }
            },
        }
        i += 1;
    }
    proof {
        assert(rsv.skip(n as int) =~= Seq::<(Seq<char>, NodeV)>::empty());
        assert(spec_resolve_rules(sharedv, rsv.skip(n as int)) == Ok::<
            Seq<(Seq<char>, RuleV)>,
            ErrV,
        >(Seq::empty()));
        assert(rpairs_view(out@) + Seq::<(Seq<char>, RuleV)>::empty() =~= rpairs_view(out@));
    }
    Ok(RuleTable { entries: out })
}

} // verus!
