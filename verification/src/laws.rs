//! The library's general guarantees, stated and proved once over the spec
//! functions that the executable contracts use.

use vstd::prelude::*;

use crate::config::{tget, FValV, NodeV, RawDocV};
use crate::error::ErrV;
use crate::matcher::{first_match_from, rule_applies, spec_find, ReqV};
use crate::parse::doc_of;
use crate::resolver::{
    field_of, spec_fields, spec_resolve, spec_resolve_rule, spec_resolve_rules, spec_rules_list,
    spec_shared,
};
use crate::rules::RuleV;

verus! {

/// Whatever index matching reports from position `i` on: the reported rule
/// applies, and no rule between `i` and it applies; when nothing is
/// reported, no rule from `i` on applies.
proof fn lemma_first_match_from(t: Seq<(Seq<char>, RuleV)>, q: ReqV, i: int)
    requires
        0 <= i <= t.len(),
    ensures
        match first_match_from(t, q, i) {
            Some(m) => i <= m < t.len() && rule_applies(t[m].1, q) && forall|j: int|
                i <= j < m ==> !(#[trigger] rule_applies(t[j].1, q)),
            None => forall|j: int| i <= j < t.len() ==> !(#[trigger] rule_applies(t[j].1, q)),
        },
    decreases t.len() - i,
{
    if i < t.len() && !rule_applies(t[i].1, q) {
        lemma_first_match_from(t, q, i + 1);
    }
}

/// First declared wins: the match result, when there is one, is a rule that
/// applies, and every rule declared earlier does not; when there is none,
/// no rule in the table applies.
pub proof fn lemma_first_match(t: Seq<(Seq<char>, RuleV)>, q: ReqV)
    ensures
        match spec_find(t, q) {
            Some(m) => 0 <= m < t.len() && rule_applies(t[m].1, q) && forall|j: int|
                0 <= j < m ==> !(#[trigger] rule_applies(t[j].1, q)),
            None => forall|j: int| 0 <= j < t.len() ==> !(#[trigger] rule_applies(t[j].1, q)),
        },
{
    lemma_first_match_from(t, q, 0);
}

/// Matching from `k` reports exactly `i` when no rule in `[k, i)` applies
/// and rule `i` does.
proof fn lemma_find_exact_from(t: Seq<(Seq<char>, RuleV)>, q: ReqV, k: int, i: int)
    requires
        0 <= k <= i < t.len(),
        rule_applies(t[i].1, q),
        forall|j: int| k <= j < i ==> !(#[trigger] rule_applies(t[j].1, q)),
    ensures
        first_match_from(t, q, k) == Some(i),
    decreases i - k,
{
    if k < i {
        lemma_find_exact_from(t, q, k + 1, i);
    }
}

/// A request that satisfies exactly one earliest rule of a resolved table
/// is matched to that rule: resolution followed by matching returns rule
/// `i` whenever rule `i` applies and no rule declared before it does.
pub proof fn lemma_resolve_first_wins(doc: RawDocV, q: ReqV, i: int)
    requires
        spec_resolve(doc) is Ok,
        0 <= i < spec_resolve(doc)->Ok_0.len(),
        rule_applies(spec_resolve(doc)->Ok_0[i].1, q),
        forall|j: int|
            0 <= j < i ==> !(#[trigger] rule_applies(spec_resolve(doc)->Ok_0[j].1, q)),
    ensures
        spec_find(spec_resolve(doc)->Ok_0, q) == Some(i),
{
    lemma_find_exact_from(spec_resolve(doc)->Ok_0, q, 0, i);
}

/// Resolution fails fast: when every rule before `i` resolves and rule `i`
/// does not, the whole resolution reports rule `i`'s error.
proof fn lemma_rules_err_at(
    shared: Seq<(Seq<char>, NodeV)>,
    rs: Seq<(Seq<char>, NodeV)>,
    i: int,
)
    requires
        0 <= i < rs.len(),
        forall|j: int|
            0 <= j < i ==> (#[trigger] spec_resolve_rule(shared, rs[j].0, rs[j].1)) is Ok,
        spec_resolve_rule(shared, rs[i].0, rs[i].1) is Err,
    ensures
        spec_resolve_rules(shared, rs) == Err::<Seq<(Seq<char>, RuleV)>, ErrV>(
            spec_resolve_rule(shared, rs[i].0, rs[i].1)->Err_0,
        ),
    decreases i,
{
    if i > 0 {
        assert(spec_resolve_rule(shared, rs[0].0, rs[0].1) is Ok);
        let rest = rs.drop_first();
        assert forall|j: int| 0 <= j < i - 1 implies (#[trigger] spec_resolve_rule(
            shared,
            rest[j].0,
            rest[j].1,
        )) is Ok by {
            assert(rest[j] == rs[j + 1]);
        }
        assert(rest[i - 1] == rs[i]);
        lemma_rules_err_at(shared, rest, i - 1);
    }
}

/// A dangling `config` reference rejects the whole document: when every
/// rule declared before rule `i` resolves, rule `i` is a table whose
/// `config` field names `name`, and no shared block of that name exists,
/// resolution fails with `UnknownConfigReference` for rule `i`, naming the
/// missing block. (The reload step then leaves the live store unchanged,
/// by the contract of `apply_reload`.)
pub proof fn lemma_unknown_config_rejected(
    doc: RawDocV,
    i: int,
    own: Seq<(Seq<char>, FValV)>,
    name: Seq<char>,
)
    requires
        spec_shared(doc) is Ok,
        spec_rules_list(doc) is Ok,
        0 <= i < spec_rules_list(doc)->Ok_0.len(),
        forall|j: int|
            0 <= j < i ==> (#[trigger] spec_resolve_rule(
                spec_shared(doc)->Ok_0,
                spec_rules_list(doc)->Ok_0[j].0,
                spec_rules_list(doc)->Ok_0[j].1,
            )) is Ok,
        spec_rules_list(doc)->Ok_0[i].1 == NodeV::Tbl(own),
        tget(own, "config"@) == Some(FValV::Str(name)),
        tget(spec_shared(doc)->Ok_0, name) is None,
    ensures
        spec_resolve(doc) == Err::<Seq<(Seq<char>, RuleV)>, ErrV>(
            ErrV::UnknownConfigReference { rule: spec_rules_list(doc)->Ok_0[i].0, name },
        ),
{
    let shared = spec_shared(doc)->Ok_0;
    let rs = spec_rules_list(doc)->Ok_0;
    assert(spec_resolve_rule(shared, rs[i].0, rs[i].1) == Err::<RuleV, ErrV>(
        ErrV::UnknownConfigReference { rule: rs[i].0, name },
    ));
    lemma_rules_err_at(shared, rs, i);
}

/// Presence, not value, decides an override: a field literally present on
/// the rule is taken even when the shared block also carries it, and an
/// absent field falls back to the block's.
pub proof fn lemma_presence_override(
    own: Seq<(Seq<char>, FValV)>,
    base: Seq<(Seq<char>, FValV)>,
    k: Seq<char>,
)
    ensures
        tget(own, k) is Some ==> field_of(own, base, k) == tget(own, k),
        tget(own, k) is None ==> field_of(own, base, k) == tget(base, k),
{
}

/// The override seen end to end: whenever a rule's own fields carry a
/// `method` string — whatever the shared block it references carries — the
/// resolved rule's method is the rule's own.
pub proof fn lemma_method_override(
    own: Seq<(Seq<char>, FValV)>,
    base: Seq<(Seq<char>, FValV)>,
    key: Seq<char>,
    m: Seq<char>,
)
    requires
        tget(own, "method"@) == Some(FValV::Str(m)),
        spec_fields(own, base, key) is Ok,
    ensures
        spec_fields(own, base, key)->Ok_0.method == Some(m),
{
}

/// Reload is deterministic from the text up: the same configuration
/// content parses to the same document and resolves to the same table, and
/// any request matches that table the same way — feeding identical content
/// twice yields behaviorally equivalent tables.
pub proof fn lemma_reload_idempotent(s1: Seq<char>, s2: Seq<char>, q: ReqV)
    requires
        s1 == s2,
    ensures
        spec_resolve(doc_of(s1)) == spec_resolve(doc_of(s2)),
        spec_resolve(doc_of(s1)) is Ok ==> spec_find(spec_resolve(doc_of(s1))->Ok_0, q)
            == spec_find(spec_resolve(doc_of(s2))->Ok_0, q),
{
}

/// Matching is a pure function of the published table and the request:
/// readers of the same table — however many, in whatever order — see
/// exactly the single-threaded result.
pub proof fn lemma_match_consistent(
    t1: Seq<(Seq<char>, RuleV)>,
    t2: Seq<(Seq<char>, RuleV)>,
    q: ReqV,
)
    requires
        t1 == t2,
    ensures
        spec_find(t1, q) == spec_find(t2, q),
{
}

} // verus!
