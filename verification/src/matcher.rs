//! First-match rule evaluation over an intercepted request.

use vstd::prelude::*;

use crate::patterns::{regex_accepts, regex_is_match};
use crate::rules::{opt_str_view, spairs_view, ResolvedRule, RuleTable, RuleV};
use crate::text::{body_text, lower_of, lowercase, utf8_or_empty};

verus! {

/// Mathematical form of a [`Request`].
pub struct ReqV {
    pub method: Seq<char>,
    pub uri: Seq<char>,
    pub headers: Seq<(Seq<char>, Seq<char>)>,
    pub body: Seq<u8>,
}

/// The parts of an intercepted request that rules are evaluated against.
pub struct Request {
    pub method: String,
    pub uri: String,
    pub headers: Vec<(String, String)>,
    pub body: Vec<u8>,
}

impl View for Request {
    type V = ReqV;

    open spec fn view(&self) -> ReqV {
        ReqV {
            method: self.method@,
            uri: self.uri@,
            headers: spairs_view(self.headers@),
            body: self.body@,
        }
    }
}

/// Value of the first request header at or after position `i` whose name
/// equals `k` up to case, if any.
pub open spec fn header_lookup_from(
    qh: Seq<(Seq<char>, Seq<char>)>,
    k: Seq<char>,
    i: int,
) -> Option<Seq<char>>
    decreases qh.len() - i,
{
    if i < 0 || i >= qh.len() {
        None
    } else if lower_of(qh[i].0) == lower_of(k) {
        Some(qh[i].1)
    } else {
        header_lookup_from(qh, k, i + 1)
    }
}

/// Value the request carries for header name `k`, compared case-insensitively.
pub open spec fn header_lookup(qh: Seq<(Seq<char>, Seq<char>)>, k: Seq<char>) -> Option<Seq<char>> {
    header_lookup_from(qh, k, 0)
}

/// One required header is satisfied: if the request carries the header its
/// value must equal the required one exactly; a header the request does not
/// carry does not fail the rule.
pub open spec fn header_ok(qh: Seq<(Seq<char>, Seq<char>)>, k: Seq<char>, v: Seq<char>) -> bool {
    match header_lookup(qh, k) {
        Some(hv) => hv == v,
        None => true,
    }
}

/// Every header the rule lists is satisfied by the request.
pub open spec fn headers_match(
    rh: Seq<(Seq<char>, Seq<char>)>,
    qh: Seq<(Seq<char>, Seq<char>)>,
) -> bool {
    forall|i: int| 0 <= i < rh.len() ==> header_ok(qh, (#[trigger] rh[i]).0, rh[i].1)
}

/// The whole conjunction a rule evaluates to against a request: enabled,
/// URI (exact, empty matches all), method (case-insensitive, absent matches
/// all), required headers, and the body pattern (a rule whose pattern did
/// not compile never matches; the body is its UTF-8 decoding, or empty).
pub open spec fn rule_applies(r: RuleV, q: ReqV) -> bool {
    &&& r.enabled
    &&& (r.uri.len() == 0 || r.uri == q.uri)
    &&& match r.method {
        Some(m) => lower_of(m) == lower_of(q.method),
        None => true,
    }
    &&& headers_match(r.headers, q.headers)
    &&& r.pattern_ok
    &&& regex_accepts(r.body_re, utf8_or_empty(q.body))
}

/// Index of the first rule at or after position `i` that applies, if any.
pub open spec fn first_match_from(t: Seq<(Seq<char>, RuleV)>, q: ReqV, i: int) -> Option<int>
    decreases t.len() - i,
{
    if i < 0 || i >= t.len() {
        None
    } else if rule_applies(t[i].1, q) {
        Some(i)
    } else {
        first_match_from(t, q, i + 1)
    }
}

/// Index of the first rule in table order that applies to the request.
pub open spec fn spec_find(t: Seq<(Seq<char>, RuleV)>, q: ReqV) -> Option<int> {
    first_match_from(t, q, 0)
}

/// Looks the request's headers up by name, case-insensitively; first carried
/// value wins.
fn lookup_header<'a>(qh: &'a Vec<(String, String)>, k: &String) -> (r: Option<&'a String>)
    ensures
        match r {
            Some(v) => header_lookup(spairs_view(qh@), k@) == Some(v@),
            None => header_lookup(spairs_view(qh@), k@) is None,
        },
{
    let want = lowercase(k.as_str());
    let n = qh.len();
    let mut i: usize = 0;
    while i < n
        invariant
            n == qh@.len(),
            0 <= i <= n,
            want@ == lower_of(k@),
            header_lookup_from(spairs_view(qh@), k@, 0) == header_lookup_from(
                spairs_view(qh@),
                k@,
                i as int,
            ),
        decreases n - i,
    {
        let have = lowercase(qh[i].0.as_str());
        if have == want {
            return Some(&qh[i].1);
        }
        i += 1;
    }
    None
}

/// Every header pair the rule lists is satisfied by the request.
fn headers_satisfied(rh: &Vec<(String, String)>, qh: &Vec<(String, String)>) -> (b: bool)
    ensures
        b == headers_match(spairs_view(rh@), spairs_view(qh@)),
{
    let n = rh.len();
    let mut i: usize = 0;
    while i < n
        invariant
            n == rh@.len(),
            0 <= i <= n,
            forall|j: int|
                0 <= j < i ==> header_ok(
                    spairs_view(qh@),
                    (#[trigger] spairs_view(rh@)[j]).0,
                    spairs_view(rh@)[j].1,
                ),
        decreases n - i,
    {
        match lookup_header(qh, &rh[i].0) {
            Some(v) => {
                if !(*v == rh[i].1) {
                    assert(!header_ok(spairs_view(qh@), spairs_view(rh@)[i as int].0, spairs_view(rh@)[i as int].1));
                    return false;
                }
            },
            None => {},
        }
        i += 1;
    }
    true
}

/// Evaluates one rule's whole conjunction against the request, whose body
/// text is handed in already decoded.
fn rule_matches(r: &ResolvedRule, q: &Request, body: &str) -> (b: bool)
    requires
        r.wf(),
        body@ == utf8_or_empty(q.body@),
    ensures
        b == rule_applies(r@, q@),
{
    if !r.enabled {
        return false;
    }
    if !r.uri.as_str().is_empty() {
        if !(r.uri == q.uri) {
            return false;
        }
    }
    match &r.method {
        Some(m) => {
            let rm = lowercase(m.as_str());
            let qm = lowercase(q.method.as_str());
            if !(rm == qm) {
                return false;
            }
        },
        None => {},
    }
    if !headers_satisfied(&r.headers, &q.headers) {
        return false;
    }
    match &r.pattern {
        Some(re) => regex_is_match(re, body),
        None => false,
    }
}

/// Finds the first rule in declaration order that applies to the request.
/// Matching mutates neither the table nor the request.
pub fn find_match(table: &RuleTable, q: &Request) -> (r: Option<usize>)
    requires
        table.wf(),
    ensures
        match r {
            Some(i) => i < table@.len() && spec_find(table@, q@) == Some(i as int),
            None => spec_find(table@, q@) is None,
        },
{
    let body = body_text(q.body.as_slice());
    let n = table.entries.len();
    let mut i: usize = 0;
    while i < n
        invariant
            n == table.entries@.len(),
            0 <= i <= n,
            table.wf(),
            body@ == utf8_or_empty(q.body@),
            first_match_from(table@, q@, 0) == first_match_from(table@, q@, i as int),
        decreases n - i,
    {
        assert(table@[i as int].1 == table.entries@[i as int].1@);
        assert(table.entries@[i as int].1.wf());
        if rule_matches(&table.entries[i].1, q, body.as_str()) {
            return Some(i);
        }
        i += 1;
    }
    None
}

/// What the interceptor does with a matched rule: rewrite the request's
/// target to `target` when the rule carries one, and report `rule_name`.
pub struct Redirect {
    pub target: Option<String>,
    pub rule_name: String,
}

/// Per-request entry point: evaluates the table against the request and, on
/// a match, hands back the matched rule's redirect target and display name.
/// `None` means the request passes through unmodified.
pub fn intercept(table: &RuleTable, q: &Request) -> (r: Option<Redirect>)
    requires
        table.wf(),
    ensures
        match spec_find(table@, q@) {
            Some(i) => r matches Some(rd) && opt_str_view(rd.target)
                == table@[i].1.redirect_to && rd.rule_name@ == table@[i].1.name,
            None => r is None,
        },
{
    match find_match(table, q) {
        Some(i) => {
            let rule = &table.entries[i].1;
            let target = match &rule.redirect_to {
                Some(t) => Some(t.clone()),
                None => None,
            };
            Some(Redirect { target, rule_name: rule.name.clone() })
        },
        None => None,
    }
}

} // verus!
