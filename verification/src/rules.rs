//! Resolved rules and the ordered rule table.

use vstd::prelude::*;

use crate::patterns::{regex_pattern, regex_valid};

verus! {

/// Mathematical form of a [`ResolvedRule`].
///
/// `pattern_ok` records whether the rule's body pattern compiled; a rule
/// whose pattern is invalid never matches, so one broken pattern cannot
/// block the rest of the table.
pub struct RuleV {
    pub enabled: bool,
    pub uri: Seq<char>,
    pub method: Option<Seq<char>>,
    pub headers: Seq<(Seq<char>, Seq<char>)>,
    pub body_re: Seq<char>,
    pub pattern_ok: bool,
    pub redirect_to: Option<Seq<char>>,
    pub name: Seq<char>,
}

/// One rule with every inherited field inlined, ready for matching.
///
/// Defaults are already applied: an empty `uri` matches every request URI, a
/// `method` of `None` matches every method, an empty `headers` table and an
/// empty `body_re` constrain nothing, and `name` falls back to the rule's
/// key. `pattern` is the body pattern compiled once at resolution time,
/// `None` exactly when the pattern text is not a valid regular expression.
pub struct ResolvedRule {
    pub enabled: bool,
    pub uri: String,
    pub method: Option<String>,
    pub headers: Vec<(String, String)>,
    pub body_re: String,
    pub pattern: Option<regex::Regex>,
    pub redirect_to: Option<String>,
    pub name: String,
}

/// View of a sequence of required header pairs.
pub open spec fn spairs_view(s: Seq<(String, String)>) -> Seq<(Seq<char>, Seq<char>)> {
    s.map_values(|p: (String, String)| (p.0@, p.1@))
}

/// View of an optional string.
pub open spec fn opt_str_view(o: Option<String>) -> Option<Seq<char>> {
    match o {
        Some(s) => Some(s@),
        None => None,
    }
}

impl View for ResolvedRule {
    type V = RuleV;

    open spec fn view(&self) -> RuleV {
        RuleV {
            enabled: self.enabled,
            uri: self.uri@,
            method: opt_str_view(self.method),
            headers: spairs_view(self.headers@),
            body_re: self.body_re@,
            pattern_ok: self.pattern is Some,
            redirect_to: opt_str_view(self.redirect_to),
            name: self.name@,
        }
    }
}

impl ResolvedRule {
    /// The compiled pattern belongs to `body_re`: it exists exactly when the
    /// pattern text is valid, and accepts what that text accepts.
    pub open spec fn wf(&self) -> bool {
        &&& self.pattern is Some <==> regex_valid(self.body_re@)
        &&& self.pattern matches Some(re) ==> regex_pattern(re) == self.body_re@
    }
}

/// The ordered rule table: (key, rule) pairs in configuration declaration
/// order, so that first-match tie-breaking is deterministic.
pub struct RuleTable {
    pub entries: Vec<(String, ResolvedRule)>,
}

/// View of a sequence of keyed rules.
pub open spec fn rpairs_view(s: Seq<(String, ResolvedRule)>) -> Seq<(Seq<char>, RuleV)> {
    s.map_values(|p: (String, ResolvedRule)| (p.0@, p.1@))
}

impl View for RuleTable {
    type V = Seq<(Seq<char>, RuleV)>;

    open spec fn view(&self) -> Seq<(Seq<char>, RuleV)> {
        rpairs_view(self.entries@)
    }
}

impl RuleTable {
    /// Every rule's compiled pattern belongs to its pattern text.
    pub open spec fn wf(&self) -> bool {
        forall|i: int| 0 <= i < self.entries@.len() ==> (#[trigger] self.entries@[i].1).wf()
    }

    /// The table with no rules: nothing matches, every request passes
    /// through.
    pub fn empty() -> (r: Self)
        ensures
            r@ == Seq::<(Seq<char>, RuleV)>::empty(),
            r.wf(),
    {
        let entries: Vec<(String, ResolvedRule)> = Vec::new();
        let r = RuleTable { entries };
        proof {
            assert(r@ =~= Seq::<(Seq<char>, RuleV)>::empty());
        }
        r
    }

    /// Number of rules.
    pub fn len(&self) -> (n: usize)
        ensures
            n == self@.len(),
    {
        self.entries.len()
    }
}

} // verus!
