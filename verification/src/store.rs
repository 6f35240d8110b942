//! The live rule store: the one holder of the currently active table.
//!
//! The table is always replaced wholesale, never edited in place, so a
//! reader can never observe a mix of old and new rules. Sharing the store
//! between request tasks and the reload task is the embedding's concern; a
//! reader only ever borrows the current table.

use vstd::prelude::*;

use crate::rules::{RuleTable, RuleV};

verus! {

/// Process-wide holder of exactly one resolved rule table at a time.
pub struct LiveRuleStore {
    table: RuleTable,
}

impl View for LiveRuleStore {
    type V = Seq<(Seq<char>, RuleV)>;

    closed spec fn view(&self) -> Seq<(Seq<char>, RuleV)> {
        self.table@
    }
}

impl LiveRuleStore {
    /// The held table is well-formed.
    pub closed spec fn wf(&self) -> bool {
        self.table.wf()
    }

    /// Starts with the given table; start from [`RuleTable::empty`] when no
    /// usable configuration exists yet.
    pub fn new(table: RuleTable) -> (r: Self)
        requires
            table.wf(),
        ensures
            r@ == table@,
            r.wf(),
    {
        LiveRuleStore { table }
    }

    /// Borrows the currently active table. Non-blocking and read-only: the
    /// store is untouched.
    pub fn read(&self) -> (r: &RuleTable)
        ensures
            r@ == self@,
            self.wf() ==> r.wf(),
    {
        &self.table
    }

    /// Atomically replaces the whole table; every later read sees exactly
    /// the new rules.
    pub fn swap(&mut self, table: RuleTable)
        requires
            table.wf(),
        ensures
            final(self)@ == table@,
            final(self).wf(),
    {
        self.table = table;
    }
}

} // verus!
