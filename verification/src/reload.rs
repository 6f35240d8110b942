//! The reload step: new configuration content becomes the live table, or
//! the old table stays authoritative.
//!
//! The embedding watches the configuration source and, on each content
//! change, reads the file and hands the result here. [`stage_reload`] does
//! everything that needs no store — parse and resolve — so the embedding
//! can keep the store locked only for the swap itself. Every failure —
//! unreadable source, malformed text, rejected document — leaves the store
//! exactly as it was: the last-known-good table always remains live.

use vstd::prelude::*;

use crate::config::RawDoc;
use crate::error::ConfigError;
use crate::parse::{doc_of, parse_config, toml_parses};
use crate::resolver::{resolve, spec_resolve};
use crate::rules::RuleTable;
use crate::store::LiveRuleStore;

verus! {

/// What one reload attempt did.
#[derive(Debug)]
pub enum ReloadOutcome {
    /// A new table was resolved and swapped in.
    Updated,
    /// The configuration source could not be read; store untouched.
    SourceUnavailable,
    /// The content was not well-formed TOML; store untouched.
    ParseFailed,
    /// The document was rejected by resolution; store untouched.
    Rejected(ConfigError),
}

/// The computing half of a reload: from raw file content (`None` when the
/// source could not be read) to the table to publish, or the failure to
/// report. Touches no store, so the caller can do this outside any lock
/// and only then swap the table in.
pub fn stage_reload(content: Option<&str>) -> (r: Result<RuleTable, ReloadOutcome>)
    ensures
        content is None ==> (r matches Err(o) && o is SourceUnavailable),
        content matches Some(s) ==> !toml_parses(s@) ==> (r matches Err(o) && o is ParseFailed),
        content matches Some(s) ==> toml_parses(s@) ==> match spec_resolve(doc_of(s@)) {
            Ok(t) => r matches Ok(tbl) && tbl@ == t && tbl.wf(),
            Err(e) => r matches Err(o) && (o matches ReloadOutcome::Rejected(err) && err@ == e),
        },
{
    match content {
        None => Err(ReloadOutcome::SourceUnavailable),
        Some(text) => match parse_config(text) {
            None => Err(ReloadOutcome::ParseFailed),
            Some(doc) => match resolve(&doc) {
                Ok(t) => Ok(t),
                Err(e) => Err(ReloadOutcome::Rejected(e)),
            },
        },
    }
}

/// Publishes the resolution of an already-parsed document, or reports why
/// it was rejected, leaving the store untouched.
pub fn apply_reload(store: &mut LiveRuleStore, doc: &RawDoc) -> (r: ReloadOutcome)
    requires
        old(store).wf(),
    ensures
        final(store).wf(),
        match spec_resolve(doc@) {
            Ok(t) => r is Updated && final(store)@ == t,
            Err(e) => r matches ReloadOutcome::Rejected(err) && err@ == e && final(store)@ == old(
                store,
            )@,
        },
{
    match resolve(doc) {
        Ok(t) => {
            store.swap(t);
            ReloadOutcome::Updated
        },
        Err(e) => ReloadOutcome::Rejected(e),
    }
}

/// One whole reload attempt from raw file content: on well-formed content
/// whose document resolves, the resolved table is swapped in; on any
/// failure the outcome says which step failed and the live table is left
/// exactly as it was.
pub fn reload_from_text(store: &mut LiveRuleStore, content: Option<&str>) -> (r: ReloadOutcome)
    requires
        old(store).wf(),
    ensures
        final(store).wf(),
        !(r is Updated) ==> final(store)@ == old(store)@,
        r is SourceUnavailable <==> content is None,
        content matches Some(s) ==> ((r is ParseFailed) <==> !toml_parses(s@)),
        content matches Some(s) ==> toml_parses(s@) ==> match spec_resolve(doc_of(s@)) {
            Ok(t) => r is Updated && final(store)@ == t,
            Err(e) => r matches ReloadOutcome::Rejected(err) && err@ == e,
        },
{
    match stage_reload(content) {
        Ok(t) => {
            store.swap(t);
            ReloadOutcome::Updated
        },
        Err(o) => o,
    }
}

} // verus!
