//! Error values reported by configuration resolution and reload.

use vstd::prelude::*;

verus! {

/// A human-readable error message carried out of the proxy core.
pub struct ProxylError {
    message: String,
}

impl View for ProxylError {
    type V = Seq<char>;

    closed spec fn view(&self) -> Seq<char> {
        self.message@
    }
}

impl ProxylError {
    /// Wraps a message string.
    pub fn new(message: String) -> (r: Self)
        ensures
            r@ == message@,
    {
        Self { message }
    }

    /// The wrapped message.
    pub fn message(&self) -> (r: &String)
        ensures
            r@ == self@,
    {
        &self.message
    }
}

/// Mathematical form of a [`ConfigError`].
pub enum ErrV {
    Schema { rule: Seq<char>, field: Seq<char> },
    UnknownConfigReference { rule: Seq<char>, name: Seq<char> },
}

/// Why a raw configuration document was rejected as a whole.
///
/// `Schema` names the rule and field whose value has the wrong shape; the
/// empty rule name stands for the document's top level, and the empty field
/// name for a rule entry that is not a table. A dangling `config` reference
/// is reported as `UnknownConfigReference` with the referring rule and the
/// missing name.
#[derive(Debug, PartialEq)]
pub enum ConfigError {
    Schema { rule: String, field: String },
    UnknownConfigReference { rule: String, name: String },
}

impl View for ConfigError {
    type V = ErrV;

    open spec fn view(&self) -> ErrV {
        match self {
            ConfigError::Schema { rule, field } => ErrV::Schema { rule: rule@, field: field@ },
            ConfigError::UnknownConfigReference { rule, name } => ErrV::UnknownConfigReference {
                rule: rule@,
                name: name@,
            },
        }
    }
}

} // verus!
