//! The command-line surface, as plain data: the embedding parses the
//! actual arguments and hands over one of these values.

use vstd::prelude::*;

verus! {

/// What the proxy was asked to do.
pub enum Commands {
    /// Install a certificate-authority certificate and key for later runs.
    Config { cert_path: String, key_path: String },
    /// Run the intercepting proxy.
    Serve,
}

/// Parsed invocation: the port to listen on and an optional subcommand;
/// no subcommand means serve.
pub struct Args {
    pub port: u16,
    pub command: Option<Commands>,
}

impl Args {
    /// The subcommand to run: an explicit one, or serve by default.
    pub fn effective_command(self) -> (r: Commands)
        ensures
            self.command matches Some(c) ==> r == c,
            self.command is None ==> r is Serve,
    {
        match self.command {
            Some(c) => c,
            None => Commands::Serve,
        }
    }
}

} // verus!
