//! Immutable configuration consumed by the adapter.

use vstd::prelude::*;

verus! {

/// Settings for the bridge: the account the messages belong to, the
/// path of the external `signal-cli` executable, and the storage
/// directory. Loaded once at startup and never mutated afterwards.
pub struct Settings {
    pub signal_cli_path: String,
    pub account: String,
    pub storage: String,
}

/// Path used for the external executable when none is configured.
pub fn default_signal_cli_path() -> (r: String)
    ensures
        r@ == "/usr/bin/signal-cli"@,
{
    String::from_str("/usr/bin/signal-cli")
}

/// Storage directory used when none is configured.
pub fn default_storage_directory() -> (r: String)
    ensures
        r@ == "./var"@,
{
    String::from_str("./var")
}

impl Settings {
    /// Builds a settings value from an account and the optional
    /// overrides, filling in the defaults where an override is absent.
    pub fn from_parts(account: String, signal_cli_path: Option<String>, storage: Option<String>) -> (r: Settings)
        ensures
            r.account@ == account@,
            r.signal_cli_path@ == match signal_cli_path {
                Some(p) => p@,
                None => "/usr/bin/signal-cli"@,
            },
            r.storage@ == match storage {
                Some(s) => s@,
                None => "./var"@,
            },
    {
        let path = match signal_cli_path {
            Some(p) => p,
            None => default_signal_cli_path(),
        };
        let store = match storage {
            Some(s) => s,
            None => default_storage_directory(),
        };
        Settings { signal_cli_path: path, account, storage: store }
    }
}

} // verus!
