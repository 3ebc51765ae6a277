//! The process-wide configuration, loaded once at startup: the address to
//! serve on and the plugin configuration tree.

use vstd::prelude::*;
use crate::stats_collector::ConfigValue;

verus! {

/// The startup configuration.  The caller reads it from the configuration
/// file; an absent file means the default.
#[derive(Debug, PartialEq, Eq)]
pub struct Config {
    /// The address the server binds, as `host:port` text.
    pub addr: String,
    /// The plugin configuration tree, namespaced per collector name.
    pub plugin_config: Vec<(String, ConfigValue)>,
}

impl Default for Config {
    /// The configuration used when no file is present: the loopback address
    /// on port 8080, and no plugin configuration.
    fn default() -> (r: Self)
        ensures
            r.addr@ == "127.0.0.1:8080"@,
            r.plugin_config@.len() == 0,
    {
        Config { addr: "127.0.0.1:8080".to_owned(), plugin_config: Vec::new() }
    }
}

} // verus!
