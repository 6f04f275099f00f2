//! Configuration of the managed service: the root directory under which its
//! executables are installed.

use vstd::prelude::*;

verus! {

/// The directory that falls back in place of a missing or unreadable
/// installation entry.
pub open spec fn fallback_root() -> Seq<char> {
    "C:/Program Files (x86)/Rime/weasel-0.15.0"@
}

/// Resolves the default service root: the value recorded by the installer
/// when one could be read, and a fixed directory otherwise.
pub fn default_rime_root(installed_root: Option<String>) -> (r: String)
    ensures
        r@ == match installed_root {
            Option::Some(v) => v@,
            Option::None => fallback_root(),
        },
{
    match installed_root {
        Option::Some(v) => v,
        Option::None => "C:/Program Files (x86)/Rime/weasel-0.15.0".to_owned(),
    }
}

/// Immutable configuration handed to the service controller at startup.
#[derive(Clone, Debug)]
pub struct ToolConfig {
    /// Directory under which the service's executables are located.
    pub root: String,
}

impl ToolConfig {
    /// Builds a configuration with the given root directory.
    pub fn new(root: String) -> (c: Self)
        ensures
            c.root@ == root@,
    {
        ToolConfig { root }
    }
}

impl Default for ToolConfig {
    /// The configuration used when no configuration file is available.
    fn default() -> (c: Self)
        ensures
            c.root@ == fallback_root(),
    {
        ToolConfig { root: default_rime_root(Option::None) }
    }
}

} // verus!
