//! The fixed configuration a run starts from.
//!
//! The driver reads it from a file and the environment; this module states
//! what a complete configuration is and which defaults fill the optional
//! fields.

use vstd::prelude::*;

verus! {

/// Everything a run needs: where files land, the platform version and
/// loader filter, and the identifiers to track.
pub struct Configuration {
    /// Directory the canonical files are kept in.
    pub mod_path: String,
    /// Target platform version, passed to the registry as-is.
    pub version: String,
    /// Target loader name, passed to the registry as-is.
    pub loader: String,
    /// The tracked identifiers, one download task each.
    pub mod_ids: Vec<String>,
}

/// The loader used when the configuration names none.
pub fn default_loader() -> (r: String)
    ensures
        r@ == "fabric"@,
{
    String::from_str("fabric")
}

/// The mod directory used when the configuration names none.
pub fn default_mod_path() -> (r: String)
    ensures
        r@ == "/minecraft/mods"@,
{
    String::from_str("/minecraft/mods")
}

impl Configuration {
    /// A configuration from what was read, with the defaults filled in for
    /// the optional fields.
    pub fn from_parts(
        mod_path: Option<String>,
        version: String,
        loader: Option<String>,
        mod_ids: Vec<String>,
    ) -> (c: Configuration)
        ensures
            mod_path matches Some(p) ==> c.mod_path@ == p@,
            mod_path is None ==> c.mod_path@ == "/minecraft/mods"@,
            loader matches Some(l) ==> c.loader@ == l@,
            loader is None ==> c.loader@ == "fabric"@,
            c.version@ == version@,
            c.mod_ids@ == mod_ids@,
    {
        let mod_path = match mod_path {
            Some(p) => p,
            None => default_mod_path(),
        };
        let loader = match loader {
            Some(l) => l,
            None => default_loader(),
        };
        Configuration { mod_path, version, loader, mod_ids }
    }
}

} // verus!
