use vstd::prelude::*;

verus! {

/// One mod of a mod list.
pub struct ModEntry {
    pub file: String,
}

/// A list of mods.
pub struct Modlist {
    pub mods: Vec<ModEntry>,
}

/// The modpack configuration document.
pub struct BccCommonToml {
    pub general: BccCommonGeneral,
}

/// The general section of the modpack configuration.
pub struct BccCommonGeneral {
    pub modpack_project_id: Option<u64>,
    pub modpack_name: Option<String>,
    pub modpack_version: Option<String>,
    pub use_metadata: Option<bool>,
}

} // verus!
