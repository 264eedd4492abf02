//! Control logic for a single game server: the order of the steps of its
//! maintenance workflows, the reconciliation of its mods, its backup
//! manifest, the version checks against the published server packs, and
//! the text formats it reads and writes.

pub mod archive;
pub mod config;
pub mod curseforge;
pub mod manifest;
pub mod models;
pub mod paths;
pub mod reconcile;
pub mod report;
pub mod serverctl;
pub mod text;
pub mod upload;
pub mod version;
pub mod workflow;
