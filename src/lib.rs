//! Decisions of a small scene viewer: when to patch and spawn a loading scene asset, which of its
//! materials get which edit, and which scene nodes are excluded from shadows.

pub mod materials;
pub mod names;
pub mod patcher;
