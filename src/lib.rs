//! Canonical module paths and the lowering of syntactic `use`-style paths
//! into them, with the hygiene decisions that lowering has to make.

pub mod mod_path;
pub mod lower;
pub mod known;
pub mod lsp_error;
pub mod laws;
