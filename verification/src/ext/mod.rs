//! Extensions of standard types.

pub mod mutation_ext;

pub use mutation_ext::ArcExt;
pub use mutation_ext::CloneExt;
