//! Helpers for collections.

pub mod circular_vec;
pub mod vec;

pub use circular_vec::CircularVec;
pub use circular_vec::CircularVecIter;
pub use vec::new_vec;
