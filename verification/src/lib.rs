//! Helpers for supervising detached child processes, small collections,
//! path handling and compact image encodings.

pub mod collection;
pub mod cv_mat;
pub mod decimal;
pub mod ext;
pub mod fs;
pub mod le;
pub mod mini_bmp;
pub mod tokio_proc;
