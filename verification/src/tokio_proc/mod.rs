//! Supervision of a child process whose standard streams are bridged
//! through named pipes in a working directory, so that the process can be
//! detached from the program that spawned it and found again by another.
//!
//! Nothing here touches the operating system. Every operation is a
//! protocol: a value that says which call is to be made next (`pending`),
//! takes the reply to it (`advance`), and says what it has come to once no
//! call is pending (`result`). The program that drives a protocol makes
//! the calls: it creates pipes and processes, waits, signals and sleeps.
//! What is decided between the calls, and in which order they come, is
//! decided and proved here.

pub mod attach;
pub mod child;
pub mod daemon;
pub mod error;
pub mod layout;
pub mod operation;
pub mod os;
pub mod pidfile;
pub mod spawn;
pub mod status;

pub use child::ChildWrapper;
pub use daemon::ProcessHandle;
