//! Running work inside another process's network namespace on Linux, and the
//! error numbers that the system calls involved report.

pub mod decimal;
pub mod errno;
pub mod netns;
pub mod netns_linux;

pub use errno::{Errno, Error};
pub use netns::{Action, ExecStatus, Stage};
pub use netns_linux::NetNS;
