//! Start-up support for a long-running network client: raising the limit on
//! open file descriptors as far as the operating system allows, and the
//! decisions of a process that runs under a native service manager.

pub mod control;
pub mod fd_limit;
pub mod install;
pub mod launch;
pub mod service;
pub mod status;
