//! Commands that a desktop front end invokes on its native side: reading and
//! saving text files, probing whether a path exists, and setting a persistent
//! environment variable where the platform offers that.
//!
//! The functions here decide what each command answers from what the
//! operating system reported; the calls into the filesystem and the
//! subprocess are made by the host application around this library.

pub mod error;
pub mod file_commands;
pub mod env_var;
