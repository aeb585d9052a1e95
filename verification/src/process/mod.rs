//! Gateway instances running in the background: their files in the run
//! directory, how they are listed and stopped, their status and their log.

pub mod error;
pub mod pid;
pub mod stop;
pub mod status;
pub mod attach;
pub mod log;
