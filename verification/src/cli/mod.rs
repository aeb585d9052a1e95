//! The first form of the gateway's command line: registering servers and
//! editing their tool lists, and running the gateway in the foreground.

pub mod command;
