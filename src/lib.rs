//! A namespace-scoped process launcher: the decisions and data behind
//! spawning a child into new Linux namespaces, writing its identity maps
//! before it may run, joining the namespace of a running process, and
//! chaining nested PID namespaces. The system calls themselves are made by
//! the caller, which performs the steps these functions return.


pub mod nsset;
pub mod text;
pub mod idmap;
pub mod handshake;
pub mod nested;
pub mod joiner;
pub mod spawner;
pub mod reaper;
pub mod errors;
