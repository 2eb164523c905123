//! Launches a command inside a transient cgroup that carries socket hooks.
//!
//! The library holds the decisions of a launch: the name and place of the
//! transient cgroup, the order of the kernel-facing steps, the relay of
//! interrupts to the child and the exit code that is reported.
pub mod outcome;
pub mod session;
pub mod laws;
pub mod naming;
pub mod cgroup_path;
