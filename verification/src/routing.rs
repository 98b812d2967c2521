//! Split-tunnel routes: building them, running them, and recovering what a
//! crashed run left behind.

pub mod commands;
pub mod failclosed;
pub mod install;
pub mod recover;
pub mod recovery;
pub mod route_laws;
pub mod run;
pub mod state;
pub mod state_file;
