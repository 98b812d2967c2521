//! Fail-closed covers: firewall rules that block egress until the tunnel is up,
//! and what is known of the ones a crash left behind.

pub mod answer_laws;
pub mod boottime_witness;
pub mod clearance;
pub mod cover_laws;
pub mod cover_state;
pub mod disengage;
pub mod engage;
pub mod facade;
pub mod failclosed_state;
pub mod lockdown;
pub mod lockdown_pf_state;
pub mod lockdown_state;
pub mod luid;
pub mod pf_command;
pub mod pf_output;
pub mod pf_rules;
pub mod readback;
pub mod release;
pub mod ruleset_laws;
pub mod sweep_laws;
pub mod undo_laws;
