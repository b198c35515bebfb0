//! A compiler from declarative per-account constraints to an ordered sequence
//! of validation and initialization steps, together with the decisions those
//! steps take when they run against live account state.

pub mod accounts;
pub mod address;
pub mod bpf_upgradeable_state;
pub mod checks;
pub mod context;
pub mod creator;
pub mod emit;
pub mod errors;
pub mod field;
pub mod group;
pub mod init;
pub mod interface;
pub mod linearize;
pub mod model;
pub mod nodup;
pub mod parser;
pub mod pda;
pub mod run;
pub mod text;
