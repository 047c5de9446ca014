//! Workload operations against a storage-engine table, the text-command pane
//! that collects them, and the sliding window of statistics samples that the
//! monitoring pane plots.

pub mod command;
pub mod operation;
pub mod stats;
pub mod text;
