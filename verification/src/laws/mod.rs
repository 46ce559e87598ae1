//! What holds of the library's operations, stated of every call: whatever a call with these arguments
//! gives back, or makes of what it was handed.

pub mod agents;
pub mod algorithms;
pub mod basics;
pub mod calls;
pub mod certificates;
pub mod commands;
pub mod compaction;
pub mod delegation;
pub mod details;
pub mod entries;
pub mod features;
pub mod forms;
pub mod ftp;
pub mod handles;
pub mod history;
pub mod journal;
pub mod owners;
pub mod remote_input;
pub mod replies;
pub mod reports;
pub mod rounds;
pub mod runs;
pub mod steps;
pub mod store;
pub mod surfaces;
pub mod tabs;
pub mod turns;
pub mod views;
