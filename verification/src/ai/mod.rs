//! The assistant: messages, tool rounds, agents and their history.

pub mod agent_answers;
pub mod agent_commands;
pub mod agent_run;
pub mod checkpoint;
pub mod coordination;
pub mod delivery;
pub mod local_command;
pub mod loop_batches;
pub mod loop_mail;
pub mod loop_stream;
pub mod messages;
pub mod models;
pub mod notes;
pub mod results;
pub mod round_call;
pub mod tool_loop;
pub mod tool_resources;
pub mod wipe;
