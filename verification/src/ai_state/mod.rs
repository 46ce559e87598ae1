//! The assistant's state: conversations, their journal, and the agents at work in them.

pub mod arrivals;
pub mod agent_details;
pub mod agent_pages;
pub mod agent_records;
pub mod agent_updates;
pub mod agents;
pub mod archives;
pub mod bodies;
pub mod compaction;
pub mod conversations;
pub mod deliveries;
pub mod editing;
pub mod entity;
pub mod history;
pub mod journal;
pub mod model;
pub mod pages;
pub mod rows;
pub mod window;
pub mod writes;
pub mod writes_done;
