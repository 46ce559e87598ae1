//! Decision logic of the OxideTerm workspace.

pub mod ai;
pub mod ai_state;
pub mod encoding;
pub mod ids;
pub mod json;
pub mod laws;
pub mod numerals;
pub mod table;
pub mod text;
pub mod workspace;
