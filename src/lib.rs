//! Session-lifecycle logic of an interactive chat client: the tangent
//! side-branch of a conversation, and the performance figures derived from
//! the timing of one streamed response.

pub mod command;
pub mod performance;
pub mod tangent;
pub mod text;
