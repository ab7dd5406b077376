//! Decisions and texts of a chat bot that links channels of different
//! communities, so that what is said in one channel is relayed to another.

pub mod decimal;
pub mod texts;
pub mod emoji;
pub mod models;
pub mod bridge;
pub mod unbridge;
pub mod listing;
pub mod relay;
pub mod sweep;
pub mod checks;
pub mod presence;
