//! The explorer: its bag of resources, how it plans what to craft, and the
//! decisions of its autonomous AI and of its command handlers.

pub mod kinds;
pub mod plan;
pub mod bag;
pub mod explorer;
pub mod ai;
