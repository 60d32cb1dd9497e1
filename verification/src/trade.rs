//! Trade planning: shared arithmetic and the buy and create flows.

pub mod buy;
pub mod common;
pub mod create;
