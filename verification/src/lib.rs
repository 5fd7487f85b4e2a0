//! A persistent singly-linked list of `u32` values, together with the small
//! pure decisions behind the demo dispatcher and the number-guessing loop.

pub mod guess;
pub mod list;
pub mod render;
pub mod select;
