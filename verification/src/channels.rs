//! The two roles of a channel and what they exchange with their surroundings.

pub mod channel_author;
pub mod channel_subscriber;
pub mod exchange;
pub mod inbox;
pub mod link;
