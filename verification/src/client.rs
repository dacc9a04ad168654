//! The client: a command session and a notification session on the same
//! daemon, and the rules that keep the two in step.

pub mod background;
pub mod channel;
pub mod inbox;
pub mod message;
pub mod model;
pub mod safety;
pub mod wrapper;
