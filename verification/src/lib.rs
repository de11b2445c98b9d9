pub mod codec;
pub mod connector;
pub mod listener;
pub mod message;
pub mod protocol;
pub mod queue;
