//! A dispatch pipeline that turns recipient records into outbound
//! notification messages and hands them to a delivery sink through a
//! bounded queue.

pub mod content;
pub mod message;
pub mod pipeline;
pub mod producer;
pub mod query;
pub mod queue;
pub mod relay;
pub mod service;
pub mod window;
