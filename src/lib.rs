//! Turns a batch of monitoring alerts into chat embed messages: alerts are
//! split by status, each partition becomes one envelope holding one message
//! with a title, a color and one field per alert.

pub mod labels;
pub mod laws;
pub mod message;
pub mod payload;
pub mod render;
