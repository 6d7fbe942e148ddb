//! A tabbed browsing session: tabs and their navigations, the decoding of
//! page messages, the coordinator that serializes input and pipeline results,
//! the content pipeline with its single redirect hop, and the text (JSON
//! bodies, page scripts) exchanged with the outside.

pub mod coordinator;
pub mod message;
pub mod pipeline;
pub mod response;
pub mod session;
pub mod text;
pub mod ui;
