//! Decisions of a chat command that queues a URL-based audio stream into the
//! voice channel of the user who asked for it.

pub mod arguments;
pub mod embed;
pub mod laws;
pub mod model;
pub mod play;
pub mod replies;
pub mod url;
pub mod voice;
