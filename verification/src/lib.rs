//! The logic of Titanium's web extension: the state that the extension keeps
//! for a web page (typed hint keys, the hints on the page, the file input that
//! waits for a file, the element under the pointer), how each message from the
//! browser's UI process changes that state and what it asks the page to do,
//! and the scrolling interface of a page.

pub mod text;
pub mod protocol;
pub mod hint_map;
pub mod message_client;
pub mod scroll;
pub mod laws;
pub mod behaviour;
