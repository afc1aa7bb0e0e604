//! A never-ending feed of live game-state snapshots, pulled page by page from a
//! paginated event listing, with the terminal "Game over." update hidden and the
//! listing replayed from its start once it runs out.
//!
//! The library is a set of state machines: it never performs I/O. Whenever it
//! needs a page it hands back a [`stream::FetchRequest`], and the caller answers
//! with the page it fetched.

pub mod schema;
pub mod stream;
pub mod feed;
pub mod session;
pub mod store;
