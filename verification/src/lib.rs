//! A horizontally paginated listing of games, each illustrated by images that
//! arrive asynchronously over the network.
//!
//! The crate is organised around two components:
//!
//! - [`lineup::Photo`]: a handle for a single remote image that may or may not
//!   have arrived yet.  A background task (run by the caller) delivers at most
//!   one decoded image through a one-slot channel; the handle exposes a
//!   non-blocking poll that caches the image once it arrives.
//! - [`lineup::Schedule`]: an ordered sequence of games with a scroll cursor
//!   and a fixed page size, computing which games are visible and which is
//!   focused.
//!
//! The [`api`] module holds the shape of the upstream listing document and the
//! error taxonomy of the listing fetch.

pub mod api;
pub mod lineup;
