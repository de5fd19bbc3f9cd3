//! Request planning and cache rules for an Emby media-server client.
//!
//! The library decides, from plain values, what each call to the server
//! looks like (method, URL, query, headers, body and how the reply is read),
//! and where downloaded artwork and listings are cached. The network and
//! disk work itself is done by the caller.

pub mod text;
pub mod model;
pub mod body;
pub mod request;
pub mod endpoints;
pub mod images;
pub mod home;
pub mod cache;
