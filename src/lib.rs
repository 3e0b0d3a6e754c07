//! Client-side data layer of a social blogging application: wire records,
//! viewer-relative decoding into domain entities, request descriptions with
//! response classification, and the paginated article feed state machine.

pub mod decoder;
pub mod entity;
pub mod feed;
pub mod request;
pub mod timestamp;
