//! The two endpoints: the download proxy and the box-art search.

pub mod boxart;
pub mod download;
