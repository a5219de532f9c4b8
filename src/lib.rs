//! Session state and two-stage download pipeline of a small video
//! downloader front-end, with their contracts.
pub mod laws;
pub mod pipeline;
pub mod session;
