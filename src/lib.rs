//! A static file server's request pipeline: containment of request paths in a
//! base directory, directory index pages, and conditional-cache decisions.

pub mod clock;
pub mod config;
pub mod dispatch;
pub mod error;
pub mod laws;
pub mod listing;
pub mod order;
pub mod resolve;
pub mod respond;
pub mod text;
