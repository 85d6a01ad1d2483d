//! What the backends are handed: the configuration each one takes.
pub mod native;
pub mod web;
