//! A small local greeting service: the greeting texts, the JSON bodies of its
//! two routes, the steps that bring up its user store, and the latch that
//! stops it once.
pub mod greeting;
pub mod json;
pub mod service;
pub mod store;
pub mod shutdown;
