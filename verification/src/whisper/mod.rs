//! Around the speech model: the cache that keeps one model loaded, and the
//! text that is made of what the model recognised.

pub mod cache;
pub mod transcript;
