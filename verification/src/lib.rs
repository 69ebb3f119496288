//! State watchers for a host machine: each provider polls one volatile source,
//! suppresses updates that carry no news, and frames what is left for a bounded
//! output queue.

pub mod channel;
pub mod connection;
pub mod frame;
pub mod layout;
pub mod media;
pub mod text;
pub mod transliterate;
pub mod volume;
