//! Single key presses, normalised into one symbolic vocabulary.
//!
//! `key` holds the vocabulary. `classify` maps a raw virtual-key code to a
//! key. `raw_code` and `symbolic` hold what a blocking read of one key decides
//! on each of the two kinds of platform; the reads themselves are the
//! caller's.

pub mod classify;
pub mod key;
pub mod raw_code;
pub mod symbolic;

pub use classify::vk_to_key;
pub use key::Key;
