//! The platform whose key events are symbolic already.
//!
//! There the terminal's line discipline decodes each key press into a `Key`
//! before the program sees it, so nothing is left to classify: the reader
//! passes the key on.

use vstd::prelude::*;
use crate::key::Key;

verus! {

/// What the key reader returns for one read of the decoded input: the key
/// that was read, and the one opaque failure where the input had ended
/// (`None`) or the read itself failed.
pub open spec fn key_read(read: Option<Result<Key, ()>>) -> Result<Key, ()> {
    match read {
        Some(Ok(key)) => Ok(key),
        Some(Err(_)) => Err(()),
        None => Err(()),
    }
}

/// Turns one read of the decoded input into a key.
///
/// `read` is `None` where the input had ended before a key came.
pub fn getkey(read: Option<Result<Key, ()>>) -> (key: Result<Key, ()>)
    ensures
        key == key_read(read),
        key is Ok <==> read matches Some(Ok(_)),
{
    match read {
        Some(Ok(key)) => Ok(key),
        Some(Err(_)) => Err(()),
        None => Err(()),
    }
}

} // verus!
