//! Who a caller is.

use vstd::prelude::*;

verus! {

/// A user, as a token names them.
#[derive(Debug, Clone, PartialEq, Eq)]
pub struct User {
    pub id: String,
    pub username: String,
    pub alias: String,
    pub email: String,
}

impl User {
    /// The user of whom nothing is known: every field is empty.
    pub fn default() -> (r: Self)
        ensures
            r.id@.len() == 0,
            r.username@.len() == 0,
            r.alias@.len() == 0,
            r.email@.len() == 0,
    {
        User {
            id: String::new(),
            username: String::new(),
            email: String::new(),
            alias: String::new(),
        }
    }
}

} // verus!
