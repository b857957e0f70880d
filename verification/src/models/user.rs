//! Who a connection says it is.

use vstd::prelude::*;

verus! {

/// The identity that a connection presented when it was opened. The broker
/// treats it as an opaque string and never checks it.
#[derive(Debug, Clone, PartialEq, Eq)]
pub struct User {
    pub user_id: String,
}

impl User {
    /// The user known as `user_id`.
    pub fn new(user_id: String) -> (user: User)
        ensures
            user.user_id == user_id,
    {
        User { user_id }
    }
}

} // verus!
