//! What a client submits to log in.

use vstd::prelude::*;

verus! {

/// Password login data: the user's name and the plaintext password.
pub struct Password {
    pub user_name: String,
    pub password: String,
}

/// The data that must be verified before someone can log in.
pub enum Authentication {
    /// A user name and password.
    Password(Password),
}

} // verus!
