//! The credentials a caller presents to the mod service. Obtaining them
//! (the login handshake, the environment) and every request made with
//! them live with the caller; the library only carries them.
use vstd::prelude::*;

verus! {

/// The authenticated identity used for downloads: the username and the
/// service token that belongs to it.
#[derive(Debug, PartialEq, Eq)]
pub struct Context {
    /// The account name.
    pub username: String,
    /// The service token of the account.
    pub token: String,
}

impl Context {
    /// Carries a username and its token.
    pub fn new(username: String, token: String) -> (r: Self)
        ensures
            r.username == username,
            r.token == token,
    {
        Context { username, token }
    }
}

impl Clone for Context {
    fn clone(&self) -> (r: Self)
        ensures
            r == *self,
    {
        Context { username: self.username.clone(), token: self.token.clone() }
    }
}

} // verus!
