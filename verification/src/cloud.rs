//! Cloud account identities.

use vstd::prelude::*;

verus! {

/// The id of a Golem Cloud account.
#[derive(Debug)]
pub struct AccountId(pub String);

impl Clone for AccountId {
    fn clone(&self) -> (res: Self)
        ensures
            res.0@ == self.0@,
    {
        AccountId(self.0.clone())
    }
}

impl AccountId {
    /// The account with the given id.
    pub fn from_str_id(id: &str) -> (res: Self)
        ensures
            res.0@ == id@,
    {
        AccountId(id.to_string())
    }
}

} // verus!
