//! Accounts.

use vstd::prelude::*;
use vstd::string::StringExecFns;

verus! {

/// The data with which a new account is registered.
#[derive(Clone, Debug, PartialEq, Eq)]
pub struct NewAccount {
    /// Unique account id.
    pub id: String,
    /// Account password.
    pub password: String,
}

impl NewAccount {
    /// The key under which the account is stored: `account:` followed by the
    /// account id.
    pub fn get_key(&self) -> (r: String)
        ensures
            r@ == "account:"@ + self.id@,
    {
        let mut key = String::from_str("account:");
        key.append(self.id.as_str());
        key
    }
}

} // verus!
