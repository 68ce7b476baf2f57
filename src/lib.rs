use vstd::prelude::*;

// Session authentication: salted password hashes, sealed session tokens, a
// cache of public user records, and the decisions of registration, login,
// session resolution and logout.
pub mod auth;
pub mod cache;
pub mod decimal;
pub mod model;
pub mod password;
pub mod token;

verus! {

} // verus!
