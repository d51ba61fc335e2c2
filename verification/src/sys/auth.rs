//! The authentication-method schemas.

use vstd::prelude::*;

verus! {

/// The configuration of an authentication method.  The server's auth API
/// defines no fields this library reads yet, so the spec is empty.
#[derive(Debug, PartialEq)]
pub struct AuthSpec;

/// One enabled authentication method.
#[derive(Debug, PartialEq)]
pub struct AuthInfo {
    /// The `type` field: the kind of method.
    pub kind: String,
    pub description: String,
    pub config: Option<AuthSpec>,
}

} // verus!
