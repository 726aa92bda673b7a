//! The profile record as a standalone entity.
use vstd::prelude::*;

verus! {

/// User profile information entity.
#[derive(Clone, Debug)]
pub struct ProfileEntitySchema {
    /// Avatar identifier
    pub avatar: String,
    /// Account creation timestamp
    pub created_at: String,
    /// Experience points
    pub exp: i64,
    /// User level
    pub level: i64,
    /// User nickname
    pub nickname: String,
}

} // verus!
