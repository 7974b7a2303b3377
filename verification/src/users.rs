//! User-facing data model: the user record, a play-history entry, and the
//! registration payloads. Timestamps are milliseconds since the epoch; the
//! I/O layer converts them to its calendar type at the boundary.

use vstd::prelude::*;

verus! {

/// A registered user.
#[derive(Debug)]
pub struct User {
    pub id: String,
    pub username: String,
    pub email: Option<String>,
    pub created_at: i64,
    pub updated_at: i64,
}

/// One entry of a user's play history.
#[derive(Debug)]
pub struct GamePlayHistory {
    pub user_id: String,
    pub game_id: String,
    pub game_name: String,
    pub first_played_at: i64,
    pub last_played_at: i64,
    pub total_play_time: i32,
    pub satisfaction: Option<i32>,
    pub emotions_reported: Vec<String>,
}

/// A request to register or update a user. The transport layer validates
/// the e-mail format; the engine only relies on the username bounds below.
#[derive(Debug)]
pub struct UserRegistrationRequest {
    pub username: String,
    pub email: Option<String>,
}

/// A registration answer.
#[derive(Debug)]
pub struct UserResponse {
    pub id: String,
    pub username: String,
    pub email: Option<String>,
    pub timestamp: i64,
}

/// A usable username: between three and fifty characters.
pub open spec fn spec_valid_username(u: Seq<char>) -> bool {
    3 <= u.len() <= 50
}

/// Check the username bounds of a registration request.
pub fn validate_username(req: &UserRegistrationRequest) -> (r: bool)
    ensures
        r == spec_valid_username(req.username@),
{
    let len = vstd::string::StrSliceExecFns::unicode_len(req.username.as_str());
    3 <= len && len <= 50
}

} // verus!
