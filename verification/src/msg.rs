//! The messages that the handlers take and the answers that they give.
//! An address is kept as the text that identifies it.

use vstd::prelude::*;

verus! {

/// Who sent a message.
#[derive(Clone, Debug, PartialEq)]
pub struct MessageInfo {
    pub sender: String,
}

/// Sets the contract up. The sender becomes the owner.
#[derive(Clone, Debug, PartialEq)]
pub struct InstantiateMsg {}

/// A command, which only the owner may send.
#[derive(Clone, Debug, PartialEq)]
pub enum ExecuteMsg {
    /// Gives the token of an address a score.
    SetScore { user_address: String, token_address: String, score: i32 },
}

/// A query, which anyone may send.
#[derive(Clone, Debug, PartialEq)]
pub enum QueryMsg {
    /// Who is the owner?
    GetOwner {},
    /// What is the aggregate score of the address?
    GetScore { address: String },
    /// What is the score of the token of the address?
    GetScoreForToken { user_address: String, token_address: String },
}

/// The answer to `GetOwner`.
#[derive(Clone, Debug, PartialEq)]
pub struct OwnerResponse {
    pub owner: String,
}

/// The answer to `GetScoreForToken`.
#[derive(Clone, Debug, PartialEq)]
pub struct ScoreByTokenResponse {
    pub user_address: String,
    pub token_address: String,
    pub score: i32,
}

/// The answer to `GetScore`.
#[derive(Clone, Debug, PartialEq)]
pub struct UserScoreResponse {
    pub user_address: String,
    pub score: i32,
}

/// The answer to a [`QueryMsg`], one variant for each kind of query.
#[derive(Clone, Debug, PartialEq)]
pub enum QueryResponse {
    Owner(OwnerResponse),
    Score(UserScoreResponse),
    ScoreForToken(ScoreByTokenResponse),
}

} // verus!
