//! User records as the store keeps them.

use crate::error::BotError;
use crate::text::str_eq;
use vstd::prelude::*;
use vstd::string::*;

verus! {

/// How the bot stands to a user.
#[derive(Debug, Clone, Copy, PartialEq, Eq, Structural)]
pub enum UserRelation {
    Master,
    Friend,
    Stranger,
}

/// The relation that the store's text `s` stands for, if any.
pub open spec fn relation_named(s: Seq<char>) -> Option<UserRelation> {
    if s == "master"@ {
        Some(UserRelation::Master)
    } else if s == "friend"@ {
        Some(UserRelation::Friend)
    } else if s == "stranger"@ {
        Some(UserRelation::Stranger)
    } else {
        None
    }
}

impl UserRelation {
    /// The text under which the store keeps this relation.
    pub open spec fn name(self) -> Seq<char> {
        match self {
            UserRelation::Master => "master"@,
            UserRelation::Friend => "friend"@,
            UserRelation::Stranger => "stranger"@,
        }
    }

    pub fn as_str(&self) -> (s: &str)
        ensures
            s@ == self.name(),
    {
        match self {
            UserRelation::Master => "master",
            UserRelation::Friend => "friend",
            UserRelation::Stranger => "stranger",
        }
    }

    pub fn from_str(s: &str) -> (r: Result<Self, BotError>)
        ensures
            match relation_named(s@) {
                Some(rel) => r == Ok::<Self, BotError>(rel),
                None => r matches Err(BotError::InvalidRelation(t)) && t@ == s@,
            },
    {
        if str_eq(s, "master") {
            Ok(UserRelation::Master)
        } else if str_eq(s, "friend") {
            Ok(UserRelation::Friend)
        } else if str_eq(s, "stranger") {
            Ok(UserRelation::Stranger)
        } else {
            Err(BotError::InvalidRelation(s.to_owned()))
        }
    }
}

/// Converting a relation to text and back gives the relation again.
pub proof fn lemma_relation_round_trip(rel: UserRelation)
    ensures
        relation_named(rel.name()) == Some(rel),
{
    reveal_strlit("master");
    reveal_strlit("friend");
    reveal_strlit("stranger");
    assert("master"@[0] != "friend"@[0]);
}

/// A user of the bot.
#[derive(Debug, Clone)]
pub struct User {
    pub id: i64,
    pub name: String,
    pub relation: UserRelation,
    pub custom_prompt: Option<String>,
    pub created_at: String,
    pub updated_at: String,
}

/// What a [`User`] holds, as mathematical values.
pub struct UserView {
    pub id: i64,
    pub name: Seq<char>,
    pub relation: UserRelation,
    pub custom_prompt: Option<Seq<char>>,
    pub created_at: Seq<char>,
    pub updated_at: Seq<char>,
}

impl View for User {
    type V = UserView;

    open spec fn view(&self) -> UserView {
        UserView {
            id: self.id,
            name: self.name@,
            relation: self.relation,
            custom_prompt: match self.custom_prompt {
                Some(p) => Some(p@),
                None => None,
            },
            created_at: self.created_at@,
            updated_at: self.updated_at@,
        }
    }
}

/// Registers a user on first contact.
#[derive(Debug, Clone)]
pub struct CreateUserRequest {
    pub id: i64,
    pub name: String,
}

/// Promotes a user to master.
#[derive(Debug, Clone)]
pub struct CreateMasterRequest {
    pub id: i64,
    pub name: String,
}

/// Sets a user's own prompt.
#[derive(Debug, Clone)]
pub struct CreateCustomPromptRequest {
    pub id: i64,
    pub custom_prompt: String,
}

/// Changes the relation of `user_id` on behalf of `operator_id`.
#[derive(Debug, Clone)]
pub struct UpdateUserRequest {
    pub operator_id: i64,
    pub user_id: i64,
    pub relation: UserRelation,
}

} // verus!
