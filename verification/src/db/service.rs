//! The part of the user directory that needs no connection: how a row
//! becomes a user, and the rules that guard each change.

use crate::db::model::relation_named;
use crate::db::model::User;
use crate::db::model::UserRelation;
use crate::db::model::UserView;
use crate::error::BotError;
use crate::text::text_of;
use vstd::prelude::*;
use vstd::string::*;

verus! {

/// A row of `users`, column by column, as a query hands it out.
#[derive(Debug, Clone)]
pub struct UserRow {
    pub id: i64,
    pub name: String,
    pub relation: String,
    pub custom_prompt: Option<String>,
    pub created_at: String,
    pub updated_at: String,
}

/// The user that `row` stands for, where its relation is `relation`.
pub open spec fn user_of_row(row: UserRow, relation: UserRelation) -> UserView {
    UserView {
        id: row.id,
        name: row.name@,
        relation,
        custom_prompt: text_of(row.custom_prompt),
        created_at: row.created_at@,
        updated_at: row.updated_at@,
    }
}

/// Turns the row of a lookup into a user: no row gives no user, a row with
/// a relation that exists its user, and any other row an error.
pub fn map_row_to_user(row: Option<UserRow>) -> (r: Result<Option<User>, BotError>)
    ensures
        match row {
            None => r matches Ok(None),
            Some(row) => match relation_named(row.relation@) {
                Some(relation) => r matches Ok(Some(user)) && user@ == user_of_row(row, relation),
                None => r matches Err(BotError::InvalidRelation(t)) && t@ == row.relation@,
            },
        },
{
    match row {
        Some(row) => {
            let relation = match UserRelation::from_str(row.relation.as_str()) {
                Ok(relation) => relation,
                Err(e) => {
                    return Err(e);
                },
            };
            Ok(
                Some(
                    User {
                        id: row.id,
                        name: row.name,
                        relation,
                        custom_prompt: row.custom_prompt,
                        created_at: row.created_at,
                        updated_at: row.updated_at,
                    },
                ),
            )
        },
        None => Ok(None),
    }
}

/// Whether the user that a lookup found, if any, is the master.
pub fn is_master(found: &Option<User>) -> (b: bool)
    ensures
        b == (found matches Some(user) && user.relation == UserRelation::Master),
{
    match found {
        Some(user) => user.relation == UserRelation::Master,
        None => false,
    }
}

/// A master may be created only while there is none.
pub fn check_no_master(has_master: bool) -> (r: Result<(), BotError>)
    ensures
        !has_master ==> r is Ok,
        has_master ==> r matches Err(BotError::MasterExists),
{
    if has_master {
        Err(BotError::MasterExists)
    } else {
        Ok(())
    }
}

/// Only the master may change a relation: `operator` is what a lookup of
/// the one who asks found.
pub fn check_operator(operator: &Option<User>) -> (r: Result<(), BotError>)
    ensures
        (operator matches Some(user) && user.relation == UserRelation::Master) ==> r is Ok,
        !(operator matches Some(user) && user.relation == UserRelation::Master) ==> r matches Err(
            BotError::NotMaster,
        ),
{
    if is_master(operator) {
        Ok(())
    } else {
        Err(BotError::NotMaster)
    }
}

/// A prompt was set only if the update touched a row: otherwise no user has
/// the id `id`.
pub fn check_prompt_updated(rows_affected: u64, id: i64) -> (r: Result<(), BotError>)
    ensures
        rows_affected != 0 ==> r is Ok,
        rows_affected == 0 ==> (r matches Err(BotError::UserNotFound(missing)) && missing == id),
{
    if rows_affected == 0 {
        Err(BotError::UserNotFound(id))
    } else {
        Ok(())
    }
}

/// The user that a lookup after a change found. Fails with `missing` where
/// it found none.
pub fn expect_user(found: Option<User>, missing: BotError) -> (r: Result<User, BotError>)
    ensures
        match found {
            Some(user) => r == Ok::<User, BotError>(user),
            None => r == Err::<User, BotError>(missing),
        },
{
    match found {
        Some(user) => Ok(user),
        None => Err(missing),
    }
}

} // verus!
