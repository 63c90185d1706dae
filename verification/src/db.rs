//! The decisions of a storage adapter that talks to a relational database:
//! which error a failed step stands for, and what the rows that came back
//! mean. The adapter does the round trips and asks here after each.

use vstd::prelude::*;
use crate::entities::User;
use crate::errors::AccessModelError;

verus! {

/// The steps of one statement, in order.
#[derive(Clone, Copy, Debug, PartialEq, Eq, Structural)]
pub enum DbStage {
    /// Borrow a connection from the pool.
    Connect,
    /// Prepare the statement.
    Prepare,
    /// Run it.
    Execute,
}

/// What the adapter does next.
#[derive(Clone, Copy, Debug, PartialEq, Eq, Structural)]
pub enum DbAction {
    /// Go on with this step.
    Run(DbStage),
    /// Every step succeeded: read the outcome.
    Conclude,
    /// Give up with this error.
    Fail(AccessModelError),
}

/// A pool that hands out no connection is a passing condition; a statement
/// that cannot be prepared or run is not.
pub open spec fn stage_error(stage: DbStage) -> AccessModelError {
    match stage {
        DbStage::Connect => AccessModelError::TemporaryError,
        DbStage::Prepare => AccessModelError::FatalError,
        DbStage::Execute => AccessModelError::FatalError,
    }
}

pub open spec fn action_after(stage: DbStage, succeeded: bool) -> DbAction {
    if !succeeded {
        DbAction::Fail(stage_error(stage))
    } else {
        match stage {
            DbStage::Connect => DbAction::Run(DbStage::Prepare),
            DbStage::Prepare => DbAction::Run(DbStage::Execute),
            DbStage::Execute => DbAction::Conclude,
        }
    }
}

/// What follows a step, given whether it succeeded.
pub fn next_action(stage: DbStage, succeeded: bool) -> (a: DbAction)
    ensures
        a == action_after(stage, succeeded),
{
    if !succeeded {
        match stage {
            DbStage::Connect => DbAction::Fail(AccessModelError::TemporaryError),
            DbStage::Prepare => DbAction::Fail(AccessModelError::FatalError),
            DbStage::Execute => DbAction::Fail(AccessModelError::FatalError),
        }
    } else {
        match stage {
            DbStage::Connect => DbAction::Run(DbStage::Prepare),
            DbStage::Prepare => DbAction::Run(DbStage::Execute),
            DbStage::Execute => DbAction::Conclude,
        }
    }
}

/// The outcome of a lookup by id: the first row, or `NotFoundError` where
/// the statement matched none.
pub fn found_user(rows: &Vec<User>) -> (r: Result<User, AccessModelError>)
    ensures
        rows@.len() == 0 ==> r == Err::<User, AccessModelError>(AccessModelError::NotFoundError),
        rows@.len() > 0 ==> r == Ok::<User, AccessModelError>(rows@[0]),
{
    if rows.len() == 0 {
        Err(AccessModelError::NotFoundError)
    } else {
        let row = &rows[0];
        Ok(User { user_id: row.user_id, username: row.username.clone(), stamp: row.stamp })
    }
}

/// The outcome of a removal: `NotFoundError` where the statement touched no
/// row.
pub fn removed_user(affected: u64) -> (r: Result<(), AccessModelError>)
    ensures
        affected == 0 ==> r == Err::<(), AccessModelError>(AccessModelError::NotFoundError),
        affected > 0 ==> r == Ok::<(), AccessModelError>(()),
{
    if affected == 0 {
        Err(AccessModelError::NotFoundError)
    } else {
        Ok(())
    }
}

/// The outcome of an insert that returns the new row: that row where exactly
/// one came back, else `FatalError`.
pub fn saved_user(rows: &Vec<User>) -> (r: Result<User, AccessModelError>)
    ensures
        rows@.len() == 1 ==> r == Ok::<User, AccessModelError>(rows@[0]),
        rows@.len() != 1 ==> r == Err::<User, AccessModelError>(AccessModelError::FatalError),
{
    if rows.len() == 1 {
        let row = &rows[0];
        Ok(User { user_id: row.user_id, username: row.username.clone(), stamp: row.stamp })
    } else {
        Err(AccessModelError::FatalError)
    }
}

/// The outcome of a credential lookup: the first id, or `NotFoundError`
/// where no row has both the username and the hash.
pub fn verified_user(ids: &Vec<i32>) -> (r: Result<i32, AccessModelError>)
    ensures
        ids@.len() == 0 ==> r == Err::<i32, AccessModelError>(AccessModelError::NotFoundError),
        ids@.len() > 0 ==> r == Ok::<i32, AccessModelError>(ids@[0]),
{
    if ids.len() == 0 {
        Err(AccessModelError::NotFoundError)
    } else {
        Ok(ids[0])
    }
}

} // verus!
