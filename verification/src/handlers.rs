//! What the request handlers decide: paging defaults, path ids, and the
//! status of a lookup.

use vstd::prelude::*;

verus! {

/// The body of a request that creates an entity.
#[derive(Clone, Debug, PartialEq, Eq)]
pub struct EntityCreate {
    pub name: String,
}

/// The query of a listing request.
#[derive(Clone, Copy, Debug, PartialEq, Eq, Structural)]
pub struct EntityQuery {
    pub offset: Option<i64>,
    pub limit: Option<i64>,
}

/// The page size where the request names none.
pub const DEFAULT_LIMIT: i64 = 100;

/// The number a path id stands for once read as `i32`: values past
/// `i32::MAX` wrap round.
pub open spec fn wrapped_id(raw: u32) -> int {
    if raw <= i32::MAX {
        raw as int
    } else {
        raw - 0x1_0000_0000
    }
}

/// The status of a lookup: 200 where a value was found, 404 where none was,
/// 500 where the lookup itself failed.
pub open spec fn lookup_status_of<T, E>(found: Result<Option<T>, E>) -> u16 {
    match found {
        Ok(Some(_)) => 200,
        Ok(None) => 404,
        Err(_) => 500,
    }
}

impl EntityCreate {
    pub fn new(name: String) -> (e: EntityCreate)
        ensures
            e.name == name,
    {
        EntityCreate { name }
    }
}

impl EntityQuery {
    pub fn new(offset: Option<i64>, limit: Option<i64>) -> (q: EntityQuery)
        ensures
            q == (EntityQuery { offset, limit }),
    {
        EntityQuery { offset, limit }
    }

    /// The offset asked for; zero where none was.
    pub fn offset_or_default(&self) -> (n: i64)
        ensures
            n == (match self.offset {
                Some(v) => v,
                None => 0,
            }),
    {
        match self.offset {
            Some(v) => v,
            None => 0,
        }
    }

    /// The limit asked for; `DEFAULT_LIMIT` where none was.
    pub fn limit_or_default(&self) -> (n: i64)
        ensures
            n == (match self.limit {
                Some(v) => v,
                None => DEFAULT_LIMIT,
            }),
    {
        match self.limit {
            Some(v) => v,
            None => DEFAULT_LIMIT,
        }
    }
}

/// Reads an unsigned path id as the store's signed id.
pub fn path_id(raw: u32) -> (id: i32)
    ensures
        id == wrapped_id(raw),
{
    if raw <= 2147483647 {
        raw as i32
    } else {
        let low: u32 = raw - 2147483648;
        let id: i32 = (low as i32) + i32::MIN;
        id
    }
}

/// The status that answers a lookup.
pub fn lookup_status<T, E>(found: &Result<Option<T>, E>) -> (status: u16)
    ensures
        status == lookup_status_of(*found),
{
    match found {
        Ok(Some(_)) => 200,
        Ok(None) => 404,
        Err(_) => 500,
    }
}

} // verus!
