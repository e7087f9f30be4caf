use crate::cistring::CiString;
use crate::error::PointercrateError;
use vstd::prelude::*;

verus! {

/// An account as far as this layer needs it.
#[derive(Clone, Debug)]
pub struct User {
    pub id: i32,
    pub name: CiString,
    /// The secret that token signing keys are derived from; replaced to
    /// invalidate every token issued so far.
    pub salt: Vec<u8>,
}

/// A user whose credentials were checked.
#[derive(Clone, Debug)]
pub struct Me(pub User);

/// Who a request is made for, and the version marker it carries.
#[derive(Clone, Debug)]
pub enum RequestData {
    /// Made by the service itself; nothing is attributed to anyone.
    Internal,
    /// Made by a client; `user` is set once authentication succeeded.
    External { user: Option<Me>, if_match: Option<u64> },
}

/// The kind of connection that an operation runs on.
#[derive(Debug, Clone, Copy, PartialEq, Eq, Structural)]
pub enum ConnectionKind {
    /// A connection whose writes are attributed to nobody.
    Plain,
    /// A connection whose writes are attributed to the user with this id.
    Audited(i32),
}

/// The connection that a request is owed: audited for an authenticated
/// external caller, plain otherwise.
pub open spec fn connection_kind(data: RequestData) -> ConnectionKind {
    match data {
        RequestData::External { user: Option::Some(me), .. } => ConnectionKind::Audited(me.0.id),
        _ => ConnectionKind::Plain,
    }
}

/// Whether an object at `version` may be changed by a request with this data.
pub open spec fn precondition_holds(data: RequestData, version: u64) -> bool {
    match data {
        RequestData::External { if_match: Option::Some(v), .. } => v == version,
        _ => true,
    }
}

impl RequestData {
    /// Chooses the connection for this request.
    pub fn connection_for(&self) -> (r: ConnectionKind)
        ensures
            r == connection_kind(*self),
    {
        match self {
            RequestData::External { user: Some(me), .. } => ConnectionKind::Audited(me.0.id),
            _ => ConnectionKind::Plain,
        }
    }

    /// Compares the caller's version marker, if any, with the object's
    /// current version.
    pub fn check_if_match(&self, version: u64) -> (r: Result<(), PointercrateError>)
        ensures
            r == (if precondition_holds(*self, version) {
                Ok(())
            } else {
                Err(PointercrateError::PreconditionFailed)
            }),
    {
        match self {
            RequestData::External { if_match: Some(v), .. } => {
                if *v == version {
                    Ok(())
                } else {
                    Err(PointercrateError::PreconditionFailed)
                }
            },
            _ => Ok(()),
        }
    }
}

} // verus!
