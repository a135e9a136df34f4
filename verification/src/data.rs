use crate::config::{Target, User};
use vstd::prelude::*;

verus! {

/// A session as it is listed: who, where to, and when.
#[derive(Debug, Clone, PartialEq, Eq)]
pub struct SessionSnapshot {
    pub id: u128,
    pub username: Option<String>,
    pub target: Option<Target>,
    /// Start of the session, in seconds since the epoch.
    pub started: i64,
    pub ended: Option<i64>,
    pub ticket_id: Option<u128>,
    pub protocol: String,
}

/// The row of a session as storage holds it; the target is already decoded,
/// and is `None` where the stored text was absent or could not be read.
#[derive(Debug, Clone, PartialEq, Eq)]
pub struct SessionRow {
    pub id: u128,
    pub username: Option<String>,
    pub target_snapshot: Option<Target>,
    pub started: i64,
    pub ended: Option<i64>,
    pub ticket_id: Option<u128>,
    pub protocol: String,
}

impl vstd::std_specs::convert::FromSpecImpl<SessionRow> for SessionSnapshot {
    open spec fn obeys_from_spec() -> bool {
        true
    }

    open spec fn from_spec(model: SessionRow) -> Self {
        SessionSnapshot {
            id: model.id,
            username: model.username,
            target: model.target_snapshot,
            started: model.started,
            ended: model.ended,
            ticket_id: model.ticket_id,
            protocol: model.protocol,
        }
    }
}

impl From<SessionRow> for SessionSnapshot {
    fn from(model: SessionRow) -> (r: Self) {
        SessionSnapshot {
            id: model.id,
            username: model.username,
            target: model.target_snapshot,
            started: model.started,
            ended: model.ended,
            ticket_id: model.ticket_id,
            protocol: model.protocol,
        }
    }
}

#[derive(Debug, Clone, PartialEq, Eq)]
pub struct UserSnapshot {
    pub username: String,
}

impl UserSnapshot {
    pub fn new(user: &User) -> (r: Self)
        ensures
            r.username == user.username,
    {
        UserSnapshot { username: user.username.clone() }
    }
}

} // verus!
