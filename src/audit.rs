//! The append-only audit trail: entries to write, and the bounds of a page to
//! read.

use vstd::prelude::*;

use crate::clock::{new_ulid, unix_now};

verus! {

/// Entries in a page when the caller names no limit.
pub const DEFAULT_LIMIT: i64 = 50;

/// Most entries in one page.
pub const MAX_LIMIT: i64 = 200;

/// What an audit entry records, before it gets its id and time.
pub struct AuditDraft {
    pub actor_user: String,
    pub action: String,
    pub target: String,
    pub ip: String,
    pub ua: String,
    pub details: String,
}

/// An audit entry as it is written.
pub struct AuditEntry {
    pub id: String,
    pub ts: i64,
    pub actor_user: String,
    pub action: String,
    pub target: String,
    pub ip: String,
    pub ua: String,
    pub details: String,
}

/// An audit entry as a page lists it.
pub struct AuditRow {
    pub ts: i64,
    pub actor_user: String,
    pub action: String,
    pub target: String,
    pub ip: String,
    pub ua: String,
    pub details: String,
}

/// An entry about `actor` doing `action` on `target`, from `ip` with user
/// agent `ua`, with empty details.
pub open spec fn draft_says(
    d: AuditDraft,
    actor: Seq<char>,
    action: Seq<char>,
    target: Seq<char>,
    ip: Seq<char>,
    ua: Seq<char>,
) -> bool {
    &&& d.actor_user@ == actor
    &&& d.action@ == action
    &&& d.target@ == target
    &&& d.ip@ == ip
    &&& d.ua@ == ua
    &&& d.details@ == "{}"@
}

/// The limit actually used for a page: the request's, held to 1 ..= 200.
pub open spec fn clamped(limit: int) -> int {
    if limit < 1 {
        1
    } else if limit > MAX_LIMIT {
        MAX_LIMIT as int
    } else {
        limit
    }
}

/// An entry with empty details.
pub fn draft(actor: &str, action: &str, target: &str, ip: &str, ua: &str) -> (d: AuditDraft)
    ensures
        draft_says(d, actor@, action@, target@, ip@, ua@),
{
    AuditDraft {
        actor_user: actor.to_owned(),
        action: action.to_owned(),
        target: target.to_owned(),
        ip: ip.to_owned(),
        ua: ua.to_owned(),
        details: String::from_str("{}"),
    }
}

/// The entry to write for `d`, with a fresh id and the current time.
pub fn stamp(d: AuditDraft) -> (e: AuditEntry)
    ensures
        e.id@.len() == 26,
        e.actor_user == d.actor_user,
        e.action == d.action,
        e.target == d.target,
        e.ip == d.ip,
        e.ua == d.ua,
        e.details == d.details,
{
    AuditEntry {
        id: new_ulid(),
        ts: unix_now(),
        actor_user: d.actor_user,
        action: d.action,
        target: d.target,
        ip: d.ip,
        ua: d.ua,
        details: d.details,
    }
}

/// The limit actually used for a page.
pub fn clamp_limit(limit: i64) -> (r: i64)
    ensures
        r == clamped(limit as int),
        1 <= r <= MAX_LIMIT,
{
    if limit < 1 {
        1
    } else if limit > MAX_LIMIT {
        MAX_LIMIT
    } else {
        limit
    }
}

/// Limit and offset of a page request: 50 entries from the newest when the
/// request names neither; the offset is taken as it is.
pub fn page_bounds(limit: Option<i64>, offset: Option<i64>) -> (r: (i64, i64))
    ensures
        r.0 == clamped(
            match limit {
                Some(l) => l as int,
                None => DEFAULT_LIMIT as int,
            },
        ),
        r.1 == match offset {
            Some(o) => o,
            None => 0,
        },
{
    let l = match limit {
        Some(l) => l,
        None => DEFAULT_LIMIT,
    };
    let o = match offset {
        Some(o) => o,
        None => 0,
    };
    (clamp_limit(l), o)
}

} // verus!
