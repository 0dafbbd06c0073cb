//! The authenticated identity of a request, and role-based authorization.

use vstd::prelude::*;

use crate::status::FORBIDDEN;
use crate::text::same_text;

verus! {

pub const ADMIN: &'static str = "ADMIN";

pub const OPS: &'static str = "OPS";

pub const READONLY: &'static str = "READONLY";

/// Who a request comes from, with the roles held at the time of the request.
pub struct AuthSession {
    pub user_id: String,
    pub username: String,
    pub roles: Vec<String>,
}

/// `roles` names at least one of `required`.
pub open spec fn holds_any(roles: Seq<String>, required: Seq<&str>) -> bool {
    exists|i: int, j: int|
        0 <= i < required.len() && 0 <= j < roles.len() && #[trigger] roles[j]@
            == #[trigger] required[i]@
}

fn has_role(roles: &Vec<String>, r: &str) -> (b: bool)
    ensures
        b == exists|j: int| 0 <= j < roles@.len() && #[trigger] roles@[j]@ == r@,
{
    let mut j: usize = 0;
    while j < roles.len()
        invariant
            j <= roles@.len(),
            forall|k: int| 0 <= k < j ==> #[trigger] roles@[k]@ != r@,
        decreases roles@.len() - j,
    {
        if same_text(roles[j].as_str(), r) {
            return true;
        }
        j = j + 1;
    }
    false
}

/// Passes when the identity holds any one of `required`; denies with 403
/// otherwise.
pub fn ensure_role(sess: &AuthSession, required: &[&str]) -> (r: Result<(), u16>)
    ensures
        r is Ok <==> holds_any(sess.roles@, required@),
        r is Err ==> r == Err::<(), u16>(FORBIDDEN),
{
    let mut i: usize = 0;
    while i < required.len()
        invariant
            i <= required@.len(),
            forall|k: int, j: int|
                0 <= k < i && 0 <= j < sess.roles@.len() ==> #[trigger] sess.roles@[j]@
                    != #[trigger] required@[k]@,
        decreases required@.len() - i,
    {
        if has_role(&sess.roles, required[i]) {
            return Ok(());
        }
        i = i + 1;
    }
    Err(FORBIDDEN)
}

/// One of the roles the service knows.
pub fn is_known_role(r: &str) -> (b: bool)
    ensures
        b == (r@ == ADMIN@ || r@ == OPS@ || r@ == READONLY@),
{
    same_text(r, ADMIN) || same_text(r, OPS) || same_text(r, READONLY)
}

} // verus!
