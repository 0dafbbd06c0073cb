//! Sliding-window throttling of login attempts.

use vstd::prelude::*;

use crate::clock::unix_now;

verus! {

/// Length of the window in which attempts are counted, in seconds.
pub const WINDOW_SECS: i64 = 600;

/// Attempts allowed for one user name from one address within the window.
pub const MAX_PER_USER_IP: i64 = 10;

/// Attempts allowed from one address within the window, over all user names.
pub const MAX_PER_IP: i64 = 30;

/// One login attempt, recorded whatever its outcome.
pub struct LoginAttempt {
    pub username: String,
    pub ip: String,
    pub ts: i64,
}

/// The counts of attempts in the window block the request.
pub open spec fn over_limit(by_user_ip: int, by_ip: int) -> bool {
    by_user_ip > MAX_PER_USER_IP || by_ip > MAX_PER_IP
}

/// First moment that is no longer in the window ending at `now`: attempts
/// strictly after it count.
pub open spec fn window_floor(now: int) -> int {
    if now - WINDOW_SECS < i64::MIN {
        i64::MIN as int
    } else {
        now - WINDOW_SECS
    }
}

/// Whether the counts block the request.
pub fn throttled(by_user_ip: i64, by_ip: i64) -> (r: bool)
    ensures
        r == over_limit(by_user_ip as int, by_ip as int),
{
    by_user_ip > MAX_PER_USER_IP || by_ip > MAX_PER_IP
}

/// The floor of the window ending at `now`.
pub fn window_start(now: i64) -> (r: i64)
    ensures
        r == window_floor(now as int),
{
    match now.checked_sub(WINDOW_SECS) {
        Some(s) => s,
        None => i64::MIN,
    }
}

/// The floor of the window that ends now.
pub fn current_window_start() -> (r: i64)
    ensures
        exists|now: i64| r == window_floor(now as int),
{
    window_start(unix_now())
}

/// The attempt of `username` from `ip`, made now.
pub fn record_attempt(username: &str, ip: &str) -> (a: LoginAttempt)
    ensures
        a.username@ == username@,
        a.ip@ == ip@,
{
    LoginAttempt { username: username.to_owned(), ip: ip.to_owned(), ts: unix_now() }
}

} // verus!
