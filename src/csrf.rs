//! Double-submit CSRF protection: a token cookie that scripts can read, echoed
//! back in a request header on every state-changing request.

use vstd::prelude::*;

use crate::cookies::{SetCookie, get_cookie, render_set_cookie, request_cookie};
use crate::status::FORBIDDEN;
use crate::text::same_text;
use crate::tokens::{random_token, token_shape};

verus! {

/// Name of the cookie that carries the token.
pub const CSRF_COOKIE: &'static str = "XSRF-TOKEN";

/// Name of the request header that echoes the token.
pub const CSRF_HEADER: &'static str = "X-CSRF-Token";

/// Random bytes in a token: 256 bits.
pub const TOKEN_BYTES: usize = 32;

/// The request method, as far as the guard tells methods apart.
#[derive(Debug, Clone, Copy, PartialEq, Eq, Structural)]
pub enum Method {
    Get,
    Head,
    Options,
    Post,
    Put,
    Patch,
    Delete,
    Other,
}

/// Methods that create, update or delete, and so need the token.
pub open spec fn changes_state(m: Method) -> bool {
    m is Post || m is Put || m is Patch || m is Delete
}

/// The guard lets a request through: its method is read-only, or it echoes
/// in the header exactly the token of the cookie.
pub open spec fn csrf_passes(m: Method, header: Option<&str>, cookie_header: Option<&str>) -> bool {
    !changes_state(m) || match header {
        Some(h) => request_cookie(cookie_header, CSRF_COOKIE@) == Some(h@),
        None => false,
    }
}

/// `true` for the methods that need the token.
pub fn needs_csrf(m: Method) -> (r: bool)
    ensures
        r == changes_state(m),
{
    match m {
        Method::Post | Method::Put | Method::Patch | Method::Delete => true,
        _ => false,
    }
}

/// The guard in front of every API route: `Ok` lets the request on to its
/// handler, `Err(403)` stops it. `header` is the value of the CSRF header,
/// `cookie_header` the `Cookie` header of the request.
pub fn protect(m: Method, header: Option<&str>, cookie_header: Option<&str>) -> (r: Result<(), u16>)
    ensures
        r is Ok <==> csrf_passes(m, header, cookie_header),
        r is Err ==> r == Err::<(), u16>(FORBIDDEN),
{
    if !needs_csrf(m) {
        return Ok(());
    }
    let cookie = get_cookie(cookie_header, CSRF_COOKIE);
    match (header, cookie) {
        (Some(h), Some(c)) => {
            if same_text(h, c.as_str()) {
                Ok(())
            } else {
                Err(FORBIDDEN)
            }
        },
        _ => Err(FORBIDDEN),
    }
}

/// The `Set-Cookie` value that hands out the token `token`: readable by
/// scripts, `Secure`, `SameSite=Strict`, for the whole site.
pub open spec fn csrf_cookie_text(token: Seq<char>) -> Seq<char> {
    CSRF_COOKIE@ + seq!['='] + token + "; SameSite=Strict"@ + "; Secure"@ + "; Path="@ + "/"@
}

/// A fresh token and the `Set-Cookie` value that hands it out.
pub fn issue_token() -> (r: String)
    ensures
        exists|t: Seq<char>| token_shape(t, TOKEN_BYTES as nat) && r@ == csrf_cookie_text(t),
{
    let token = random_token(TOKEN_BYTES);
    let ghost t = token@;
    let c = SetCookie {
        name: String::from_str(CSRF_COOKIE),
        value: token,
        path: String::from_str("/"),
        http_only: false,
        secure: true,
        same_site_strict: true,
        max_age: None,
    };
    let r = render_set_cookie(&c);
    assert(r@ =~= csrf_cookie_text(t));
    r
}

} // verus!
