//! Reading the `Cookie` request header and writing `Set-Cookie` values.

use vstd::prelude::*;

use crate::text::{find_char, index_of, int_text, same_text, trim, trim_text};

verus! {

/// The value that one `;`-separated, trimmed part of a `Cookie` header gives
/// for `name`: the text after the first `=`, when the text before it is `name`.
pub open spec fn cookie_part_value(part: Seq<char>, name: Seq<char>) -> Option<Seq<char>> {
    let e = index_of(part, '=');
    if e < part.len() && part.subrange(0, e as int) == name {
        Some(part.subrange((e + 1) as int, part.len() as int))
    } else {
        None
    }
}

/// The value of the first part of a `Cookie` header that names `name`.
pub open spec fn cookie_lookup(header: Seq<char>, name: Seq<char>) -> Option<Seq<char>>
    decreases header.len(),
{
    let k = index_of(header, ';');
    let hit = cookie_part_value(trim(header.subrange(0, k as int)), name);
    if hit is Some {
        hit
    } else if k < header.len() {
        cookie_lookup(header.subrange((k + 1) as int, header.len() as int), name)
    } else {
        None
    }
}

/// What a request with `Cookie` header `header` (if any) carries for `name`.
pub open spec fn request_cookie(header: Option<&str>, name: Seq<char>) -> Option<Seq<char>> {
    match header {
        Some(h) => cookie_lookup(h@, name),
        None => None,
    }
}

/// The value of cookie `name` in a `Cookie` header, if the header is there and
/// one of its parts names it.
pub fn get_cookie(header: Option<&str>, name: &str) -> (r: Option<String>)
    ensures
        match r {
            Some(v) => request_cookie(header, name@) == Some(v@),
            None => request_cookie(header, name@) is None,
        },
{
    let h = match header {
        None => return None,
        Some(h) => h,
    };
    let mut rest: &str = h;
    loop
        invariant
            header == Some(h),
            cookie_lookup(h@, name@) == cookie_lookup(rest@, name@),
        decreases rest@.len(),
    {
        let n = rest.unicode_len();
        let k = find_char(rest, ';');
        let part = trim_text(rest.substring_char(0, k));
        let e = find_char(part, '=');
        let pn = part.unicode_len();
        let ghost hit = cookie_part_value(part@, name@);
        assert(cookie_lookup(rest@, name@) == if hit is Some {
            hit
        } else if k < n {
            cookie_lookup(rest@.subrange(k + 1, n as int), name@)
        } else {
            None
        });
        if e < pn && same_text(part.substring_char(0, e), name) {
            let v = part.substring_char(e + 1, pn);
            assert(hit == Some(v@));
            return Some(v.to_owned());
        }
        assert(hit is None);
        if k < n {
            rest = rest.substring_char(k + 1, n);
        } else {
            return None;
        }
    }
}

/// A `Set-Cookie` value: the cookie and the attributes this service uses.
pub struct SetCookie {
    pub name: String,
    pub value: String,
    pub path: String,
    pub http_only: bool,
    pub secure: bool,
    pub same_site_strict: bool,
    pub max_age: Option<i64>,
}

/// The text of a `Set-Cookie` value, attributes in the order that the
/// `cookie` crate writes them.
pub open spec fn set_cookie_text(c: SetCookie) -> Seq<char> {
    c.name@ + seq!['='] + c.value@ + (if c.http_only {
        "; HttpOnly"@
    } else {
        Seq::empty()
    }) + (if c.same_site_strict {
        "; SameSite=Strict"@
    } else {
        Seq::empty()
    }) + (if c.secure {
        "; Secure"@
    } else {
        Seq::empty()
    }) + "; Path="@ + c.path@ + match c.max_age {
        Some(n) => "; Max-Age="@ + int_text(n as int),
        None => Seq::empty(),
    }
}

/// Relies on `cookie::Cookie`'s `Display`: `name=value`, then `; HttpOnly` when
/// set, `; SameSite=Strict`, `; Secure` when set, `; Path=`, `; Max-Age=` with
/// the whole seconds.
#[verifier::external_body]
pub(crate) fn render_set_cookie(c: &SetCookie) -> (r: String)
    ensures
        r@ == set_cookie_text(*c),
{
    let mut k = cookie::Cookie::new(c.name.clone(), c.value.clone());
    k.set_path(c.path.clone());
    k.set_http_only(c.http_only);
    k.set_secure(c.secure);
    k.set_same_site(c.same_site_strict.then_some(cookie::SameSite::Strict));
    k.set_max_age(c.max_age.map(cookie::time::Duration::seconds));
    k.to_string()
}

} // verus!
