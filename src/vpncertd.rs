//! Decisions around the certificate daemon: which serial a revocation names,
//! how much of a listing to keep, and the bundle bytes of a reply.

use vstd::prelude::*;

use crate::text::{all_digits, hex_upper, is_digit_run, nat_text, parse_decimal_u128, parse_u128, same_text};

verus! {

/// One issued certificate, as the daemon lists it.
pub struct IssuedMeta {
    pub serial: String,
    pub cn: String,
    pub profile: String,
    pub not_after: String,
    pub sha256: Option<String>,
}

/// What the daemon answers to a key generation and signing request.
pub struct IssueReply {
    pub cert_pem: String,
    pub key_pem_encrypted: String,
    pub serial: Option<String>,
    pub not_after: Option<String>,
}

/// Why a daemon exchange gave no usable result.
#[derive(Debug, Clone, Copy, PartialEq, Eq, Structural)]
pub enum DaemonError {
    /// No issued certificate has the common name asked for.
    NotFound,
    /// The reply has no bundle.
    MissingBundle,
    /// The bundle of the reply is not base64.
    BadBundle,
    /// A serial number is not a decimal number that fits in 128 bits.
    NotDecimal,
}

/// What to do to revoke by an identifier.
pub enum RevokeStep {
    /// Revoke this serial.
    Revoke { serial: String },
    /// List the issued certificates, to find the serial of a common name.
    ListIssued,
}

/// A serial number: a non-empty run of decimal digits.
pub open spec fn serial_like(s: Seq<char>) -> bool {
    s.len() > 0 && all_digits(s)
}

/// The number a serial orders by: its decimal value, or 0 when it has none.
pub open spec fn serial_key(s: Seq<char>) -> nat {
    match parse_u128(s) {
        Some(v) => v,
        None => 0,
    }
}

/// Entry `k` is the one a revocation of common name `cn` picks: the highest
/// serial among those of `cn`, the last listed of equal ones.
pub open spec fn picked(issued: Seq<IssuedMeta>, cn: Seq<char>, k: int) -> bool {
    &&& 0 <= k < issued.len()
    &&& issued[k].cn@ == cn
    &&& forall|j: int|
        0 <= j < issued.len() && #[trigger] issued[j].cn@ == cn ==> serial_key(issued[j].serial@)
            <= serial_key(issued[k].serial@)
    &&& forall|j: int|
        k < j < issued.len() && #[trigger] issued[j].cn@ == cn ==> serial_key(issued[j].serial@)
            < serial_key(issued[k].serial@)
}

/// Whether `s` looks like a serial number rather than a common name.
pub fn looks_like_serial(s: &str) -> (r: bool)
    ensures
        r == serial_like(s@),
{
    is_digit_run(s)
}

/// The decimal serial `s` in upper-case hexadecimal, as revocation lists
/// write serials.
pub fn dec_to_hex_upper(s: &str) -> (r: Result<String, DaemonError>)
    ensures
        match parse_u128(s@) {
            Some(v) => r matches Ok(h) && h@ == nat_text(v, 16),
            None => r == Err::<String, DaemonError>(DaemonError::NotDecimal),
        },
{
    match parse_decimal_u128(s) {
        Some(n) => Ok(hex_upper(n)),
        None => Err(DaemonError::NotDecimal),
    }
}

/// A revocation by `id`: a serial is revoked as it is; a common name needs
/// the listing first.
pub fn revoke_start(id: &str) -> (r: RevokeStep)
    ensures
        serial_like(id@) ==> (r matches RevokeStep::Revoke { serial } && serial@ == id@),
        !serial_like(id@) ==> r is ListIssued,
{
    if looks_like_serial(id) {
        RevokeStep::Revoke { serial: id.to_owned() }
    } else {
        RevokeStep::ListIssued
    }
}

fn key_of(s: &str) -> (r: u128)
    ensures
        r as nat == serial_key(s@),
{
    match parse_decimal_u128(s) {
        Some(v) => v,
        None => 0,
    }
}

/// The serial to revoke for common name `cn`, given the listing.
pub fn revoke_listed(cn: &str, issued: &Vec<IssuedMeta>) -> (r: Result<String, DaemonError>)
    ensures
        r is Ok <==> exists|j: int| 0 <= j < issued@.len() && #[trigger] issued@[j].cn@ == cn@,
        r is Err ==> r == Err::<String, DaemonError>(DaemonError::NotFound),
        r matches Ok(s) ==> exists|k: int| picked(issued@, cn@, k) && s@ == issued@[k].serial@,
{
    let mut best: Option<usize> = None;
    let mut best_key: u128 = 0;
    let mut i: usize = 0;
    while i < issued.len()
        invariant
            i <= issued@.len(),
            match best {
                None => forall|j: int| 0 <= j < i ==> #[trigger] issued@[j].cn@ != cn@,
                Some(k) => {
                    &&& k < i
                    &&& issued@[k as int].cn@ == cn@
                    &&& best_key as nat == serial_key(issued@[k as int].serial@)
                    &&& forall|j: int|
                        0 <= j < i && #[trigger] issued@[j].cn@ == cn@ ==> serial_key(
                            issued@[j].serial@,
                        ) <= best_key
                    &&& forall|j: int|
                        k < j < i && #[trigger] issued@[j].cn@ == cn@ ==> serial_key(
                            issued@[j].serial@,
                        ) < best_key
                },
            },
        decreases issued@.len() - i,
    {
        if same_text(issued[i].cn.as_str(), cn) {
            let key = key_of(issued[i].serial.as_str());
            match best {
                None => {
                    best = Some(i);
                    best_key = key;
                },
                Some(_) => {
                    if key >= best_key {
                        best = Some(i);
                        best_key = key;
                    }
                },
            }
        }
        i = i + 1;
    }
    match best {
        None => Err(DaemonError::NotFound),
        Some(k) => {
            assert(picked(issued@, cn@, k as int));
            Ok(issued[k].serial.clone())
        },
    }
}

/// A listing cut to `limit` entries, when a limit is given.
pub fn limit_listing(list: Vec<IssuedMeta>, limit: Option<usize>) -> (r: Vec<IssuedMeta>)
    ensures
        match limit {
            Some(n) => if list@.len() > n {
                r@ == list@.subrange(0, n as int)
            } else {
                r@ == list@
            },
            None => r@ == list@,
        },
{
    let mut list = list;
    if let Some(n) = limit {
        if list.len() > n {
            list.truncate(n);
        }
    }
    list
}

/// The bytes that standard, padded base64 text `s` decodes to, as the `base64`
/// crate's `STANDARD` engine reads it; `None` when it refuses the text.
pub uninterp spec fn b64_std_decoded(s: Seq<char>) -> Option<Seq<u8>>;

/// Relies on `base64::engine::general_purpose::STANDARD.decode`, named by
/// `b64_std_decoded`.
#[verifier::external_body]
fn b64_std_decode(s: &str) -> (r: Result<Vec<u8>, base64::DecodeError>)
    ensures
        match b64_std_decoded(s@) {
            Some(b) => r matches Ok(v) && v@ == b,
            None => r is Err,
        },
{
    base64::Engine::decode(&base64::engine::general_purpose::STANDARD, s)
}

#[verifier::external_type_specification]
#[verifier::external_body]
pub struct ExDecodeError(base64::DecodeError);

/// The zip bundle carried by a reply's `zip_b64` field.
pub fn bundle_bytes(zip_b64: Option<&str>) -> (r: Result<Vec<u8>, DaemonError>)
    ensures
        match zip_b64 {
            None => r == Err::<Vec<u8>, DaemonError>(DaemonError::MissingBundle),
            Some(s) => match b64_std_decoded(s@) {
                Some(b) => r matches Ok(v) && v@ == b,
                None => r == Err::<Vec<u8>, DaemonError>(DaemonError::BadBundle),
            },
        },
{
    match zip_b64 {
        None => Err(DaemonError::MissingBundle),
        Some(s) => match b64_std_decode(s) {
            Ok(v) => Ok(v),
            Err(_) => Err(DaemonError::BadBundle),
        },
    }
}

} // verus!
