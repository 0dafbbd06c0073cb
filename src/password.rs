//! Keyed password hashing (Argon2id with a server-side pepper) and
//! fail-closed verification.

use vstd::prelude::*;

use crate::text::{int_text, is_digit};

verus! {

#[verifier::external_type_specification]
#[verifier::external_body]
pub struct ExParams(argon2::Params);

#[verifier::external_type_specification]
#[verifier::external_body]
pub struct ExArgon2<'k>(argon2::Argon2<'k>);

#[verifier::external_type_specification]
#[verifier::external_body]
pub struct ExPasswordHash<'a>(argon2::PasswordHash<'a>);

#[verifier::external_type_specification]
#[verifier::external_body]
pub struct ExSaltString(argon2::password_hash::SaltString);

#[verifier::external_type_specification]
#[verifier::external_body]
pub struct ExArgon2Error(argon2::Error);

#[verifier::external_type_specification]
#[verifier::external_body]
pub struct ExPhcError(argon2::password_hash::Error);

#[verifier::external_type_specification]
pub struct ExAlgorithm(argon2::Algorithm);

#[verifier::external_type_specification]
pub struct ExVersion(argon2::Version);

/// Memory cost in KiB.
pub const M_COST: u32 = 65536;

/// Number of passes.
pub const T_COST: u32 = 2;

/// Degree of parallelism.
pub const P_COST: u32 = 1;

/// How every PHC string made here begins: Argon2id, version 19, and the cost
/// parameters above.
pub const PHC_HEAD: &'static str = "$argon2id$v=19$m=65536,t=2,p=1$";

/// Whether `PasswordHash::new` accepts `phc` as a PHC string.
pub uninterp spec fn phc_parses(phc: Seq<char>) -> bool;

/// Whether Argon2's `verify_password`, keyed with `secret`, accepts
/// `password` against the PHC string `phc`.
pub uninterp spec fn phc_matches(password: Seq<char>, phc: Seq<char>, secret: Seq<u8>) -> bool;

/// Number of decimal digits at the front of `s`.
pub open spec fn lead_digits(s: Seq<char>) -> nat
    decreases s.len(),
{
    if s.len() > 0 && is_digit(s[0]) {
        1 + lead_digits(s.drop_first())
    } else {
        0
    }
}

/// Every `p=` in `s` is followed by at most eight digits, so a lane count
/// read from it is below 10^8, and Argon2's `8 * p` check cannot overflow.
pub open spec fn lanes_in_range(s: Seq<char>) -> bool {
    forall|i: int|
        0 <= i < s.len() - 1 && #[trigger] s[i] == 'p' && s[i + 1] == '=' ==> lead_digits(
            s.subrange(i + 2, s.len() as int),
        ) <= 8
}

/// What `verify_password` answers: the pepper can key the hasher, the lane
/// count of the stored string is in range, the string is a PHC string, and
/// Argon2 accepts the password against it.
pub open spec fn password_accepted(pw: Seq<char>, phc: Seq<char>, pepper: Seq<u8>) -> bool {
    &&& pepper.len() <= 0xFFFF_FFFF
    &&& lanes_in_range(phc)
    &&& phc_parses(phc)
    &&& phc_matches(pw, phc, pepper)
}

/// Why hashing a password failed.
#[derive(Debug, Clone, Copy, PartialEq, Eq, Structural)]
pub enum PasswordError {
    /// The pepper is too long to key the hasher.
    Key,
    /// Hashing itself failed: the password is too long.
    Hashing,
}

/// Argon2 cost parameters with the numbers they were made from. Only
/// `cost_params` builds one, so `inner` always holds these numbers.
pub struct CostParams {
    inner: argon2::Params,
    m_cost: u32,
    t_cost: u32,
    p_cost: u32,
}

impl CostParams {
    /// Memory, passes and lanes.
    pub closed spec fn costs(&self) -> (u32, u32, u32) {
        (self.m_cost, self.t_cost, self.p_cost)
    }
}

/// An Argon2 hasher with the secret, variant, version and costs it was built
/// with. Only `with_secret` builds one, so `inner` always has these.
pub struct KeyedHasher<'k> {
    inner: argon2::Argon2<'k>,
    secret: &'k [u8],
    algorithm: argon2::Algorithm,
    version: argon2::Version,
    costs: (u32, u32, u32),
}

impl<'k> KeyedHasher<'k> {
    /// The secret the hasher is keyed with.
    pub closed spec fn secret(&self) -> Seq<u8> {
        self.secret@
    }

    /// The Argon2 variant.
    pub closed spec fn algorithm(&self) -> argon2::Algorithm {
        self.algorithm
    }

    /// The Argon2 version.
    pub closed spec fn version(&self) -> argon2::Version {
        self.version
    }

    /// Memory, passes and lanes.
    pub closed spec fn costs(&self) -> (u32, u32, u32) {
        self.costs
    }
}

/// A parsed PHC string with the text it came from. Only `parse_phc` builds
/// one, so `inner` is always the parse of `text`.
pub struct ParsedPhc<'a> {
    inner: argon2::PasswordHash<'a>,
    text: &'a str,
}

impl<'a> ParsedPhc<'a> {
    /// The PHC text this value was parsed from.
    pub closed spec fn text(&self) -> Seq<char> {
        self.text@
    }
}

/// A salt drawn by `SaltString::generate`: 16 random bytes in B64. Only
/// `random_salt` builds one.
pub struct FreshSalt {
    inner: argon2::password_hash::SaltString,
}

/// The name Argon2 writes for a variant.
pub open spec fn alg_ident(a: argon2::Algorithm) -> Seq<char> {
    match a {
        argon2::Algorithm::Argon2d => "argon2d"@,
        argon2::Algorithm::Argon2i => "argon2i"@,
        argon2::Algorithm::Argon2id => "argon2id"@,
    }
}

/// The number Argon2 writes for a version.
pub open spec fn version_number(v: argon2::Version) -> int {
    match v {
        argon2::Version::V0x10 => 16,
        argon2::Version::V0x13 => 19,
    }
}

/// The head of a PHC string Argon2 writes: variant, version and costs.
pub open spec fn phc_head(a: argon2::Algorithm, v: argon2::Version, costs: (u32, u32, u32)) -> Seq<char> {
    seq!['$'] + alg_ident(a) + "$v="@ + int_text(version_number(v)) + "$m="@ + int_text(
        costs.0 as int,
    ) + ",t="@ + int_text(costs.1 as int) + ",p="@ + int_text(costs.2 as int) + seq!['$']
}

/// `s` is `head` followed by text with no `=` in it.
pub open spec fn head_then_b64(s: Seq<char>, head: Seq<char>) -> bool {
    &&& s.len() > head.len()
    &&& s.subrange(0, head.len() as int) == head
    &&& forall|k: int| head.len() <= k < s.len() ==> s[k] != '='
}

/// Relies on `argon2::Params::new` (no output length): it refuses memory under
/// 8 KiB or under 8 KiB per lane, zero passes, and parallelism outside
/// 1 ..= 0xFF_FFFF.
#[verifier::external_body]
fn cost_params(m_cost: u32, t_cost: u32, p_cost: u32) -> (r: Result<CostParams, argon2::Error>)
    requires
        p_cost <= 0x1FFF_FFFF,
    ensures
        r is Ok <==> (m_cost >= 8 && m_cost >= 8 * p_cost && t_cost >= 1 && 1 <= p_cost
            <= 0xFF_FFFF),
        r matches Ok(c) ==> c.costs() == (m_cost, t_cost, p_cost),
{
    let inner = argon2::Params::new(m_cost, t_cost, p_cost, None)?;
    Ok(CostParams { inner, m_cost, t_cost, p_cost })
}

/// Relies on `argon2::Argon2::new_with_secret`: it refuses a secret longer than
/// `u32::MAX` bytes and otherwise keeps the secret, variant, version and
/// parameters for every hash and check.
#[verifier::external_body]
fn with_secret<'k>(
    secret: &'k [u8],
    algorithm: argon2::Algorithm,
    version: argon2::Version,
    params: CostParams,
) -> (r: Result<KeyedHasher<'k>, argon2::Error>)
    ensures
        r is Ok <==> secret@.len() <= 0xFFFF_FFFF,
        r matches Ok(h) ==> h.secret() == secret@ && h.algorithm() == algorithm && h.version()
            == version && h.costs() == params.costs(),
{
    let costs = (params.m_cost, params.t_cost, params.p_cost);
    let inner = argon2::Argon2::new_with_secret(secret, algorithm, version, params.inner)?;
    Ok(KeyedHasher { inner, secret, algorithm, version, costs })
}

/// Relies on `argon2::PasswordHash::new`, named by `phc_parses`.
#[verifier::external_body]
fn parse_phc<'a>(text: &'a str) -> (r: Result<ParsedPhc<'a>, argon2::password_hash::Error>)
    ensures
        r is Ok <==> phc_parses(text@),
        r matches Ok(p) ==> p.text() == text@,
{
    let inner = argon2::PasswordHash::new(text)?;
    Ok(ParsedPhc { inner, text })
}

/// Relies on `PasswordVerifier::verify_password` of `argon2::Argon2`, named by
/// `phc_matches`: it recomputes the hash with the string's own algorithm,
/// parameters and salt and the hasher's secret. The lane count is read with
/// `Params::new`, whose `8 * p` overflows from `p = 2^29` on; `requires`
/// keeps the text's lane counts below 10^8.
#[verifier::external_body]
fn verify_keyed(h: &KeyedHasher, password: &str, phc: &ParsedPhc) -> (r: bool)
    requires
        lanes_in_range(phc.text()),
    ensures
        r == phc_matches(password@, phc.text(), h.secret()),
{
    argon2::PasswordVerifier::verify_password(&h.inner, password.as_bytes(), &phc.inner).is_ok()
}

/// Relies on `SaltString::generate` with the operating system's random source.
#[verifier::external_body]
fn random_salt() -> (r: FreshSalt) {
    FreshSalt {
        inner: argon2::password_hash::SaltString::generate(
            &mut argon2::password_hash::rand_core::OsRng,
        ),
    }
}

/// Relies on `PasswordHasher::hash_password` of `argon2::Argon2` and the PHC
/// text of its result. With parameters from `Params::new` and a generated
/// salt it fails only for a password over `u32::MAX` bytes. The text is
/// `$variant$v=version$m=..,t=..,p=..$` followed by the B64 salt, `$` and the
/// B64 digest; it parses, and the same hasher's secret verifies the same
/// password against it.
#[verifier::external_body]
fn hash_keyed(h: &KeyedHasher, password: &str, salt: &FreshSalt) -> (r: Result<
    String,
    argon2::password_hash::Error,
>)
    ensures
        password@.len() <= 0x3FFF_FFFF ==> r is Ok,
        r matches Ok(s) ==> phc_parses(s@) && phc_matches(password@, s@, h.secret()),
        r matches Ok(s) ==> head_then_b64(s@, phc_head(h.algorithm(), h.version(), h.costs())),
{
    let phc = argon2::PasswordHasher::hash_password(&h.inner, password.as_bytes(), &salt.inner)?;
    Ok(phc.to_string())
}

proof fn lemma_lead_digits(s: Seq<char>, k: int)
    requires
        0 <= k <= s.len(),
        k < s.len() ==> !is_digit(s[k]),
        forall|j: int| 0 <= j < k ==> is_digit(#[trigger] s[j]),
    ensures
        lead_digits(s) == k,
    decreases k,
{
    if k > 0 {
        let t = s.drop_first();
        assert forall|j: int| 0 <= j < k - 1 implies is_digit(#[trigger] t[j]) by {
            assert(t[j] == s[j + 1]);
        }
        lemma_lead_digits(t, k - 1);
    }
}

/// Whether every `p=` in `s` is followed by at most eight digits.
pub fn lanes_checked(s: &str) -> (r: bool)
    ensures
        r == lanes_in_range(s@),
{
    let n = s.unicode_len();
    let mut i: usize = 0;
    while i < n && i + 1 < n
        invariant
            n == s@.len(),
            i <= n,
            forall|j: int|
                0 <= j < i && j < n - 1 && #[trigger] s@[j] == 'p' && s@[j + 1] == '=' ==> lead_digits(
                    s@.subrange(j + 2, n as int),
                ) <= 8,
        decreases n - i,
    {
        if s.get_char(i) == 'p' && s.get_char(i + 1) == '=' {
            let ghost rest = s@.subrange(i + 2, n as int);
            let mut k: usize = i + 2;
            while k < n && '0' <= s.get_char(k) && s.get_char(k) <= '9'
                invariant
                    n == s@.len(),
                    i + 2 <= k <= n,
                    rest == s@.subrange(i + 2, n as int),
                    forall|j: int| 0 <= j < k - (i + 2) ==> is_digit(#[trigger] rest[j]),
                decreases n - k,
            {
                k = k + 1;
            }
            proof {
                lemma_lead_digits(rest, k - (i + 2));
            }
            if k - (i + 2) > 8 {
                assert(s@[i as int] == 'p' && s@[i + 1] == '=');
                return false;
            }
        }
        i = i + 1;
    }
    true
}

/// The head of every PHC string made here, character by character.
pub open spec fn default_head() -> Seq<char> {
    seq![
        '$', 'a', 'r', 'g', 'o', 'n', '2', 'i', 'd', '$', 'v', '=', '1', '9', '$', 'm', '=', '6',
        '5', '5', '3', '6', ',', 't', '=', '2', ',', 'p', '=', '1', '$',
    ]
}

proof fn lemma_default_head()
    ensures
        phc_head(argon2::Algorithm::Argon2id, argon2::Version::V0x13, (M_COST, T_COST, P_COST))
            == default_head(),
        PHC_HEAD@ == default_head(),
{
    reveal_strlit("argon2id");
    reveal_strlit("$v=");
    reveal_strlit("$m=");
    reveal_strlit(",t=");
    reveal_strlit(",p=");
    reveal_strlit("$argon2id$v=19$m=65536,t=2,p=1$");
    reveal_with_fuel(crate::text::nat_text, 6);
    assert(phc_head(argon2::Algorithm::Argon2id, argon2::Version::V0x13, (M_COST, T_COST, P_COST))
        =~= default_head());
    assert(PHC_HEAD@ =~= default_head());
}

proof fn lemma_default_head_lanes(s: Seq<char>)
    requires
        head_then_b64(s, default_head()),
    ensures
        lanes_in_range(s),
{
    let h = default_head();
    assert forall|k: int| 0 <= k < 31 implies #[trigger] s[k] == h[k] by {
        assert(s.subrange(0, 31)[k] == s[k]);
    }
    assert forall|i: int|
        0 <= i < s.len() - 1 && #[trigger] s[i] == 'p' && s[i + 1] == '=' implies lead_digits(
            s.subrange(i + 2, s.len() as int),
        ) <= 8 by {
        assert(i + 1 < 31);
        assert(s[i] == h[i] && s[i + 1] == h[i + 1]);
        assert(i == 27);
        let rest = s.subrange(29, s.len() as int);
        assert(rest[0] == s[29] && s[29] == h[29]);
        assert(rest[1] == s[30] && s[30] == h[30]);
        lemma_lead_digits(rest, 1);
    }
}

/// Hashes `pw` with Argon2id (64 MiB, 2 passes, 1 lane), a fresh random salt
/// and `pepper` as the secret key. It fails only for a pepper over `u32::MAX`
/// bytes or a password too long to hash; the PHC string that comes back
/// begins with `PHC_HEAD` and verifies `pw` under the same pepper.
pub fn hash_password(pw: &str, pepper: &[u8]) -> (r: Result<String, PasswordError>)
    ensures
        r matches Ok(h) ==> password_accepted(pw@, h@, pepper@),
        r matches Ok(h) ==> h@.len() > PHC_HEAD@.len() && h@.subrange(0, PHC_HEAD@.len() as int)
            == PHC_HEAD@,
        pepper@.len() <= 0xFFFF_FFFF && pw@.len() <= 0x3FFF_FFFF ==> r is Ok,
        r == Err::<String, PasswordError>(PasswordError::Key) <==> pepper@.len() > 0xFFFF_FFFF,
        r == Err::<String, PasswordError>(PasswordError::Hashing) ==> pw@.len() > 0x3FFF_FFFF,
{
    let params = match cost_params(M_COST, T_COST, P_COST) {
        Ok(p) => p,
        Err(_) => {
            proof {
                assert(false);
            }
            return Err(PasswordError::Hashing);
        },
    };
    let hasher = match with_secret(
        pepper,
        argon2::Algorithm::Argon2id,
        argon2::Version::V0x13,
        params,
    ) {
        Ok(h) => h,
        Err(_) => return Err(PasswordError::Key),
    };
    let salt = random_salt();
    match hash_keyed(&hasher, pw, &salt) {
        Ok(s) => {
            proof {
                lemma_default_head();
                lemma_default_head_lanes(s@);
            }
            Ok(s)
        },
        Err(_) => Err(PasswordError::Hashing),
    }
}

/// Checks `pw` against the stored PHC string `phc` under `pepper`. Fails
/// closed: a malformed string, a lane count too large to read safely, or a
/// pepper the hasher refuses gives `false`.
pub fn verify_password(pw: &str, phc: &str, pepper: &[u8]) -> (r: bool)
    ensures
        r == password_accepted(pw@, phc@, pepper@),
        !phc_parses(phc@) ==> !r,
{
    if !lanes_checked(phc) {
        return false;
    }
    let params = match cost_params(M_COST, T_COST, P_COST) {
        Ok(p) => p,
        Err(_) => return false,
    };
    let hasher = match with_secret(
        pepper,
        argon2::Algorithm::Argon2id,
        argon2::Version::V0x13,
        params,
    ) {
        Ok(h) => h,
        Err(_) => return false,
    };
    let parsed = match parse_phc(phc) {
        Ok(p) => p,
        Err(_) => return false,
    };
    verify_keyed(&hasher, pw, &parsed)
}

} // verus!
