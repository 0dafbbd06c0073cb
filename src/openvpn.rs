//! Client certificates: the common-name rule, what a new client gets, the
//! revocation status of issued certificates, and per-client config text.

use vstd::prelude::*;

use crate::audit::{AuditDraft, draft_says};
use crate::text::{lemma_text_total, same_text, text_le, text_le_exec, text_lt};
use crate::tokens::{random_token, token_shape};
use crate::vpncertd::{IssueReply, IssuedMeta};

verus! {

/// Random bytes in a generated passphrase.
pub const PASSPHRASE_BYTES: usize = 16;

pub const CLIENT_CREATE: &'static str = "CLIENT_CREATE";

pub const CLIENT_REVOKE: &'static str = "CLIENT_REVOKE";

/// Actor recorded for actions the service takes on its own account.
pub const SYSTEM_ACTOR: &'static str = "system";

/// A freshly issued client, as handed back to the operator.
pub struct ClientIssue {
    pub cn: String,
    pub passphrase: String,
    pub cert_pem: String,
    pub key_pem_encrypted: String,
    pub serial: Option<String>,
    pub not_after: Option<String>,
}

/// An issued certificate with its revocation status.
pub struct IssuedWithStatus {
    pub serial: String,
    pub cn: String,
    pub profile: String,
    pub not_after: String,
    pub revoked: bool,
    pub revoked_at: Option<String>,
}

/// A per-client config file.
pub struct CcdMeta {
    pub cn: String,
    pub size: u64,
    pub modified: i64,
}

/// A bundle written to disk.
pub struct BundleFile {
    pub path: String,
    pub filename: String,
}

/// What a new client is issued with.
pub struct ClientPlan {
    pub cn: String,
    pub passphrase: String,
}

/// Why a client operation was refused.
#[derive(Debug, Clone, Copy, PartialEq, Eq, Structural)]
pub enum ClientError {
    /// The configured common-name pattern is not a valid regular expression.
    BadPattern,
    /// The common name does not match the configured pattern.
    InvalidCn,
}

#[verifier::external_type_specification]
#[verifier::external_body]
pub struct ExRegex(regex::Regex);

#[verifier::external_type_specification]
#[verifier::external_body]
pub struct ExRegexError(regex::Error);

/// Whether `regex::Regex::new` accepts `pattern`.
pub uninterp spec fn regex_compiles(pattern: Seq<char>) -> bool;

/// Whether the compiled `pattern` matches somewhere in `text`
/// (`Regex::is_match`).
pub uninterp spec fn regex_finds(pattern: Seq<char>, text: Seq<char>) -> bool;

/// A compiled common-name pattern with its source text. Only `compile_rule`
/// builds one, so `re` is always the compilation of `pattern`.
pub struct CnRule {
    re: regex::Regex,
    pattern: String,
}

impl CnRule {
    /// The pattern text the rule was compiled from.
    pub closed spec fn pattern(&self) -> Seq<char> {
        self.pattern@
    }
}

/// Relies on `regex::Regex::new`, named by `regex_compiles`.
#[verifier::external_body]
fn compile_rule(pattern: &str) -> (r: Result<CnRule, regex::Error>)
    ensures
        r is Ok <==> regex_compiles(pattern@),
        r matches Ok(c) ==> c.pattern() == pattern@,
{
    let re = regex::Regex::new(pattern)?;
    Ok(CnRule { re, pattern: pattern.to_string() })
}

/// Relies on `regex::Regex::is_match`, named by `regex_finds`.
#[verifier::external_body]
fn rule_matches(rule: &CnRule, text: &str) -> (r: bool)
    ensures
        r == regex_finds(rule.pattern(), text@),
{
    rule.re.is_match(text)
}

/// The verdict of the common-name rule `pattern` on `cn`.
pub open spec fn cn_verdict(pattern: Seq<char>, cn: Seq<char>) -> Result<(), ClientError> {
    if !regex_compiles(pattern) {
        Err(ClientError::BadPattern)
    } else if !regex_finds(pattern, cn) {
        Err(ClientError::InvalidCn)
    } else {
        Ok(())
    }
}

/// Checks `cn` against the configured common-name pattern.
pub fn check_cn(pattern: &str, cn: &str) -> (r: Result<(), ClientError>)
    ensures
        r == cn_verdict(pattern@, cn@),
{
    match compile_rule(pattern) {
        Err(_) => Err(ClientError::BadPattern),
        Ok(rule) => {
            if rule_matches(&rule, cn) {
                Ok(())
            } else {
                Err(ClientError::InvalidCn)
            }
        },
    }
}

/// What a new client `cn` is issued with: the operator's passphrase, or a
/// fresh random one of 128 bits. Refused when `cn` breaks the rule.
pub fn plan_client(pattern: &str, cn: &str, passphrase: Option<&str>) -> (r: Result<
    ClientPlan,
    ClientError,
>)
    ensures
        match cn_verdict(pattern@, cn@) {
            Err(e) => r == Err::<ClientPlan, ClientError>(e),
            Ok(()) => r matches Ok(p) && p.cn@ == cn@ && match passphrase {
                Some(given) => p.passphrase@ == given@,
                None => token_shape(p.passphrase@, PASSPHRASE_BYTES as nat),
            },
        },
{
    match check_cn(pattern, cn) {
        Err(e) => Err(e),
        Ok(()) => {
            let pass = match passphrase {
                Some(p) => p.to_owned(),
                None => random_token(PASSPHRASE_BYTES),
            };
            Ok(ClientPlan { cn: cn.to_owned(), passphrase: pass })
        },
    }
}

/// The client handed back once the daemon has issued the certificate.
pub fn client_issue(plan: ClientPlan, reply: IssueReply) -> (c: ClientIssue)
    ensures
        c.cn == plan.cn,
        c.passphrase == plan.passphrase,
        c.cert_pem == reply.cert_pem,
        c.key_pem_encrypted == reply.key_pem_encrypted,
        c.serial == reply.serial,
        c.not_after == reply.not_after,
{
    ClientIssue {
        cn: plan.cn,
        passphrase: plan.passphrase,
        cert_pem: reply.cert_pem,
        key_pem_encrypted: reply.key_pem_encrypted,
        serial: reply.serial,
        not_after: reply.not_after,
    }
}

/// The audit entry of the service doing `action` to client `cn`.
pub fn client_audit(action: &str, cn: &str) -> (d: AuditDraft)
    ensures
        draft_says(d, SYSTEM_ACTOR@, action@, cn@, "-"@, "-"@),
{
    crate::audit::draft(SYSTEM_ACTOR, action, cn, "-", "-")
}

/// `needle` occurs somewhere in `hay`.
pub open spec fn occurs_in(needle: Seq<char>, hay: Seq<char>) -> bool {
    exists|i: int| 0 <= i && i + needle.len() <= hay.len() && #[trigger] hay.subrange(i, i + needle.len()) == needle
}

/// Whether `needle` occurs in `hay`.
pub fn contains_text(hay: &str, needle: &str) -> (r: bool)
    ensures
        r == occurs_in(needle@, hay@),
{
    let n = hay.unicode_len();
    let m = needle.unicode_len();
    if m > n {
        assert forall|i: int| 0 <= i && i + m <= n implies #[trigger] hay@.subrange(i, i + m) != needle@ by {}
        return false;
    }
    let mut i: usize = 0;
    loop
        invariant
            n == hay@.len(),
            m == needle@.len(),
            m <= n,
            i <= n - m,
            forall|j: int| 0 <= j < i ==> #[trigger] hay@.subrange(j, j + m) != needle@,
        decreases n - m - i,
    {
        if same_text(hay.substring_char(i, i + m), needle) {
            return true;
        }
        if i == n - m {
            return false;
        }
        i = i + 1;
    }
}

/// Status and error tag for a failed client creation, from the failure's
/// message: 409 when the name is taken by an active certificate, 422 for a
/// name the rule refuses, 502 for anything else the daemon said.
pub open spec fn create_failure(msg: Seq<char>) -> (u16, Seq<char>) {
    if occurs_in("cn_exists_active"@, msg) {
        (409, "cn_exists_active"@)
    } else if occurs_in("invalid_cn"@, msg) {
        (422, "invalid_cn"@)
    } else {
        (502, "daemon_error"@)
    }
}

/// Status and error tag for a failed client creation.
pub fn create_failure_status(msg: &str) -> (r: (u16, String))
    ensures
        r.0 == create_failure(msg@).0,
        r.1@ == create_failure(msg@).1,
{
    if contains_text(msg, "cn_exists_active") {
        (409, String::from_str("cn_exists_active"))
    } else if contains_text(msg, "invalid_cn") {
        (422, String::from_str("invalid_cn"))
    } else {
        (502, String::from_str("daemon_error"))
    }
}

/// The message under which a refused client is reported.
pub fn client_error_message(e: ClientError) -> (r: String)
    ensures
        e is InvalidCn ==> r@ == "invalid_cn"@,
        e is BadPattern ==> r@ == "invalid cn pattern"@,
{
    match e {
        ClientError::InvalidCn => String::from_str("invalid_cn"),
        ClientError::BadPattern => String::from_str("invalid cn pattern"),
    }
}

/// File name of the bundle of client `cn`.
pub fn bundle_filename(cn: &str) -> (r: String)
    ensures
        r@ == cn@ + ".zip"@,
{
    let s = cn.to_owned();
    s.concat(".zip")
}


#[verifier::external_type_specification]
#[verifier::external_body]
pub struct ExErrorStack(openssl::error::ErrorStack);

/// The view of a list of text pairs.
pub open spec fn pairs_view(v: Seq<(String, String)>) -> Seq<(Seq<char>, Seq<char>)> {
    Seq::new(v.len(), |i: int| (v[i].0@, v[i].1@))
}

/// The revoked entries of the PEM certificate revocation list `pem`, in list
/// order, each as its serial number in decimal and its revocation date as
/// `openssl` writes it; `None` when `openssl` refuses the list.
pub uninterp spec fn crl_revocations_of(pem: Seq<char>) -> Option<Seq<(Seq<char>, Seq<char>)>>;

/// Relies on `openssl::x509::X509Crl::from_pem` and `get_revoked`, each entry
/// converted by `to_bn`, `to_dec_str` and the `Display` of its revocation
/// date; named by `crl_revocations_of`.
#[verifier::external_body]
fn crl_revocations(pem: &str) -> (r: Result<Vec<(String, String)>, openssl::error::ErrorStack>)
    ensures
        match crl_revocations_of(pem@) {
            Some(e) => r matches Ok(v) && pairs_view(v@) == e,
            None => r is Err,
        },
{
    let crl = openssl::x509::X509Crl::from_pem(pem.as_bytes())?;
    let mut out = Vec::new();
    for r in crl.get_revoked().into_iter().flatten() {
        let dec = r.serial_number().to_bn()?.to_dec_str()?.to_string();
        out.push((dec, r.revocation_date().to_string()));
    }
    Ok(out)
}

/// When the last entry for `serial` says it was revoked, as a map filled in
/// list order keeps it. The entries stay a list: vstd's `HashMap` contract
/// holds only for keys that obey its key model, which vstd establishes for
/// primitive keys and not for `String`.
pub open spec fn last_revocation(entries: Seq<(Seq<char>, Seq<char>)>, serial: Seq<char>) -> Option<
    Seq<char>,
>
    decreases entries.len(),
{
    if entries.len() == 0 {
        None
    } else if entries.last().0 == serial {
        Some(entries.last().1)
    } else {
        last_revocation(entries.drop_last(), serial)
    }
}

/// The revocations that a CRL fetch gives: none when there was no list or
/// `openssl` refused it.
pub open spec fn revocations(crl_pem: Option<&str>) -> Seq<(Seq<char>, Seq<char>)> {
    match crl_pem {
        Some(p) => match crl_revocations_of(p@) {
            Some(e) => e,
            None => Seq::empty(),
        },
        None => Seq::empty(),
    }
}

fn revocation_for(entries: &Vec<(String, String)>, serial: &str) -> (r: Option<String>)
    ensures
        match last_revocation(pairs_view(entries@), serial@) {
            Some(d) => r matches Some(s) && s@ == d,
            None => r is None,
        },
{
    let mut found: Option<String> = None;
    let mut i: usize = 0;
    while i < entries.len()
        invariant
            i <= entries@.len(),
            match last_revocation(pairs_view(entries@).subrange(0, i as int), serial@) {
                Some(d) => found matches Some(s) && s@ == d,
                None => found is None,
            },
        decreases entries@.len() - i,
    {
        let ghost pv = pairs_view(entries@);
        assert(pv.subrange(0, (i + 1) as int).drop_last() =~= pv.subrange(0, i as int));
        if same_text(entries[i].0.as_str(), serial) {
            found = Some(entries[i].1.clone());
        }
        i = i + 1;
    }
    assert(pairs_view(entries@).subrange(0, i as int) =~= pairs_view(entries@));
    found
}

/// The issued certificates with their revocation status, from the CRL
/// `crl_pem` when it could be fetched.
pub fn list_issued_with_status(issued: Vec<IssuedMeta>, crl_pem: Option<&str>) -> (r: Vec<
    IssuedWithStatus,
>)
    ensures
        r@.len() == issued@.len(),
        forall|i: int|
            0 <= i < r@.len() ==> {
                &&& #[trigger] r@[i].serial == issued@[i].serial
                &&& r@[i].cn == issued@[i].cn
                &&& r@[i].profile == issued@[i].profile
                &&& r@[i].not_after == issued@[i].not_after
                &&& r@[i].revoked == r@[i].revoked_at is Some
                &&& match last_revocation(revocations(crl_pem), issued@[i].serial@) {
                    Some(d) => r@[i].revoked_at matches Some(s) && s@ == d,
                    None => r@[i].revoked_at is None,
                }
            },
{
    let revs: Vec<(String, String)> = match crl_pem {
        Some(p) => match crl_revocations(p) {
            Ok(v) => v,
            Err(_) => Vec::new(),
        },
        None => Vec::new(),
    };
    assert(pairs_view(revs@) =~= revocations(crl_pem));
    let mut out: Vec<IssuedWithStatus> = Vec::new();
    let mut i: usize = 0;
    while i < issued.len()
        invariant
            i <= issued@.len(),
            out@.len() == i,
            pairs_view(revs@) == revocations(crl_pem),
            forall|j: int|
                0 <= j < i ==> {
                    &&& #[trigger] out@[j].serial == issued@[j].serial
                    &&& out@[j].cn == issued@[j].cn
                    &&& out@[j].profile == issued@[j].profile
                    &&& out@[j].not_after == issued@[j].not_after
                    &&& out@[j].revoked == out@[j].revoked_at is Some
                    &&& match last_revocation(revocations(crl_pem), issued@[j].serial@) {
                        Some(d) => out@[j].revoked_at matches Some(s) && s@ == d,
                        None => out@[j].revoked_at is None,
                    }
                },
        decreases issued@.len() - i,
    {
        let it = &issued[i];
        let revoked_at = revocation_for(&revs, it.serial.as_str());
        let revoked = revoked_at.is_some();
        let ghost old_out = out@;
        out.push(
            IssuedWithStatus {
                serial: it.serial.clone(),
                cn: it.cn.clone(),
                profile: it.profile.clone(),
                not_after: it.not_after.clone(),
                revoked,
                revoked_at,
            },
        );
        assert forall|j: int| 0 <= j < i implies #[trigger] out@[j] == old_out[j] by {}
        let ghost k = i as int;
        assert(out@[k].serial == issued@[k].serial);
        assert(out@[k].revoked == out@[k].revoked_at is Some);
        assert(match last_revocation(revocations(crl_pem), issued@[k].serial@) {
            Some(d) => out@[k].revoked_at matches Some(s) && s@ == d,
            None => out@[k].revoked_at is None,
        });
        i = i + 1;
    }
    out
}

/// `s` with every CR LF pair turned into a lone LF, left to right.
pub open spec fn crlf_to_lf(s: Seq<char>) -> Seq<char>
    decreases s.len(),
{
    if s.len() == 0 {
        s
    } else if s.len() >= 2 && s[0] == '\r' && s[1] == '\n' {
        seq!['\n'] + crlf_to_lf(s.subrange(2, s.len() as int))
    } else {
        seq![s[0]] + crlf_to_lf(s.drop_first())
    }
}

/// Client config text as it is stored: line ends normalised to LF.
pub fn normalize_newlines(content: &str) -> (r: String)
    ensures
        r@ == crlf_to_lf(content@),
{
    let n = content.unicode_len();
    let mut out = String::new();
    let mut i: usize = 0;
    let lf = "\n";
    proof {
        reveal_strlit("\n");
    }
    assert(content@.subrange(0, n as int) =~= content@);
    assert(out@ + crlf_to_lf(content@) =~= crlf_to_lf(content@));
    while i < n
        invariant
            n == content@.len(),
            i <= n,
            lf@ == seq!['\n'],
            out@ + crlf_to_lf(content@.subrange(i as int, n as int)) == crlf_to_lf(content@),
        decreases n - i,
    {
        let ghost rest = content@.subrange(i as int, n as int);
        if i + 1 < n && content.get_char(i) == '\r' && content.get_char(i + 1) == '\n' {
            assert(rest.subrange(2, rest.len() as int) =~= content@.subrange(i + 2, n as int));
            assert(out@ + lf@ + crlf_to_lf(content@.subrange(i + 2, n as int)) =~= out@ + crlf_to_lf(rest));
            out.append(lf);
            i = i + 2;
        } else {
            let one = content.substring_char(i, i + 1);
            assert(rest.drop_first() =~= content@.subrange(i + 1, n as int));
            assert(one@ =~= seq![rest[0]]);
            assert(out@ + one@ + crlf_to_lf(content@.subrange(i + 1, n as int)) =~= out@ + crlf_to_lf(rest));
            out.append(one);
            i = i + 1;
        }
    }
    assert(content@.subrange(n as int, n as int) =~= Seq::<char>::empty());
    assert(out@ + Seq::<char>::empty() =~= out@);
    out
}


/// An entry of the per-client config directory.
pub struct CcdEntry {
    pub name: String,
    pub is_file: bool,
    pub size: u64,
    pub modified: i64,
}

/// The entry is listed: a regular file whose name does not start with a dot.
pub open spec fn listed(e: CcdEntry) -> bool {
    e.is_file && !(e.name@.len() > 0 && e.name@[0] == '.')
}

/// What the listing shows of an entry.
pub open spec fn meta_of(e: CcdEntry) -> CcdMeta {
    CcdMeta { cn: e.name, size: e.size, modified: e.modified }
}

/// What the listing shows of the entries, in directory order.
pub open spec fn listed_metas(s: Seq<CcdEntry>) -> Seq<CcdMeta>
    decreases s.len(),
{
    if s.len() == 0 {
        Seq::empty()
    } else if listed(s.last()) {
        listed_metas(s.drop_last()).push(meta_of(s.last()))
    } else {
        listed_metas(s.drop_last())
    }
}

/// Ordered by common name.
pub open spec fn by_cn(s: Seq<CcdMeta>) -> bool {
    forall|k: int| 0 <= k < s.len() - 1 ==> text_le(#[trigger] s[k].cn@, s[k + 1].cn@)
}

/// The per-client configs of a directory listing: regular files not starting
/// with a dot, ordered by common name.
pub fn list_ccd(entries: Vec<CcdEntry>) -> (r: Vec<CcdMeta>)
    ensures
        by_cn(r@),
        r@.to_multiset() == listed_metas(entries@).to_multiset(),
{
    let mut out: Vec<CcdMeta> = Vec::new();
    let mut i: usize = 0;
    while i < entries.len()
        invariant
            i <= entries@.len(),
            by_cn(out@),
            out@.to_multiset() == listed_metas(entries@.subrange(0, i as int)).to_multiset(),
        decreases entries@.len() - i,
    {
        let ghost before = entries@.subrange(0, i as int);
        assert(entries@.subrange(0, (i + 1) as int).drop_last() =~= before);
        let e = &entries[i];
        let n = e.name.as_str().unicode_len();
        let hidden = n > 0 && e.name.as_str().get_char(0) == '.';
        if e.is_file && !hidden {
            let m = CcdMeta { cn: e.name.clone(), size: e.size, modified: e.modified };
            assert(m == meta_of(entries@[i as int]));
            let mut j: usize = out.len();
            while j > 0 && !text_le_exec(out[j - 1].cn.as_str(), m.cn.as_str())
                invariant
                    j <= out@.len(),
                    j < out@.len() ==> text_lt(m.cn@, out@[j as int].cn@),
                decreases j,
            {
                proof {
                    lemma_text_total(out@[j - 1].cn@, m.cn@);
                }
                j = j - 1;
            }
            let ghost old_out = out@;
            proof {
                vstd::seq_lib::to_multiset_insert(old_out, j as int, m);
                vstd::seq_lib::to_multiset_build(listed_metas(before), m);
            }
            out.insert(j, m);
            assert forall|k: int| 0 <= k < out@.len() - 1 implies text_le(
                #[trigger] out@[k].cn@,
                out@[k + 1].cn@,
            ) by {
                if k < j - 1 {
                    assert(out@[k] == old_out[k] && out@[k + 1] == old_out[k + 1]);
                } else if k == j - 1 {
                } else if k == j {
                } else {
                    assert(out@[k] == old_out[k - 1] && out@[k + 1] == old_out[k]);
                }
            }
        }
        i = i + 1;
    }
    assert(entries@.subrange(0, i as int) =~= entries@);
    out
}

} // verus!
