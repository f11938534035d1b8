//! Registration and deregistration of a client session.

use vstd::prelude::*;

use crate::comresult::{plain_result, ComResult, ComResultModel, ServiceResponse};
use crate::config::{CredentialsConfig, WebservicesConfig, WebwareConfig};
use crate::hex::{lower_hex, to_lower_hex};

verus! {

/// The bytes of `s` in the Windows-1252 code page, as `encoding_rs` writes them.
pub uninterp spec fn windows_1252_bytes(s: Seq<char>) -> Seq<u8>;

/// The MD5 digest of `bytes`.
pub uninterp spec fn md5_digest(bytes: Seq<u8>) -> Seq<u8>;

/// Relies on `encoding_rs::Encoding::encode` with `WINDOWS_1252`: the bytes
/// depend on the text alone; characters outside the code page become numeric
/// character references.
#[verifier::external_body]
fn encode_windows_1252(s: &str) -> (r: Vec<u8>)
    ensures
        r@ == windows_1252_bytes(s@),
{
    encoding_rs::WINDOWS_1252.encode(s).0.into_owned()
}

/// Relies on `md5::compute`: the 16-byte digest of the bytes.
#[verifier::external_body]
fn compute_md5(bytes: &[u8]) -> (r: [u8; 16])
    ensures
        r@ == md5_digest(bytes@),
{
    md5::compute(bytes).0
}

/// The proof of possession that a deregistration must carry: the MD5 digest
/// of the application id followed by the timestamp, encoded in Windows-1252,
/// as lowercase hexadecimal.
pub open spec fn legacy_hash(application_id: Seq<char>, timestamp: Seq<char>) -> Seq<char> {
    lower_hex(md5_digest(windows_1252_bytes(application_id + timestamp)))
}

/// Computes the proof of possession for an application id and a timestamp.
pub fn compute_legacy_hash(application_id: &str, timestamp: &str) -> (r: String)
    ensures
        r@ == legacy_hash(application_id@, timestamp@),
{
    let mut text = application_id.to_owned();
    text.append(timestamp);
    let bytes = encode_windows_1252(text.as_str());
    let digest = compute_md5(bytes.as_slice());
    to_lower_hex(&digest)
}

/// The credentials handed out by a successful registration.
#[derive(Debug)]
pub struct ServicePass {
    /// The service pass.
    pub pass_id: String,
    /// The application id.
    pub app_id: String,
}

/// The body of a registration answer: the credentials, or nothing.
#[derive(Debug)]
pub struct RegisterResponse {
    /// The credentials, on success.
    pub service_pass: Option<ServicePass>,
}

/// Whether a registration repeats the configured identity exactly.
pub open spec fn register_accepts(
    identity: WebservicesConfig,
    vendor_hash: Seq<char>,
    app_hash: Seq<char>,
    secret: Seq<char>,
    revision: u32,
) -> bool {
    &&& identity.vendor_hash@ == vendor_hash
    &&& identity.application_hash@ == app_hash
    &&& identity.application_secret@ == secret
    &&& identity.version == revision
}

/// The envelope of a successful registration.
pub open spec fn register_ok_result() -> ComResultModel {
    plain_result(200, "200 OK"@, "REGISTER OK"@)
}

/// The envelope of a refused registration.
pub open spec fn register_refused_result() -> ComResultModel {
    plain_result(406, "406 Not Acceptable"@, "REGISTER is not possible"@)
}

impl RegisterResponse {
    /// The answer that hands out these credentials.
    pub fn success(service_pass: &str, app_id: &str) -> (r: ServiceResponse<RegisterResponse>)
        ensures
            r.comresult@ == register_ok_result(),
            r.body.service_pass matches Some(p) && p.pass_id@ == service_pass@ && p.app_id@
                == app_id@,
    {
        ServiceResponse {
            comresult: ComResult::new(200, "200 OK", "REGISTER OK"),
            body: RegisterResponse {
                service_pass: Some(
                    ServicePass { pass_id: service_pass.to_owned(), app_id: app_id.to_owned() },
                ),
            },
        }
    }

    /// The answer that refuses a registration, without credentials.
    pub fn error() -> (r: ServiceResponse<RegisterResponse>)
        ensures
            r.comresult@ == register_refused_result(),
            r.body.service_pass is None,
    {
        ServiceResponse {
            comresult: ComResult::new(406, "406 Not Acceptable", "REGISTER is not possible"),
            body: RegisterResponse { service_pass: None },
        }
    }
}

/// Answers a registration: the process's one pair of credentials where all
/// four values equal the configured identity, else a refusal without them.
pub fn handle_register(
    config: &WebwareConfig,
    vendor_hash: &str,
    app_hash: &str,
    secret: &str,
    revision: u32,
) -> (r: ServiceResponse<RegisterResponse>)
    ensures
        register_accepts(config.webservices, vendor_hash@, app_hash@, secret@, revision) ==> {
            &&& r.comresult@ == register_ok_result()
            &&& r.body.service_pass matches Some(p)
            &&& p.pass_id@ == config.credentials.service_pass@
            &&& p.app_id@ == config.credentials.application_id@
        },
        !register_accepts(config.webservices, vendor_hash@, app_hash@, secret@, revision) ==> {
            &&& r.comresult@ == register_refused_result()
            &&& r.body.service_pass is None
        },
{
    let identity = &config.webservices;
    if identity.vendor_hash != vendor_hash.to_owned() || identity.application_hash
        != app_hash.to_owned() || identity.application_secret != secret.to_owned()
        || identity.version != revision {
        RegisterResponse::error()
    } else {
        RegisterResponse::success(
            config.credentials.service_pass.as_str(),
            config.credentials.application_id.as_str(),
        )
    }
}

/// The value of a string of decimal digits.
pub open spec fn decimal_value(s: Seq<char>) -> int
    decreases s.len(),
{
    if s.len() == 0 {
        0
    } else {
        decimal_value(s.drop_last()) * 10 + (s.last() as int - '0' as int)
    }
}

/// Whether `s` is a non-empty string of decimal digits.
pub open spec fn is_decimal(s: Seq<char>) -> bool {
    s.len() > 0 && forall|i: int| 0 <= i < s.len() ==> '0' <= #[trigger] s[i] <= '9'
}

/// The revision that a path segment holds: decimal digits, after an optional
/// `+`, whose value fits in 32 bits.
pub open spec fn revision_of(s: Seq<char>) -> Option<u32> {
    let digits = if s.len() > 0 && s[0] == '+' {
        s.skip(1)
    } else {
        s
    };
    if is_decimal(digits) && decimal_value(digits) <= u32::MAX {
        Some(decimal_value(digits) as u32)
    } else {
        None
    }
}

/// Reads the revision of a registration path; `None` where it is no unsigned
/// 32-bit number.
pub fn parse_revision(s: &str) -> (r: Option<u32>)
    ensures
        r == revision_of(s@),
{
    let n = s.unicode_len();
    let start: usize = if n > 0 && s.get_char(0) == '+' {
        1
    } else {
        0
    };
    let ghost digits = s@.skip(start as int);
    assert(start == 0 ==> digits =~= s@);
    assert(digits == if s@.len() > 0 && s@[0] == '+' {
        s@.skip(1)
    } else {
        s@
    });
    if start >= n {
        return None;
    }
    let mut value: u32 = 0;
    let mut i: usize = start;
    while i < n
        invariant
            start <= i <= n,
            n == s@.len(),
            digits == s@.skip(start as int),
            digits == if s@.len() > 0 && s@[0] == '+' {
                s@.skip(1)
            } else {
                s@
            },
            forall|j: int| start <= j < i ==> '0' <= #[trigger] s@[j] <= '9',
            value as int == decimal_value(s@.subrange(start as int, i as int)),
        decreases n - i,
    {
        let c = s.get_char(i);
        let ghost prefix = s@.subrange(start as int, i + 1);
        proof {
            assert(prefix.drop_last() =~= s@.subrange(start as int, i as int));
            assert(prefix.last() == c);
            assert(digits.take(i + 1 - start) =~= prefix);
        }
        if c < '0' || c > '9' {
            assert(digits[i - start] == c);
            return None;
        }
        let d = (c as u32) - ('0' as u32);
        if value > (u32::MAX - d) / 10 {
            proof {
                assert(value * 10 + d > u32::MAX) by (nonlinear_arith)
                    requires
                        value > (u32::MAX - d) / 10,
                        d <= 9,
                ;
                if is_decimal(digits) {
                    lemma_decimal_prefix_bound(digits, i + 1 - start);
                }
            }
            return None;
        }
        value = value * 10 + d;
        i += 1;
    }
    assert(digits =~= s@.subrange(start as int, n as int));
    assert forall|k: int| 0 <= k < digits.len() implies '0' <= #[trigger] digits[k] <= '9' by {
        assert(digits[k] == s@[start + k]);
    }
    Some(value)
}

/// A string of digits is worth at least as much as any of its prefixes.
proof fn lemma_decimal_prefix_bound(s: Seq<char>, k: int)
    requires
        0 <= k <= s.len(),
        is_decimal(s),
    ensures
        decimal_value(s) >= decimal_value(s.take(k)),
    decreases s.len(),
{
    if k < s.len() {
        assert(is_decimal(s.drop_last()) || s.drop_last().len() == 0);
        if s.drop_last().len() > 0 {
            lemma_decimal_prefix_bound(s.drop_last(), k);
        }
        assert(s.drop_last().take(k) =~= s.take(k));
        lemma_decimal_nonnegative(s.drop_last());
    } else {
        assert(s.take(k) =~= s);
    }
}

/// The value of a string of digits is never negative.
proof fn lemma_decimal_nonnegative(s: Seq<char>)
    requires
        forall|i: int| 0 <= i < s.len() ==> '0' <= #[trigger] s[i] <= '9',
    ensures
        decimal_value(s) >= 0,
    decreases s.len(),
{
    if s.len() > 0 {
        lemma_decimal_nonnegative(s.drop_last());
    }
}

/// Answers a registration whose revision is still the text of its path
/// segment: a revision that is no unsigned 32-bit number is refused like a
/// wrong one.
pub fn handle_register_path(
    config: &WebwareConfig,
    vendor_hash: &str,
    app_hash: &str,
    secret: &str,
    revision: &str,
) -> (r: ServiceResponse<RegisterResponse>)
    ensures
        revision_of(revision@) matches Some(rev) && register_accepts(
            config.webservices,
            vendor_hash@,
            app_hash@,
            secret@,
            rev,
        ) ==> {
            &&& r.comresult@ == register_ok_result()
            &&& r.body.service_pass matches Some(p)
            &&& p.pass_id@ == config.credentials.service_pass@
            &&& p.app_id@ == config.credentials.application_id@
        },
        !(revision_of(revision@) matches Some(rev) && register_accepts(
            config.webservices,
            vendor_hash@,
            app_hash@,
            secret@,
            rev,
        )) ==> {
            &&& r.comresult@ == register_refused_result()
            &&& r.body.service_pass is None
        },
{
    match parse_revision(revision) {
        Some(rev) => handle_register(config, vendor_hash, app_hash, secret, rev),
        None => RegisterResponse::error(),
    }
}

/// The headers that a deregistration must carry, each where it was sent.
#[derive(Debug)]
pub struct DeregisterHeaders {
    /// `WWSVC-EXECUTE-MODE`.
    pub execute_mode: Option<String>,
    /// `WWSVC-REQID`.
    pub request_id: Option<String>,
    /// `WWSVC-TS`.
    pub timestamp: Option<String>,
    /// `WWSVC-HASH`.
    pub hash: Option<String>,
}

/// How a deregistration ends: at the first check that fails, or with success.
#[derive(Debug, Clone, Copy, PartialEq, Eq, Structural)]
pub enum DeregisterOutcome {
    /// The service pass is not the current one.
    UnknownServicePass,
    /// One of the four headers is missing.
    MissingHeader,
    /// The execute mode is neither `SYNCHRON` nor `ASYNCHRON`.
    UnknownExecuteMode,
    /// The hash is not the expected one.
    WrongHash,
    /// Every check passed.
    Deregistered,
}

/// Whether `m` is a known execute mode.
pub open spec fn is_execute_mode(m: Seq<char>) -> bool {
    m == "SYNCHRON"@ || m == "ASYNCHRON"@
}

/// Whether all four headers were sent.
pub open spec fn headers_present(h: DeregisterHeaders) -> bool {
    &&& h.execute_mode is Some
    &&& h.request_id is Some
    &&& h.timestamp is Some
    &&& h.hash is Some
}

/// The outcome of a deregistration, given the hash it is expected to carry:
/// the checks run in order and the first that fails decides.
pub open spec fn deregister_verdict(
    credentials: CredentialsConfig,
    service_pass: Seq<char>,
    headers: DeregisterHeaders,
    expected_hash: Seq<char>,
) -> DeregisterOutcome {
    if service_pass != credentials.service_pass@ {
        DeregisterOutcome::UnknownServicePass
    } else if !headers_present(headers) {
        DeregisterOutcome::MissingHeader
    } else if !is_execute_mode(headers.execute_mode->0@) {
        DeregisterOutcome::UnknownExecuteMode
    } else if headers.hash->0@ != expected_hash {
        DeregisterOutcome::WrongHash
    } else {
        DeregisterOutcome::Deregistered
    }
}

/// The hash that a deregistration with these headers is expected to carry.
pub open spec fn expected_hash(credentials: CredentialsConfig, headers: DeregisterHeaders) -> Seq<
    char,
> {
    match headers.timestamp {
        Some(ts) => legacy_hash(credentials.application_id@, ts@),
        None => Seq::empty(),
    }
}

/// The outcome of a deregistration.
pub open spec fn deregister_outcome(
    credentials: CredentialsConfig,
    service_pass: Seq<char>,
    headers: DeregisterHeaders,
) -> DeregisterOutcome {
    deregister_verdict(credentials, service_pass, headers, expected_hash(credentials, headers))
}

/// The envelope that reports an outcome: 200 on success; otherwise 404 with
/// one shape for every cause, told apart only by the second info.
pub open spec fn deregister_result(outcome: DeregisterOutcome) -> ComResultModel {
    match outcome {
        DeregisterOutcome::Deregistered => plain_result(200, "200 OK"@, "SERVICEPASS DEREGISTERED"@),
        _ => ComResultModel {
            info2: Some(
                match outcome {
                    DeregisterOutcome::UnknownServicePass => "wwsvc-mock: ServicePass not known"@,
                    DeregisterOutcome::MissingHeader => "wwsvc-mock: Mandatory header missing"@,
                    DeregisterOutcome::UnknownExecuteMode => "wwsvc-mock: Execute mode not known"@,
                    _ => "wwsvc-mock: Hash not correct"@,
                },
            ),
            ..plain_result(404, "404 Resource not found"@, "ERROR ServicePass not known"@)
        },
    }
}

/// Runs the checks of a deregistration against a given expected hash.
pub fn check_deregister(
    credentials: &CredentialsConfig,
    service_pass: &str,
    headers: &DeregisterHeaders,
    expected_hash: &str,
) -> (r: DeregisterOutcome)
    ensures
        r == deregister_verdict(*credentials, service_pass@, *headers, expected_hash@),
{
    if credentials.service_pass != service_pass.to_owned() {
        return DeregisterOutcome::UnknownServicePass;
    }
    let (mode, hash) = match (&headers.execute_mode, &headers.request_id, &headers.timestamp, &headers.hash) {
        (Some(mode), Some(_), Some(_), Some(hash)) => (mode, hash),
        _ => {
            return DeregisterOutcome::MissingHeader;
        },
    };
    if *mode != "SYNCHRON".to_owned() && *mode != "ASYNCHRON".to_owned() {
        return DeregisterOutcome::UnknownExecuteMode;
    }
    if *hash != expected_hash.to_owned() {
        return DeregisterOutcome::WrongHash;
    }
    DeregisterOutcome::Deregistered
}

/// Runs the checks of a deregistration, computing the expected hash from the
/// credentials and the timestamp header.
pub fn verify_deregister(
    credentials: &CredentialsConfig,
    service_pass: &str,
    headers: &DeregisterHeaders,
) -> (r: DeregisterOutcome)
    ensures
        r == deregister_outcome(*credentials, service_pass@, *headers),
{
    let expected = match &headers.timestamp {
        Some(ts) => compute_legacy_hash(credentials.application_id.as_str(), ts.as_str()),
        None => String::new(),
    };
    check_deregister(credentials, service_pass, headers, expected.as_str())
}

/// The answer that reports an outcome of a deregistration.
pub fn deregister_response(outcome: DeregisterOutcome) -> (r: ServiceResponse<()>)
    ensures
        r.comresult@ == deregister_result(outcome),
{
    let comresult = match outcome {
        DeregisterOutcome::Deregistered => ComResult::new(200, "200 OK", "SERVICEPASS DEREGISTERED"),
        _ => {
            let info2 = match outcome {
                DeregisterOutcome::UnknownServicePass => "wwsvc-mock: ServicePass not known",
                DeregisterOutcome::MissingHeader => "wwsvc-mock: Mandatory header missing",
                DeregisterOutcome::UnknownExecuteMode => "wwsvc-mock: Execute mode not known",
                _ => "wwsvc-mock: Hash not correct",
            };
            let mut c = ComResult::new(404, "404 Resource not found", "ERROR ServicePass not known");
            c.info2 = Some(info2.to_owned());
            c
        },
    };
    ServiceResponse { comresult, body: () }
}

/// Answers a deregistration of `service_pass` under the configured credentials.
pub fn handle_deregister(
    config: &WebwareConfig,
    service_pass: &str,
    headers: &DeregisterHeaders,
) -> (r: ServiceResponse<()>)
    ensures
        r.comresult@ == deregister_result(
            deregister_outcome(config.credentials, service_pass@, *headers),
        ),
{
    deregister_response(verify_deregister(&config.credentials, service_pass, headers))
}

/// A deregistration is answered with 200 when the service pass is the current
/// one, all four headers are present, the execute mode is known and the hash
/// is the expected one; a failure of any one of these checks alone is
/// answered with 404.
pub proof fn lemma_deregister_status(
    credentials: CredentialsConfig,
    service_pass: Seq<char>,
    headers: DeregisterHeaders,
    expected_hash: Seq<char>,
)
    ensures
        deregister_result(
            deregister_verdict(credentials, service_pass, headers, expected_hash),
        ).status == if service_pass == credentials.service_pass@ && headers_present(headers)
            && is_execute_mode(headers.execute_mode->0@) && headers.hash->0@ == expected_hash {
            200u32
        } else {
            404u32
        },
{
}

} // verus!
