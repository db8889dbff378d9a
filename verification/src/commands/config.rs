//! The address of the backend service: how a typed address is validated and
//! brought to its canonical form, how it is kept in the settings store, and
//! how a health probe against it is prepared and judged.

use crate::text::{
    chars_of, decimal, decimal_string, is_space, leading_space_end, lemma_leading_before_push,
    lemma_leading_keeps_end, lemma_strip_trailing_twice, skip_leading_space,
    skip_trailing_space, starts_with, strip_trailing, trailing_run_start, trailing_space_start,
    trimmed,
};
use vstd::prelude::*;
use vstd::string::*;

verus! {

/// Why a typed address is not accepted.
#[derive(Clone, Copy, Debug, PartialEq, Eq)]
pub enum ValidationError {
    /// Nothing is left once white space is trimmed away.
    EmptyAddress,
    /// The address starts with neither `http://` nor `https://`.
    UnsupportedScheme,
}

/// Why a configuration command failed.
#[derive(Debug, PartialEq, Eq)]
pub enum ConfigError {
    /// The address was not accepted.
    Validation(ValidationError),
    /// The settings store could not be read, written or saved; the text is
    /// the store's own account of it.
    Persist(String),
}

/// What a health probe found.
#[derive(Debug, PartialEq, Eq)]
pub struct BackendTestResult {
    /// Whether the service answered with a status in the 2xx range.
    pub ok: bool,
    /// The status code of the answer, where there was one.
    pub status: Option<u16>,
    /// A note for the user where `ok` is false.
    pub message: Option<String>,
}

/// What the settings store holds under a key.
#[derive(Debug, PartialEq, Eq)]
pub enum StoredValue {
    /// A string.
    Text(String),
    /// Any value that is not a string.
    Other,
}

/// The part of the settings store that these commands read and write: the
/// entry under the key `backend_url`.
#[derive(Debug, PartialEq, Eq)]
pub struct ConfigStore {
    /// The entry, or `None` while nothing has been stored.
    pub backend_url: Option<StoredValue>,
}

/// The single request of a health probe.
#[derive(Debug, PartialEq, Eq)]
pub struct ProbeRequest {
    /// Where the GET goes.
    pub url: String,
    /// After how many seconds the request is given up.
    pub timeout_secs: u64,
}

/// How the single request of a health probe ended.
#[derive(Debug, PartialEq, Eq)]
pub enum ProbeOutcome {
    /// A response arrived, with this status code.
    Status(u16),
    /// No response arrived; the text names the cause.
    TransportFailure(String),
}

/// The address used while the store holds none.
pub open spec fn default_backend_url() -> Seq<char> {
    "http://192.168.50.50:5000"@
}

/// The path of the health endpoint, appended to the address.
pub open spec fn health_suffix() -> Seq<char> {
    "/health"@
}

/// The seconds a health probe may take.
pub open spec fn probe_timeout_secs() -> u64 {
    5
}

/// Whether `s` starts with one of the two accepted schemes.
pub open spec fn has_http_scheme(s: Seq<char>) -> bool {
    "http://"@.is_prefix_of(s) || "https://"@.is_prefix_of(s)
}

/// The canonical form of the typed address `raw`, or why it has none. White
/// space around it is dropped first; an accepted address then loses every
/// trailing `/`.
pub open spec fn normalized(raw: Seq<char>) -> Result<Seq<char>, ValidationError> {
    let t = trimmed(raw);
    if t.len() == 0 {
        Err(ValidationError::EmptyAddress)
    } else if !has_http_scheme(t) {
        Err(ValidationError::UnsupportedScheme)
    } else {
        Ok(strip_trailing(t, '/'))
    }
}

/// Whether `res` is `outcome` with its text taken by view.
pub open spec fn agrees(
    res: Result<String, ValidationError>,
    outcome: Result<Seq<char>, ValidationError>,
) -> bool {
    match res {
        Ok(a) => outcome == Ok::<Seq<char>, ValidationError>(a@),
        Err(e) => outcome == Err::<Seq<char>, ValidationError>(e),
    }
}

impl ValidationError {
    /// The text shown to the user.
    pub open spec fn message_text(self) -> Seq<char> {
        match self {
            ValidationError::EmptyAddress => "后端地址不能为空"@,
            ValidationError::UnsupportedScheme => "仅支持 http:// 或 https:// 开头的地址"@,
        }
    }

    /// The text shown to the user.
    pub fn message(&self) -> (s: String)
        ensures
            s@ == self.message_text(),
    {
        match self {
            ValidationError::EmptyAddress => String::from_str("后端地址不能为空"),
            ValidationError::UnsupportedScheme => String::from_str(
                "仅支持 http:// 或 https:// 开头的地址",
            ),
        }
    }
}

impl ConfigError {
    /// The text shown to the user.
    pub open spec fn message_text(self) -> Seq<char> {
        match self {
            ConfigError::Validation(e) => e.message_text(),
            ConfigError::Persist(cause) => cause@,
        }
    }

    /// The text shown to the user: the validation message, or the store's
    /// account as it came.
    pub fn message(&self) -> (s: String)
        ensures
            s@ == self.message_text(),
    {
        match self {
            ConfigError::Validation(e) => e.message(),
            ConfigError::Persist(cause) => cause.clone(),
        }
    }
}

/// Validates a typed backend address and brings it to its canonical form.
///
/// An address that is empty once trimmed is refused as `EmptyAddress`, one
/// that starts with neither scheme as `UnsupportedScheme`, and nothing else
/// is refused.
pub fn normalize_backend_url(raw: &str) -> (res: Result<String, ValidationError>)
    ensures
        agrees(res, normalized(raw@)),
        trimmed(raw@).len() == 0 <==> res == Err::<String, ValidationError>(
            ValidationError::EmptyAddress,
        ),
        trimmed(raw@).len() > 0 && !has_http_scheme(trimmed(raw@)) <==> res == Err::<
            String,
            ValidationError,
        >(ValidationError::UnsupportedScheme),
        res matches Ok(a) ==> a@ == strip_trailing(trimmed(raw@), '/'),
{
    let chars = chars_of(raw);
    let start = leading_space_end(&chars);
    let end = trailing_space_start(&chars, start, chars.len());
    if start == end {
        return Err(ValidationError::EmptyAddress);
    }
    let plain = chars_of("http://");
    let secure = chars_of("https://");
    if !starts_with(&chars, start, end, &plain) && !starts_with(&chars, start, end, &secure) {
        return Err(ValidationError::UnsupportedScheme);
    }
    let stop = trailing_run_start(&chars, start, end, '/');
    Ok(String::from_str(raw.substring_char(start, stop)))
}

impl ConfigStore {
    /// A store in which nothing has been stored yet.
    pub fn new() -> (store: ConfigStore)
        ensures
            store.backend_url is None,
            store.address() == default_backend_url(),
    {
        ConfigStore { backend_url: None }
    }

    /// The backend address that the store stands for: the stored string, or
    /// the default while the entry is absent or not a string.
    pub open spec fn address(&self) -> Seq<char> {
        match self.backend_url {
            Some(StoredValue::Text(url)) => url@,
            _ => default_backend_url(),
        }
    }
}

/// The backend address in use: the stored one, or the default where the
/// entry is absent or not a string.
pub fn get_backend_url(store: &ConfigStore) -> (url: String)
    ensures
        url@ == store.address(),
{
    match &store.backend_url {
        Some(StoredValue::Text(url)) => url.clone(),
        _ => String::from_str("http://192.168.50.50:5000"),
    }
}

/// Stores the canonical form of `url` as the backend address. An address
/// that is not accepted leaves the store as it was.
pub fn set_backend_url(store: &mut ConfigStore, url: &str) -> (res: Result<(), ValidationError>)
    ensures
        match normalized(url@) {
            Ok(address) => {
                &&& res is Ok
                &&& final(store).backend_url matches Some(StoredValue::Text(kept))
                &&& kept@ == address
                &&& final(store).address() == address
            },
            Err(e) => res == Err::<(), ValidationError>(e) && *final(store) == *old(store),
        },
{
    match normalize_backend_url(url) {
        Ok(address) => {
            store.backend_url = Some(StoredValue::Text(address));
            Ok(())
        },
        Err(e) => Err(e),
    }
}

/// Whether `code` is a status of the 2xx range.
pub open spec fn is_success_status(code: u16) -> bool {
    200 <= code < 300
}

/// The note shown for an answer outside the 2xx range.
pub open spec fn status_note(code: u16) -> Seq<char> {
    "服务返回状态码 "@ + decimal(code as nat)
}

/// The note shown where no answer arrived.
pub open spec fn failure_note(cause: Seq<char>) -> Seq<char> {
    "connection failed: "@ + cause
}

/// Whether `req` is the health probe of the canonical address `address`.
pub open spec fn is_health_request(req: ProbeRequest, address: Seq<char>) -> bool {
    &&& req.url@ == address + health_suffix()
    &&& req.timeout_secs == probe_timeout_secs()
}

/// Whether `result` is the report owed for `outcome`.
pub open spec fn reports(result: BackendTestResult, outcome: ProbeOutcome) -> bool {
    match outcome {
        ProbeOutcome::Status(code) => {
            &&& result.ok == is_success_status(code)
            &&& result.status == Some(code)
            &&& match result.message {
                Some(note) => !result.ok && note@ == status_note(code),
                None => result.ok,
            }
        },
        ProbeOutcome::TransportFailure(cause) => {
            &&& !result.ok
            &&& result.status is None
            &&& result.message matches Some(note)
            &&& note@ == failure_note(cause@)
        },
    }
}

/// The request that probes the typed address `url`: one GET of the health
/// endpoint below its canonical form, given up after five seconds. An
/// address that is not accepted yields no request.
pub fn health_check_request(url: &str) -> (res: Result<ProbeRequest, ValidationError>)
    ensures
        match normalized(url@) {
            Ok(address) => {
                &&& res matches Ok(req)
                &&& is_health_request(req, address)
            },
            Err(e) => res == Err::<ProbeRequest, ValidationError>(e),
        },
{
    match normalize_backend_url(url) {
        Ok(address) => Ok(ProbeRequest { url: address.concat("/health"), timeout_secs: 5 }),
        Err(e) => Err(e),
    }
}

/// The report for a probe that ended in `outcome`. A missing answer is
/// reported as data, like an answer outside the 2xx range.
pub fn probe_report(outcome: ProbeOutcome) -> (result: BackendTestResult)
    ensures
        reports(result, outcome),
{
    match outcome {
        ProbeOutcome::Status(code) => {
            if 200 <= code && code < 300 {
                BackendTestResult { ok: true, status: Some(code), message: None }
            } else {
                let note = String::from_str("服务返回状态码 ").concat(
                    decimal_string(code).as_str(),
                );
                BackendTestResult { ok: false, status: Some(code), message: Some(note) }
            }
        },
        ProbeOutcome::TransportFailure(cause) => {
            let note = String::from_str("connection failed: ").concat(cause.as_str());
            BackendTestResult { ok: false, status: None, message: Some(note) }
        },
    }
}

/// Probes the typed address `url` through `fetch`, which performs the one
/// request and says how it ended. An address that is not accepted is refused
/// before anything is fetched.
pub fn test_backend_connection<F: FnOnce(ProbeRequest) -> ProbeOutcome>(url: &str, fetch: F) -> (res:
    Result<BackendTestResult, ValidationError>)
    requires
        forall|req: ProbeRequest|
            normalized(url@) matches Ok(address) && is_health_request(req, address)
                ==> #[trigger] fetch.requires((req,)),
    ensures
        match normalized(url@) {
            Ok(address) => {
                &&& res matches Ok(result)
                &&& exists|req: ProbeRequest, outcome: ProbeOutcome|
                    {
                        &&& is_health_request(req, address)
                        &&& #[trigger] fetch.ensures((req,), outcome)
                        &&& reports(result, outcome)
                    }
            },
            Err(e) => res == Err::<BackendTestResult, ValidationError>(e),
        },
{
    match health_check_request(url) {
        Ok(req) => {
            let ghost sent = req;
            let outcome = fetch(req);
            let ghost got = outcome;
            let result = probe_report(outcome);
            proof {
                assert(fetch.ensures((sent,), got) && reports(result, got));
            }
            Ok(result)
        },
        Err(e) => Err(e),
    }
}

/// An address that `normalize_backend_url` accepts and that does not end in
/// white space has the same canonical form with one more `/` behind it.
pub proof fn lemma_trailing_slash_ignored(a: Seq<char>)
    requires
        normalized(a) is Ok,
        a.len() > 0 ==> !is_space(a.last()),
    ensures
        normalized(a + seq!['/']) == normalized(a),
{
    let lead = skip_leading_space(a);
    lemma_leading_keeps_end(a);
    lemma_leading_before_push(a, '/');
    assert(a + seq!['/'] =~= a.push('/'));
    assert(skip_leading_space(a.push('/')) == lead.push('/'));
    assert(trimmed(a) == lead);
    assert(lead.push('/').drop_last() =~= lead);
    assert(trimmed(a.push('/')) == lead.push('/'));
    reveal_strlit("http://");
    reveal_strlit("https://");
    let grown = lead.push('/');
    if "http://"@.is_prefix_of(lead) {
        assert(grown.subrange(0, "http://"@.len() as int) =~= lead.subrange(
            0,
            "http://"@.len() as int,
        ));
    } else {
        assert(grown.subrange(0, "https://"@.len() as int) =~= lead.subrange(
            0,
            "https://"@.len() as int,
        ));
    }
    assert(has_http_scheme(grown));
    assert(strip_trailing(grown, '/') == strip_trailing(lead, '/'));
}

/// The canonical form of an accepted address is its own canonical form,
/// where it still starts with a scheme and does not end in white space.
pub proof fn lemma_normalize_idempotent(a: Seq<char>)
    requires
        normalized(a) is Ok,
        has_http_scheme(normalized(a)->Ok_0),
        normalized(a)->Ok_0.len() > 0 ==> !is_space(normalized(a)->Ok_0.last()),
    ensures
        normalized(normalized(a)->Ok_0) == normalized(a),
{
    let n = normalized(a)->Ok_0;
    lemma_strip_trailing_twice(trimmed(a), '/');
    lemma_canonical_is_fixed(n);
}

/// A text that starts with a scheme, ends neither in white space nor in `/`
/// is its own canonical form.
pub proof fn lemma_canonical_is_fixed(n: Seq<char>)
    requires
        has_http_scheme(n),
        n.len() > 0 ==> !is_space(n.last()),
        strip_trailing(n, '/') == n,
    ensures
        normalized(n) == Ok::<Seq<char>, ValidationError>(n),
{
    reveal_strlit("http://");
    reveal_strlit("https://");
    if "http://"@.is_prefix_of(n) {
        assert(n.subrange(0, "http://"@.len() as int)[0] == 'h');
    } else {
        assert(n.subrange(0, "https://"@.len() as int)[0] == 'h');
    }
    assert(n.len() > 0 && n[0] == 'h');
    assert(skip_leading_space(n) == n);
    assert(skip_trailing_space(n) == n);
}

} // verus!
