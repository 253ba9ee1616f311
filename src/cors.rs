//! The CORS policy, the layer that carries it and the service that applies it.
use crate::headers::{
    has_room_for, header_entries, insert_header, is_header_name, is_header_value, lower_text,
    name_text, parse_header_name, parse_header_value, value_bytes,
};
use crate::layer::Layer;
use http::header::{HeaderMap, HeaderName, HeaderValue, InvalidHeaderValue};
use vstd::prelude::*;
use vstd::utf8::{encode_utf8, is_ascii_chars, is_ascii_chars_encode_utf8};

verus! {

/// A CORS policy as plain values: the text of each optional header, and
/// whether credentials are allowed.
pub struct CorsPolicy {
    pub allow_origin: Option<Seq<char>>,
    pub allow_credentials: bool,
    pub allow_methods: Option<Seq<char>>,
    pub allow_headers: Option<Seq<char>>,
}

/// The lower-case name of the `Access-Control-Allow-Origin` header.
pub open spec fn origin_key() -> Seq<char> {
    "access-control-allow-origin"@
}

/// The lower-case name of the `Access-Control-Allow-Methods` header.
pub open spec fn methods_key() -> Seq<char> {
    "access-control-allow-methods"@
}

/// The lower-case name of the `Access-Control-Allow-Headers` header.
pub open spec fn headers_key() -> Seq<char> {
    "access-control-allow-headers"@
}

/// The lower-case name of the `Access-Control-Allow-Credentials` header.
pub open spec fn credentials_key() -> Seq<char> {
    "access-control-allow-credentials"@
}

/// The text of the credentials header: `true` or `false`.
pub open spec fn credentials_text(allow: bool) -> Seq<char> {
    if allow {
        "true"@
    } else {
        "false"@
    }
}

/// The text of an optional setting.
pub open spec fn setting_text(v: Option<String>) -> Option<Seq<char>> {
    match v {
        Some(s) => Some(s@),
        None => None,
    }
}

/// The bytes that an optional setting is sent as.
pub open spec fn setting_bytes(v: Option<Seq<char>>) -> Option<Seq<u8>> {
    match v {
        Some(s) => Some(encode_utf8(s)),
        None => None,
    }
}

/// A configured value that can be sent as a header value.
pub open spec fn is_valid_setting(v: Option<Seq<char>>) -> bool {
    setting_bytes(v) matches Some(b) ==> is_header_value(b)
}

/// A policy all of whose configured values can be sent as header values.
pub open spec fn is_valid_policy(p: CorsPolicy) -> bool {
    &&& is_valid_setting(p.allow_origin)
    &&& is_valid_setting(p.allow_methods)
    &&& is_valid_setting(p.allow_headers)
}

/// Header entries with `key` set to the one value `v`, where there is one.
pub open spec fn set_if_configured(
    m: Map<Seq<char>, Seq<Seq<u8>>>,
    key: Seq<char>,
    v: Option<Seq<u8>>,
) -> Map<Seq<char>, Seq<Seq<u8>>> {
    match v {
        Some(b) => m.insert(key, seq![b]),
        None => m,
    }
}

/// The header entries of a response after the policy is applied to it: the
/// configured headers and the credentials header each hold their one value,
/// and every other header is as the inner service left it.
pub open spec fn decorated(p: CorsPolicy, m: Map<Seq<char>, Seq<Seq<u8>>>) -> Map<
    Seq<char>,
    Seq<Seq<u8>>,
> {
    let with_origin = set_if_configured(m, origin_key(), setting_bytes(p.allow_origin));
    let with_methods = set_if_configured(with_origin, methods_key(), setting_bytes(p.allow_methods));
    let with_headers = set_if_configured(with_methods, headers_key(), setting_bytes(p.allow_headers));
    with_headers.insert(credentials_key(), seq![encode_utf8(credentials_text(p.allow_credentials))])
}

/// Why a policy could not be applied to a response.
#[derive(Debug, Clone, Copy, PartialEq, Eq, Structural)]
pub enum CorsError {
    /// A configured value holds a byte that no header value may hold.
    InvalidHeaderValue,
}

impl CorsError {
    fn from_invalid_value(_e: InvalidHeaderValue) -> (r: CorsError)
        ensures
            r == CorsError::InvalidHeaderValue,
    {
        CorsError::InvalidHeaderValue
    }
}

/// A layer that adds CORS headers to every response of the service it wraps.
#[derive(Clone)]
pub struct CorsLayer {
    allow_origin: Option<String>,
    allow_credentials: bool,
    allow_methods: Option<String>,
    allow_headers: Option<String>,
}

impl View for CorsLayer {
    type V = CorsPolicy;

    closed spec fn view(&self) -> CorsPolicy {
        CorsPolicy {
            allow_origin: setting_text(self.allow_origin),
            allow_credentials: self.allow_credentials,
            allow_methods: setting_text(self.allow_methods),
            allow_headers: setting_text(self.allow_headers),
        }
    }
}

impl CorsLayer {
    /// A layer with the given policy. The values are not checked here; one
    /// that no header may hold makes every response fail.
    pub fn new(
        allow_origin: Option<String>,
        allow_credentials: bool,
        allow_methods: Option<String>,
        allow_headers: Option<String>,
    ) -> (r: Self)
        ensures
            r@ == (CorsPolicy {
                allow_origin: setting_text(allow_origin),
                allow_credentials,
                allow_methods: setting_text(allow_methods),
                allow_headers: setting_text(allow_headers),
            }),
    {
        CorsLayer { allow_origin, allow_credentials, allow_methods, allow_headers }
    }
}

impl<S> Layer<S> for CorsLayer {
    type Service = CorsLayerService<S>;

    fn layer(self, inner: S) -> (r: CorsLayerService<S>)
        ensures
            r@ == self@,
            r.inner_service() == inner,
    {
        CorsLayerService {
            inner,
            allow_origin: self.allow_origin,
            allow_credentials: self.allow_credentials,
            allow_methods: self.allow_methods,
            allow_headers: self.allow_headers,
        }
    }
}

/// A service that passes each request to its inner service and sets the
/// CORS headers of the response that comes back.
pub struct CorsLayerService<S> {
    inner: S,
    allow_origin: Option<String>,
    allow_credentials: bool,
    allow_methods: Option<String>,
    allow_headers: Option<String>,
}

impl<S> View for CorsLayerService<S> {
    type V = CorsPolicy;

    closed spec fn view(&self) -> CorsPolicy {
        CorsPolicy {
            allow_origin: setting_text(self.allow_origin),
            allow_credentials: self.allow_credentials,
            allow_methods: setting_text(self.allow_methods),
            allow_headers: setting_text(self.allow_headers),
        }
    }
}

proof fn lemma_cors_names()
    ensures
        is_header_name("Access-Control-Allow-Origin"@),
        lower_text("Access-Control-Allow-Origin"@) == origin_key(),
        is_header_name("Access-Control-Allow-Methods"@),
        lower_text("Access-Control-Allow-Methods"@) == methods_key(),
        is_header_name("Access-Control-Allow-Headers"@),
        lower_text("Access-Control-Allow-Headers"@) == headers_key(),
        is_header_name("Access-Control-Allow-Credentials"@),
        lower_text("Access-Control-Allow-Credentials"@) == credentials_key(),
{
    reveal_strlit("Access-Control-Allow-Origin");
    reveal_strlit("access-control-allow-origin");
    assert(lower_text("Access-Control-Allow-Origin"@) =~= origin_key());
    reveal_strlit("Access-Control-Allow-Methods");
    reveal_strlit("access-control-allow-methods");
    assert(lower_text("Access-Control-Allow-Methods"@) =~= methods_key());
    reveal_strlit("Access-Control-Allow-Headers");
    reveal_strlit("access-control-allow-headers");
    assert(lower_text("Access-Control-Allow-Headers"@) =~= headers_key());
    reveal_strlit("Access-Control-Allow-Credentials");
    reveal_strlit("access-control-allow-credentials");
    assert(lower_text("Access-Control-Allow-Credentials"@) =~= credentials_key());
}

proof fn lemma_credentials_texts(allow: bool)
    ensures
        is_header_value(encode_utf8(credentials_text(allow))),
{
    reveal_strlit("true");
    reveal_strlit("false");
    let text = credentials_text(allow);
    assert(is_ascii_chars(text));
    is_ascii_chars_encode_utf8(text);
}

/// A header name from text known to be one.
fn header_name(s: &str) -> (n: HeaderName)
    requires
        is_header_name(s@),
    ensures
        name_text(n) == lower_text(s@),
{
    parse_header_name(s).unwrap()
}

/// The header value of a configured setting, if there is one.
fn setting_value(v: &Option<String>) -> (r: Result<Option<HeaderValue>, CorsError>)
    ensures
        r is Ok <==> is_valid_setting(setting_text(*v)),
        r matches Ok(o) ==> value_option_bytes(o) == setting_bytes(setting_text(*v)),
        r matches Err(e) ==> e == CorsError::InvalidHeaderValue,
{
    match v {
        Some(s) => match parse_header_value(s.as_str()) {
            Ok(hv) => Ok(Some(hv)),
            Err(e) => Err(CorsError::from_invalid_value(e)),
        },
        None => Ok(None),
    }
}

/// The bytes of an optional header value.
pub open spec fn value_option_bytes(v: Option<HeaderValue>) -> Option<Seq<u8>> {
    match v {
        Some(hv) => Some(value_bytes(hv)),
        None => None,
    }
}

/// Sets `name` to `value` where there is a value.
fn set_configured(
    headers: &mut HeaderMap,
    name: &str,
    value: Option<HeaderValue>,
    room: Ghost<nat>,
)
    requires
        is_header_name(name@),
        has_room_for(*old(headers), room@ + 1),
    ensures
        has_room_for(*final(headers), room@),
        header_entries(*final(headers)) == set_if_configured(
            header_entries(*old(headers)),
            lower_text(name@),
            value_option_bytes(value),
        ),
{
    if let Some(hv) = value {
        insert_header(headers, header_name(name), hv);
    }
}

impl<S> CorsLayerService<S> {
    /// The service whose responses this one decorates.
    pub closed spec fn inner_service(&self) -> S {
        self.inner
    }

    /// The service whose responses this one decorates.
    pub fn inner(&self) -> (r: &S)
        ensures
            *r == self.inner_service(),
    {
        &self.inner
    }

    /// Sets the CORS headers of a response that the inner service produced.
    ///
    /// Each of the origin, methods and headers settings that is configured
    /// replaces whatever the response held under that name; the credentials
    /// header is always set, to `true` or `false`. Every other header stays
    /// as it was. Where a configured value holds a byte that no header value
    /// may hold, nothing is changed and the error is returned.
    pub fn apply_headers(&self, headers: &mut HeaderMap) -> (r: Result<(), CorsError>)
        requires
            has_room_for(*old(headers), 4),
        ensures
            r is Ok <==> is_valid_policy(self@),
            r is Ok ==> header_entries(*final(headers)) == decorated(
                self@,
                header_entries(*old(headers)),
            ),
            r matches Err(e) ==> e == CorsError::InvalidHeaderValue && *final(headers) == *old(
                headers,
            ),
    {
        let origin = match setting_value(&self.allow_origin) {
            Ok(v) => v,
            Err(e) => return Err(e),
        };
        let methods = match setting_value(&self.allow_methods) {
            Ok(v) => v,
            Err(e) => return Err(e),
        };
        let allowed_headers = match setting_value(&self.allow_headers) {
            Ok(v) => v,
            Err(e) => return Err(e),
        };
        let credentials = if self.allow_credentials {
            "true"
        } else {
            "false"
        };
        proof {
            lemma_credentials_texts(self.allow_credentials);
            lemma_cors_names();
        }
        let credentials = parse_header_value(credentials).unwrap();
        set_configured(headers, "Access-Control-Allow-Origin", origin, Ghost(3));
        set_configured(headers, "Access-Control-Allow-Methods", methods, Ghost(2));
        set_configured(headers, "Access-Control-Allow-Headers", allowed_headers, Ghost(1));
        insert_header(headers, header_name("Access-Control-Allow-Credentials"), credentials);
        Ok(())
    }
}

/// The response holds under `k` just what the inner service left there.
pub open spec fn same_entry(
    after: Map<Seq<char>, Seq<Seq<u8>>>,
    before: Map<Seq<char>, Seq<Seq<u8>>>,
    k: Seq<char>,
) -> bool {
    &&& after.contains_key(k) <==> before.contains_key(k)
    &&& before.contains_key(k) ==> after[k] == before[k]
}

/// One of the four header names that a policy governs.
pub open spec fn is_cors_key(k: Seq<char>) -> bool {
    k == origin_key() || k == methods_key() || k == headers_key() || k == credentials_key()
}

proof fn lemma_keys_distinct()
    ensures
        origin_key() != methods_key(),
        origin_key() != headers_key(),
        origin_key() != credentials_key(),
        methods_key() != headers_key(),
        methods_key() != credentials_key(),
        headers_key() != credentials_key(),
{
    reveal_strlit("access-control-allow-origin");
    reveal_strlit("access-control-allow-methods");
    reveal_strlit("access-control-allow-headers");
    reveal_strlit("access-control-allow-credentials");
    // The four names part right after `access-control-allow-`.
    assert(origin_key()[21] == 'o');
    assert(methods_key()[21] == 'm');
    assert(headers_key()[21] == 'h');
    assert(credentials_key()[21] == 'c');
}

/// A header whose setting is absent is left as the inner service left it:
/// the policy never adds it, so a response that lacked it still lacks it.
pub proof fn lemma_unconfigured_header_untouched(p: CorsPolicy, m: Map<Seq<char>, Seq<Seq<u8>>>)
    ensures
        p.allow_origin is None ==> same_entry(decorated(p, m), m, origin_key()),
        p.allow_methods is None ==> same_entry(decorated(p, m), m, methods_key()),
        p.allow_headers is None ==> same_entry(decorated(p, m), m, headers_key()),
        p.allow_origin is None && !m.contains_key(origin_key()) ==> !decorated(
            p,
            m,
        ).contains_key(origin_key()),
        p.allow_methods is None && !m.contains_key(methods_key()) ==> !decorated(
            p,
            m,
        ).contains_key(methods_key()),
        p.allow_headers is None && !m.contains_key(headers_key()) ==> !decorated(
            p,
            m,
        ).contains_key(headers_key()),
{
    lemma_keys_distinct();
}

/// Whatever the policy and the inner response, the credentials header holds
/// exactly one value, `true` or `false` as configured.
pub proof fn lemma_credentials_always_set(p: CorsPolicy, m: Map<Seq<char>, Seq<Seq<u8>>>)
    ensures
        decorated(p, m).contains_key(credentials_key()),
        decorated(p, m)[credentials_key()].len() == 1,
        decorated(p, m)[credentials_key()][0] == encode_utf8(credentials_text(p.allow_credentials)),
{
}

/// A configured value replaces whatever the inner service set under the
/// same name: afterwards the header holds that value alone.
pub proof fn lemma_configured_value_wins(p: CorsPolicy, m: Map<Seq<char>, Seq<Seq<u8>>>)
    ensures
        p.allow_origin matches Some(o) ==> decorated(p, m).contains_key(origin_key())
            && decorated(p, m)[origin_key()] == seq![encode_utf8(o)],
        p.allow_methods matches Some(v) ==> decorated(p, m).contains_key(methods_key())
            && decorated(p, m)[methods_key()] == seq![encode_utf8(v)],
        p.allow_headers matches Some(v) ==> decorated(p, m).contains_key(headers_key())
            && decorated(p, m)[headers_key()] == seq![encode_utf8(v)],
{
    lemma_keys_distinct();
}

/// Headers that the policy does not govern are left as they were.
pub proof fn lemma_other_headers_untouched(
    p: CorsPolicy,
    m: Map<Seq<char>, Seq<Seq<u8>>>,
    k: Seq<char>,
)
    requires
        !is_cors_key(k),
    ensures
        same_entry(decorated(p, m), m, k),
{
}

/// Two responses that agree on the four CORS headers before decoration
/// agree on them after it; in particular two calls over the same inner
/// response give the same CORS headers.
pub proof fn lemma_same_cors_headers(
    p: CorsPolicy,
    m1: Map<Seq<char>, Seq<Seq<u8>>>,
    m2: Map<Seq<char>, Seq<Seq<u8>>>,
)
    requires
        same_entry(m1, m2, origin_key()),
        same_entry(m1, m2, methods_key()),
        same_entry(m1, m2, headers_key()),
    ensures
        same_entry(decorated(p, m1), decorated(p, m2), origin_key()),
        same_entry(decorated(p, m1), decorated(p, m2), methods_key()),
        same_entry(decorated(p, m1), decorated(p, m2), headers_key()),
        same_entry(decorated(p, m1), decorated(p, m2), credentials_key()),
{
    lemma_keys_distinct();
}

/// Decorating a response that is already decorated with the same policy
/// changes nothing.
pub proof fn lemma_decoration_idempotent(p: CorsPolicy, m: Map<Seq<char>, Seq<Seq<u8>>>)
    ensures
        decorated(p, decorated(p, m)) == decorated(p, m),
{
    lemma_keys_distinct();
    assert(decorated(p, decorated(p, m)) =~= decorated(p, m));
}

} // verus!
