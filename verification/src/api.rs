//! Requests to the directory of applications of the identity provider: how
//! one is put together, and how its answer is taken.

use crate::auth0::App;
use crate::auth0::AppView;
use crate::auth0::Apps;
use crate::auth0::AuthN;
use crate::auth0::AuthNView;
use crate::auth0::AuthToken;
use crate::json::as_items;
use crate::json::each_json_of;
use crate::json::is_null;
use crate::json::json_of;
use crate::json::keys;
use crate::json::member;
use crate::json::optional_list;
use crate::json::optional_table;
use crate::json::optional_text;
use crate::json::parse;
use crate::json::parsed;
use crate::json::present;
use crate::json::read_list;
use crate::json::read_required_list;
use crate::json::read_required_table;
use crate::json::read_required_text;
use crate::json::read_table;
use crate::json::read_text;
use crate::json::required_list;
use crate::json::required_table;
use crate::json::required_text;
use crate::json::Json;
use crate::text::concat;
use crate::text::same_text;
use crate::text::split;
use crate::text::split_on;
use crate::text::strip_suffixes;
use crate::text::without_suffixes;
use vstd::prelude::*;
use vstd::string::StringSliceAdditionalSpecFns;
use vstd::utf8::encode_utf8;

verus! {

/// The methods of HTTP that a request is sent with.
#[derive(Clone, Copy, Debug, PartialEq, Eq, Structural)]
pub enum Method {
    Get,
    Post,
    Put,
    Patch,
    Delete,
}

/// What is wrong with a request, or with the answer to it.
#[derive(Debug, PartialEq, Eq)]
pub enum ApiFault {
    /// The client has no token to authorize the request with.
    MissingToken,
    /// The client has no base URL.
    MissingBaseUrl,
    /// The base URL is no URL.
    BadBaseUrl,
    /// The base URL is one that no path can be added to.
    NoPathSegments,
    /// The URL would grow past what a URL can be: its places are counted
    /// in 32 bits.
    TooLong,
    /// The request has no URL yet.
    MissingUrl,
    /// The URL of the request is no URL.
    BadUrl,
    /// The request has no method.
    MissingMethod,
    /// The provider does not accept the token: log in again.
    Unauthorized,
    /// The provider answered with this status and body.
    Status { status: u16, body: String },
}

/// A client of the directory of applications.
#[derive(Debug, PartialEq, Eq)]
pub struct Client {
    base_url: Option<String>,
    token: Option<String>,
}

/// What a [`Client`] holds.
pub struct ClientView {
    pub base_url: Option<Seq<char>>,
    pub token: Option<Seq<char>>,
}

impl View for Client {
    type V = ClientView;

    closed spec fn view(&self) -> ClientView {
        ClientView { base_url: self.base_url.deep_view(), token: self.token.deep_view() }
    }
}

impl Clone for Client {
    fn clone(&self) -> (r: Client)
        ensures
            r@ == self@,
    {
        Client { base_url: self.base_url.clone(), token: self.token.clone() }
    }
}

/// A request in the making.
#[derive(Debug, PartialEq, Eq)]
pub struct Request {
    client: Client,
    authorization: Option<String>,
    url: Option<String>,
    method: Option<Method>,
    payload: Option<String>,
    allow_conflict: Option<bool>,
}

/// What a [`Request`] holds.
pub struct RequestParts {
    pub client: ClientView,
    pub authorization: Option<Seq<char>>,
    pub url: Option<Seq<char>>,
    pub method: Option<Method>,
    /// The JSON to send.
    pub payload: Option<Seq<char>>,
    /// Whether a conflict counts as "nothing to do".
    pub allow_conflict: Option<bool>,
}

impl View for Request {
    type V = RequestParts;

    closed spec fn view(&self) -> RequestParts {
        RequestParts {
            client: self.client@,
            authorization: self.authorization.deep_view(),
            url: self.url.deep_view(),
            method: self.method,
            payload: self.payload.deep_view(),
            allow_conflict: self.allow_conflict,
        }
    }
}

/// The URL `base` with `segments` added to its path, as the crate `url`
/// writes it: the outer `None` says that `base` is no URL, the inner one
/// that no path can be added to it.
pub uninterp spec fn url_with_segments(base: Seq<char>, segments: Seq<Seq<char>>) -> Option<
    Option<Seq<char>>,
>;

/// The URL `url` with the pair of `key` and `value` added to its query, as
/// the crate `url` writes it; nothing where `url` is no URL.
pub uninterp spec fn url_with_query(url: Seq<char>, key: Seq<char>, value: Seq<char>) -> Option<
    Seq<char>,
>;

/// The length in bytes of the URL that the crate `url` reads from `text`,
/// as it writes it; nothing where `text` is no URL.
pub uninterp spec fn url_length(text: Seq<char>) -> Option<usize>;

/// The length of a text in bytes.
pub open spec fn byte_length(text: Seq<char>) -> nat {
    encode_utf8(text).len()
}

/// The bytes by which segments can lengthen a URL at most: for each
/// segment a slash before it and one after a drive letter, and three bytes
/// for each of its own, which is what an escaped byte takes.
pub open spec fn segments_room(segments: Seq<Seq<char>>) -> nat
    decreases segments.len(),
{
    if segments.len() == 0 {
        0
    } else {
        segments_room(segments.drop_last()) + 3 * byte_length(segments.last()) + 2
    }
}

/// Whether a URL of `length` bytes stays countable in 32 bits when the
/// segments are added to its path.
pub open spec fn segments_fit(length: usize, segments: Seq<Seq<char>>) -> bool {
    length + segments_room(segments) < u32::MAX
}

/// Whether a URL of `length` bytes stays countable in 32 bits when a pair
/// is added to its query: the pair takes a question mark or an ampersand,
/// the equals sign, and at most three bytes for each of its own.
pub open spec fn pair_fits(length: usize, key: Seq<char>, value: Seq<char>) -> bool {
    length + 3 * (byte_length(key) + byte_length(value)) + 3 < u32::MAX
}

/// `url::Url::parse` reads the text as a URL, and `Url::as_str` hands out
/// the URL as it is written.
#[verifier::external_body]
fn length_of_url(text: &str) -> (r: Option<usize>)
    ensures
        r == url_length(text@),
{
    url::Url::parse(text).ok().map(|u| u.as_str().len())
}

/// `url::Url::parse` reads the base, `Url::path_segments_mut` opens its
/// path, which fails for a URL that cannot be a base, and
/// `PathSegmentsMut::extend` adds the segments. The crate counts the places
/// in a URL in 32 bits and gives up where one does not fit, so the URL has
/// to stay below that with the segments added.
#[verifier::external_body]
fn extend_url(base: &str, segments: &Vec<String>) -> (r: Option<Option<String>>)
    requires
        url_length(base@) matches Some(length) ==> segments_fit(length, segments.deep_view()),
    ensures
        r.deep_view() == url_with_segments(base@, segments.deep_view()),
{
    let mut url = url::Url::parse(base).ok()?;
    match url.path_segments_mut() {
        Ok(mut path) => {
            path.extend(segments);
        },
        Err(_) => return Some(None),
    }
    Some(Some(url.to_string()))
}

/// `url::Url::parse` reads the URL, and `Serializer::append_pair` on
/// `Url::query_pairs_mut` adds the pair to its query. The crate counts the
/// places in a URL in 32 bits and gives up where one does not fit, so the
/// URL has to stay below that with the pair added.
#[verifier::external_body]
fn append_query(url: &str, key: &str, value: &str) -> (r: Option<String>)
    requires
        url_length(url@) matches Some(length) ==> pair_fits(length, key@, value@),
    ensures
        r.deep_view() == url_with_query(url@, key@, value@),
{
    let mut url = url::Url::parse(url).ok()?;
    url.query_pairs_mut().append_pair(key, value);
    Some(url.to_string())
}

/// The segments grow the room they take.
proof fn lemma_room_grows(segments: Seq<Seq<char>>, k: int)
    requires
        0 <= k <= segments.len(),
    ensures
        segments_room(segments.take(k)) <= segments_room(segments),
    decreases segments.len() - k,
{
    if k == segments.len() {
        assert(segments.take(k) =~= segments);
    } else {
        assert(segments.take(k + 1).drop_last() =~= segments.take(k));
        lemma_room_grows(segments, k + 1);
    }
}

/// Whether a URL of `length` bytes has room for the segments.
pub fn room_for_segments(length: usize, segments: &Vec<String>) -> (r: bool)
    ensures
        r == segments_fit(length, segments.deep_view()),
{
    let ghost all = segments.deep_view();
    let limit: u128 = 0xFFFF_FFFF;
    let mut total: u128 = length as u128;
    if total >= limit {
        return false;
    }
    let mut i: usize = 0;
    assert(all.take(0) =~= Seq::<Seq<char>>::empty());
    while i < segments.len()
        invariant
            i <= segments.len(),
            all == segments.deep_view(),
            limit == 0xFFFF_FFFF,
            total == length + segments_room(all.take(i as int)),
            total < limit,
        decreases segments.len() - i,
    {
        let bytes: usize = segments[i].as_str().as_bytes().len();
        proof {
            assert(all.take(i as int + 1).drop_last() =~= all.take(i as int));
            assert(all.take(i as int + 1).last() == segments[i as int]@);
        }
        total = total + 3 * (bytes as u128) + 2;
        if total >= limit {
            proof {
                lemma_room_grows(all, i as int + 1);
            }
            return false;
        }
        i = i + 1;
    }
    assert(all.take(i as int) =~= all);
    true
}

/// Whether a URL of `length` bytes has room for one more pair in its
/// query.
pub fn room_for_pair(length: usize, key: &str, value: &str) -> (r: bool)
    ensures
        r == pair_fits(length, key@, value@),
{
    let limit: u128 = 0xFFFF_FFFF;
    let key_bytes: usize = key.as_bytes().len();
    let value_bytes: usize = value.as_bytes().len();
    (length as u128) + 3 * ((key_bytes as u128) + (value_bytes as u128)) + 3 < limit
}

/// The header that authorizes a request with a token.
pub open spec fn bearer(token: Seq<char>) -> Seq<char> {
    "Bearer "@ + token
}

/// The URL `base` with the segments added, unless it would grow too long.
pub open spec fn extended_url(base: Seq<char>, segments: Seq<Seq<char>>) -> Result<
    Seq<char>,
    ApiFaultView,
> {
    let fits = match url_length(base) {
        Some(length) => segments_fit(length, segments),
        None => true,
    };
    if !fits {
        Err(ApiFaultView::TooLong)
    } else {
        match url_with_segments(base, segments) {
            None => Err(ApiFaultView::BadBaseUrl),
            Some(None) => Err(ApiFaultView::NoPathSegments),
            Some(Some(url)) => Ok(url),
        }
    }
}

/// The URL of an endpoint below a base URL: the base without slashes at
/// its end, and a path segment for each part of the endpoint.
pub open spec fn endpoint_url(base: Seq<char>, endpoint: Seq<char>) -> Result<
    Seq<char>,
    ApiFaultView,
> {
    extended_url(without_suffixes(base, "/"@), split_on(endpoint, '/'))
}

/// The URL `url` with a pair added to its query, unless it would grow too
/// long.
pub open spec fn queried_url(url: Seq<char>, key: Seq<char>, value: Seq<char>) -> Result<
    Seq<char>,
    ApiFaultView,
> {
    let fits = match url_length(url) {
        Some(length) => pair_fits(length, key, value),
        None => true,
    };
    if !fits {
        Err(ApiFaultView::TooLong)
    } else {
        match url_with_query(url, key, value) {
            None => Err(ApiFaultView::BadUrl),
            Some(extended) => Ok(extended),
        }
    }
}

/// What an [`ApiFault`] holds.
pub enum ApiFaultView {
    MissingToken,
    MissingBaseUrl,
    BadBaseUrl,
    NoPathSegments,
    TooLong,
    MissingUrl,
    BadUrl,
    MissingMethod,
    Unauthorized,
    Status { status: u16, body: Seq<char> },
}

impl View for ApiFault {
    type V = ApiFaultView;

    open spec fn view(&self) -> ApiFaultView {
        match self {
            ApiFault::MissingToken => ApiFaultView::MissingToken,
            ApiFault::MissingBaseUrl => ApiFaultView::MissingBaseUrl,
            ApiFault::BadBaseUrl => ApiFaultView::BadBaseUrl,
            ApiFault::NoPathSegments => ApiFaultView::NoPathSegments,
            ApiFault::TooLong => ApiFaultView::TooLong,
            ApiFault::MissingUrl => ApiFaultView::MissingUrl,
            ApiFault::BadUrl => ApiFaultView::BadUrl,
            ApiFault::MissingMethod => ApiFaultView::MissingMethod,
            ApiFault::Unauthorized => ApiFaultView::Unauthorized,
            ApiFault::Status { status, body } => ApiFaultView::Status {
                status: *status,
                body: body@,
            },
        }
    }
}

/// What a request, or the fault in making it, holds.
pub open spec fn request_view(r: Result<Request, ApiFault>) -> Result<RequestParts, ApiFaultView> {
    match r {
        Ok(request) => Ok(request@),
        Err(e) => Err(e@),
    }
}

/// What a text, or the fault in making it, holds.
pub open spec fn text_or_fault(r: Result<String, ApiFault>) -> Result<Seq<char>, ApiFaultView> {
    match r {
        Ok(t) => Ok(t@),
        Err(e) => Err(e@),
    }
}

impl Client {
    /// A client that knows neither where to go nor who it is.
    pub fn new() -> (r: Client)
        ensures
            r@ == (ClientView { base_url: None, token: None }),
    {
        Client { base_url: None, token: None }
    }

    pub fn with_base_url(self, base_url: &String) -> (r: Client)
        ensures
            r@ == (ClientView { base_url: Some(base_url@), ..self@ }),
    {
        Client { base_url: Some(base_url.clone()), token: self.token }
    }

    pub fn with_token(self, token: Option<String>) -> (r: Client)
        ensures
            r@ == (ClientView { token: token.deep_view(), ..self@ }),
    {
        Client { base_url: self.base_url, token }
    }

    /// The header that authorizes the requests of the client.
    pub fn authorization(&self) -> (r: Result<String, ApiFault>)
        ensures
            text_or_fault(r) == (match self@.token {
                Some(token) => Ok(bearer(token)),
                None => Err(ApiFaultView::MissingToken),
            }),
    {
        match &self.token {
            Some(token) => Ok(concat("Bearer ", token.as_str())),
            None => Err(ApiFault::MissingToken),
        }
    }

    /// The request for the list of applications.
    pub fn apps(&self) -> (r: Result<Request, ApiFault>)
        ensures
            request_view(r) == (match self@.token {
                None => Err(ApiFaultView::MissingToken),
                Some(token) => match self@.base_url {
                    None => Err(ApiFaultView::MissingBaseUrl),
                    Some(base) => match endpoint_url(base, "apps"@) {
                        Err(e) => Err(e),
                        Ok(url) => Ok(
                            RequestParts {
                                client: self@,
                                authorization: Some(bearer(token)),
                                url: Some(url),
                                method: Some(Method::Get),
                                payload: None,
                                allow_conflict: None,
                            },
                        ),
                    },
                },
            }),
    {
        let authorization = self.authorization()?;
        Request::new(self).with_authorization(authorization.as_str()).with_method(
            &Method::Get,
        ).with_endpoint("apps")
    }
}

/// What is sent: the method, the URL, and what goes with them.
#[derive(Debug, PartialEq, Eq)]
pub struct Prepared {
    pub method: Method,
    pub url: String,
    pub authorization: Option<String>,
    pub payload: Option<String>,
}

/// How the answer to a request is taken: a conflict that is allowed for
/// yields nothing, a refusal of the token asks for a login, any other
/// failure is reported with status and body, and a success yields the
/// body.
pub open spec fn answer_of(allow_conflict: Option<bool>, status: u16, body: Seq<char>) -> Result<
    Option<Seq<char>>,
    ApiFaultView,
> {
    if 400 <= status < 600 {
        if status == 409 && allow_conflict == Some(true) {
            Ok(None)
        } else if status == 401 {
            Err(ApiFaultView::Unauthorized)
        } else {
            Err(ApiFaultView::Status { status, body })
        }
    } else {
        Ok(Some(body))
    }
}

impl Request {
    pub fn new(client: &Client) -> (r: Request)
        ensures
            r@ == (RequestParts {
                client: client@,
                authorization: None,
                url: None,
                method: None,
                payload: None,
                allow_conflict: None,
            }),
    {
        Request {
            client: client.clone(),
            authorization: None,
            url: None,
            method: None,
            payload: None,
            allow_conflict: None,
        }
    }

    pub fn with_authorization(self, authorization: &str) -> (r: Request)
        ensures
            r@ == (RequestParts { authorization: Some(authorization@), ..self@ }),
    {
        Request {
            client: self.client,
            authorization: Some(authorization.to_owned()),
            url: self.url,
            method: self.method,
            payload: self.payload,
            allow_conflict: self.allow_conflict,
        }
    }

    /// Aims the request at an endpoint below the base URL of the client.
    pub fn with_endpoint(self, endpoint: &str) -> (r: Result<Request, ApiFault>)
        ensures
            request_view(r) == (match self@.client.base_url {
                None => Err(ApiFaultView::MissingBaseUrl),
                Some(base) => match endpoint_url(base, endpoint@) {
                    Err(e) => Err(e),
                    Ok(url) => Ok(RequestParts { url: Some(url), ..self@ }),
                },
            }),
    {
        let base = match &self.client.base_url {
            None => {
                return Err(ApiFault::MissingBaseUrl);
            },
            Some(base) => strip_suffixes(base.as_str(), "/"),
        };
        let segments = split(endpoint, '/');
        let fits = match length_of_url(base.as_str()) {
            Some(length) => room_for_segments(length, &segments),
            None => true,
        };
        if !fits {
            return Err(ApiFault::TooLong);
        }
        match extend_url(base.as_str(), &segments) {
            None => Err(ApiFault::BadBaseUrl),
            Some(None) => Err(ApiFault::NoPathSegments),
            Some(Some(url)) => Ok(
                Request {
                    client: self.client,
                    authorization: self.authorization,
                    url: Some(url),
                    method: self.method,
                    payload: self.payload,
                    allow_conflict: self.allow_conflict,
                },
            ),
        }
    }

    /// Adds a pair to the query of the URL.
    pub fn with_query(self, key: &str, value: &str) -> (r: Result<Request, ApiFault>)
        ensures
            request_view(r) == (match self@.url {
                None => Err(ApiFaultView::MissingUrl),
                Some(url) => match queried_url(url, key@, value@) {
                    Err(e) => Err(e),
                    Ok(extended) => Ok(RequestParts { url: Some(extended), ..self@ }),
                },
            }),
    {
        let extended = match &self.url {
            None => {
                return Err(ApiFault::MissingUrl);
            },
            Some(url) => {
                let fits = match length_of_url(url.as_str()) {
                    Some(length) => room_for_pair(length, key, value),
                    None => true,
                };
                if !fits {
                    return Err(ApiFault::TooLong);
                }
                append_query(url.as_str(), key, value)
            },
        };
        match extended {
            None => Err(ApiFault::BadUrl),
            Some(url) => Ok(
                Request {
                    client: self.client,
                    authorization: self.authorization,
                    url: Some(url),
                    method: self.method,
                    payload: self.payload,
                    allow_conflict: self.allow_conflict,
                },
            ),
        }
    }

    pub fn with_method(self, method: &Method) -> (r: Request)
        ensures
            r@ == (RequestParts { method: Some(*method), ..self@ }),
    {
        Request {
            client: self.client,
            authorization: self.authorization,
            url: self.url,
            method: Some(*method),
            payload: self.payload,
            allow_conflict: self.allow_conflict,
        }
    }

    /// Gives the request a body of JSON.
    pub fn with_payload(self, payload: &str) -> (r: Request)
        ensures
            r@ == (RequestParts { payload: Some(payload@), ..self@ }),
    {
        Request {
            client: self.client,
            authorization: self.authorization,
            url: self.url,
            method: self.method,
            payload: Some(payload.to_owned()),
            allow_conflict: self.allow_conflict,
        }
    }

    pub fn with_allow_conflict(self, allow_conflict: bool) -> (r: Request)
        ensures
            r@ == (RequestParts { allow_conflict: Some(allow_conflict), ..self@ }),
    {
        Request {
            client: self.client,
            authorization: self.authorization,
            url: self.url,
            method: self.method,
            payload: self.payload,
            allow_conflict: Some(allow_conflict),
        }
    }

    /// What is to be sent. A request without method or URL cannot be.
    pub fn send(&self) -> (r: Result<Prepared, ApiFault>)
        ensures
            match (self@.method, self@.url) {
                (None, _) => r matches Err(e) && e@ == ApiFaultView::MissingMethod,
                (Some(_), None) => r matches Err(e) && e@ == ApiFaultView::MissingUrl,
                (Some(method), Some(url)) => r matches Ok(p) && p.method == method && p.url@ == url
                    && p.authorization.deep_view() == self@.authorization && p.payload.deep_view()
                    == self@.payload,
            },
    {
        let method = match self.method {
            None => {
                return Err(ApiFault::MissingMethod);
            },
            Some(method) => method,
        };
        let url = match &self.url {
            None => {
                return Err(ApiFault::MissingUrl);
            },
            Some(url) => url.clone(),
        };
        Ok(
            Prepared {
                method,
                url,
                authorization: self.authorization.clone(),
                payload: self.payload.clone(),
            },
        )
    }

    /// Takes the answer to the request.
    pub fn receive(&self, status: u16, body: String) -> (r: Result<Option<String>, ApiFault>)
        ensures
            (match r {
                Ok(b) => Ok(b.deep_view()),
                Err(e) => Err(e@),
            }) == answer_of(self@.allow_conflict, status, body@),
    {
        if 400 <= status && status < 600 {
            let allowed = match self.allow_conflict {
                Some(true) => true,
                _ => false,
            };
            if status == 409 && allowed {
                Ok(None)
            } else if status == 401 {
                Err(ApiFault::Unauthorized)
            } else {
                Err(ApiFault::Status { status, body })
            }
        } else {
            Ok(Some(body))
        }
    }
}

/// The kind of token that a JSON string names.
pub open spec fn token_kind(name: Seq<char>) -> Option<AuthToken> {
    if name == "access_token"@ {
        Some(AuthToken::Access)
    } else if name == "id_token"@ {
        Some(AuthToken::Id)
    } else if name == "refresh_token"@ {
        Some(AuthToken::Refresh)
    } else {
        None
    }
}

/// The optional kind of token under `key`.
pub open spec fn optional_token_kind(document: Json, key: Seq<char>) -> Option<Option<AuthToken>> {
    match optional_text(document, key) {
        None => None,
        Some(None) => Some(None),
        Some(Some(name)) => match token_kind(name) {
            Some(kind) => Some(Some(kind)),
            None => None,
        },
    }
}

/// The client configuration that a JSON document holds: an object in
/// which each part is missing, `null` or of the part's type.
pub open spec fn auth_n_of(document: Json) -> Option<AuthNView> {
    match (
        document,
        optional_text(document, "clientId"@),
        optional_text(document, "discoveryUri"@),
        optional_token_kind(document, "tokenPreference"@),
        optional_table(document, "params"@),
        optional_list(document, "acrValues"@),
        optional_text(document, "appsUri"@),
    ) {
        (
            Json::Object(_),
            Some(client_id),
            Some(discovery_uri),
            Some(token_preference),
            Some(params),
            Some(acr_values),
            Some(apps_uri),
        ) => Some(
            AuthNView { client_id, discovery_uri, token_preference, params, acr_values, apps_uri },
        ),
        _ => None,
    }
}

/// The optional client configuration under `key`.
pub open spec fn optional_auth_n(document: Json, key: Seq<char>) -> Option<Option<AuthNView>> {
    if !present(document, key) {
        Some(None)
    } else {
        match auth_n_of(document.member(key)->0) {
            Some(auth_n) => Some(Some(auth_n)),
            None => None,
        }
    }
}

/// The application that a JSON document holds.
pub open spec fn app_of(document: Json) -> Option<AppView> {
    match (
        required_text(document, "name"@),
        optional_text(document, "org"@),
        required_text(document, "clientId"@),
        required_text(document, "url"@),
        required_list(document, "origins"@),
        required_list(document, "scopes"@),
        required_table(document, "metadata"@),
        optional_auth_n(document, "authN"@),
    ) {
        (
            Some(name),
            Some(org),
            Some(client_id),
            Some(url),
            Some(origins),
            Some(scopes),
            Some(metadata),
            Some(auth_n),
        ) => Some(AppView { name, org, client_id, url, origins, scopes, metadata, auth_n }),
        _ => None,
    }
}

/// The applications that the items of a JSON array hold, where each holds
/// one.
pub open spec fn apps_of_items(items: Seq<Json>) -> Option<Seq<AppView>> {
    if forall|i: int| 0 <= i < items.len() ==> app_of(#[trigger] items[i]) is Some {
        Some(Seq::new(items.len(), |i: int| app_of(items[i])->0))
    } else {
        None
    }
}

/// The applications that a text holds, if it is a JSON array of them.
pub open spec fn apps_in(body: Seq<char>) -> Option<Seq<AppView>> {
    match parsed(body) {
        None => None,
        Some(document) => match document.items() {
            None => None,
            Some(items) => apps_of_items(items),
        },
    }
}

fn read_token_kind(document: &serde_json::Value, key: &str) -> (r: Option<Option<AuthToken>>)
    ensures
        r == optional_token_kind(json_of(*document), key@),
{
    match read_text(document, key) {
        None => None,
        Some(None) => Some(None),
        Some(Some(name)) => {
            if same_text(name.as_str(), "access_token") {
                Some(Some(AuthToken::Access))
            } else if same_text(name.as_str(), "id_token") {
                Some(Some(AuthToken::Id))
            } else if same_text(name.as_str(), "refresh_token") {
                Some(Some(AuthToken::Refresh))
            } else {
                None
            }
        },
    }
}

impl AuthN {
    /// Reads a client configuration out of a JSON document.
    pub fn from_json(document: &serde_json::Value) -> (r: Option<AuthN>)
        ensures
            crate::auth0::auth_n_view(r) == auth_n_of(json_of(*document)),
    {
        if keys(document).is_none() {
            return None;
        }
        let client_id = read_text(document, "clientId")?;
        let discovery_uri = read_text(document, "discoveryUri")?;
        let token_preference = read_token_kind(document, "tokenPreference")?;
        let params = read_table(document, "params")?;
        let acr_values = read_list(document, "acrValues")?;
        let apps_uri = read_text(document, "appsUri")?;
        Some(AuthN { client_id, discovery_uri, token_preference, params, acr_values, apps_uri })
    }
}

fn read_auth_n(document: &serde_json::Value, key: &str) -> (r: Option<Option<AuthN>>)
    ensures
        (match r {
            None => None,
            Some(a) => Some(crate::auth0::auth_n_view(a)),
        }) == optional_auth_n(json_of(*document), key@),
{
    match member(document, key) {
        None => Some(None),
        Some(value) => {
            if is_null(value) {
                Some(None)
            } else {
                match AuthN::from_json(value) {
                    Some(auth_n) => Some(Some(auth_n)),
                    None => None,
                }
            }
        },
    }
}

/// What an optional application holds.
pub open spec fn app_view(r: Option<App>) -> Option<AppView> {
    match r {
        Some(app) => Some(app@),
        None => None,
    }
}

/// What optional applications hold.
pub open spec fn apps_view(r: Option<Apps>) -> Option<Seq<AppView>> {
    match r {
        Some(apps) => Some(apps@),
        None => None,
    }
}

impl App {
    /// Reads an application out of a JSON document.
    pub fn from_json(document: &serde_json::Value) -> (r: Option<App>)
        ensures
            app_view(r) == app_of(json_of(*document)),
    {
        let name = read_required_text(document, "name")?;
        let org = read_text(document, "org")?;
        let client_id = read_required_text(document, "clientId")?;
        let url = read_required_text(document, "url")?;
        let origins = read_required_list(document, "origins")?;
        let scopes = read_required_list(document, "scopes")?;
        let metadata = read_required_table(document, "metadata")?;
        let auth_n = read_auth_n(document, "authN")?;
        Some(App { name, org, client_id, url, origins, scopes, metadata, auth_n })
    }
}

impl Apps {
    /// Reads the list of applications out of the body of an answer.
    pub fn parse(body: &str) -> (r: Option<Apps>)
        ensures
            apps_view(r) == apps_in(body@),
    {
        let document = parse(body)?;
        let items = as_items(&document)?;
        let ghost all = each_json_of(items@);
        let mut apps: Vec<App> = Vec::new();
        let mut i: usize = 0;
        while i < items.len()
            invariant
                i <= items.len(),
                all == each_json_of(items@),
                parsed(body@) == Some(json_of(document)),
                json_of(document).items() == Some(all),
                apps@.len() == i,
                forall|j: int| 0 <= j < i ==> app_of(#[trigger] all[j]) == Some(apps@[j]@),
            decreases items.len() - i,
        {
            match App::from_json(&items[i]) {
                None => {
                    assert(app_of(all[i as int]) is None);
                    return None;
                },
                Some(app) => {
                    apps.push(app);
                },
            }
            i = i + 1;
        }
        let r = Apps(apps);
        assert(r@ =~= Seq::new(all.len(), |i: int| app_of(all[i])->0));
        Some(r)
    }
}

} // verus!
