//! The configuration of a client of the identity provider, the applications
//! behind it, and the forms that the client posts.

use crate::text::copy_list;
use crate::claims::table_view;
use crate::string_map::put;
use crate::string_map::put_all;
use crate::string_map::lookup;
use crate::string_map::Entries;
use crate::string_map::StringMap;
use crate::text::blank;
use crate::text::chars_of;
use crate::text::has_prefix;
use crate::text::is_blank;
use crate::text::join;
use crate::text::joined;
use crate::text::list_contains;
use crate::text::starts_with;
use crate::text::text_of;
use vstd::prelude::*;

verus! {

/// The three tokens that a login yields.
#[derive(Clone, Copy, Debug, PartialEq, Eq, Structural)]
pub enum AuthToken {
    Access,
    Id,
    Refresh,
}

/// The name of the file that holds a token.
pub open spec fn token_file_name(token: AuthToken) -> Seq<char> {
    match token {
        AuthToken::Access => "ACCESS_TOKEN"@,
        AuthToken::Id => "ID_TOKEN"@,
        AuthToken::Refresh => "REFRESH_TOKEN"@,
    }
}

impl AuthToken {
    /// The name of the file that holds the token.
    pub fn to_string(&self) -> (r: String)
        ensures
            r@ == token_file_name(*self),
    {
        match self {
            AuthToken::Access => "ACCESS_TOKEN".to_owned(),
            AuthToken::Id => "ID_TOKEN".to_owned(),
            AuthToken::Refresh => "REFRESH_TOKEN".to_owned(),
        }
    }
}

/// What a client configuration lacks.
#[derive(Clone, Copy, Debug, PartialEq, Eq, Structural)]
pub enum ConfigFault {
    MissingClientId,
    MissingDiscoveryUri,
    MissingDeviceAuthorizationEndpoint,
    MissingVerificationUrl,
    /// The application has no client configuration of its own.
    MissingAuthN,
}

/// How a client talks to the identity provider.
#[derive(Debug)]
pub struct AuthN {
    pub client_id: Option<String>,
    /// Where the discovery document of the provider is found.
    pub discovery_uri: Option<String>,
    /// The token that is handed to Kubernetes.
    pub token_preference: Option<AuthToken>,
    /// Form parameters that go with every login.
    pub params: Option<StringMap>,
    /// Hints on the authentication context that the client asks for.
    pub acr_values: Option<Vec<String>>,
    /// Where the list of applications is found.
    pub apps_uri: Option<String>,
}

/// What an [`AuthN`] holds.
pub struct AuthNView {
    pub client_id: Option<Seq<char>>,
    pub discovery_uri: Option<Seq<char>>,
    pub token_preference: Option<AuthToken>,
    pub params: Option<Entries>,
    pub acr_values: Option<Seq<Seq<char>>>,
    pub apps_uri: Option<Seq<char>>,
}

impl View for AuthN {
    type V = AuthNView;

    open spec fn view(&self) -> AuthNView {
        AuthNView {
            client_id: self.client_id.deep_view(),
            discovery_uri: self.discovery_uri.deep_view(),
            token_preference: self.token_preference,
            params: table_view(self.params),
            acr_values: self.acr_values.deep_view(),
            apps_uri: self.apps_uri.deep_view(),
        }
    }
}

impl Clone for AuthN {
    fn clone(&self) -> (r: AuthN)
        ensures
            r@ == self@,
    {
        AuthN {
            client_id: self.client_id.clone(),
            discovery_uri: self.discovery_uri.clone(),
            token_preference: self.token_preference,
            params: match &self.params {
                Some(p) => Some(p.clone()),
                None => None,
            },
            acr_values: match &self.acr_values {
                Some(l) => Some(copy_list(l)),
                None => None,
            },
            apps_uri: self.apps_uri.clone(),
        }
    }
}

/// The form with the client id alone.
pub open spec fn client_form(client_id: Seq<char>) -> Entries {
    put(Seq::empty(), "client_id"@, client_id)
}

/// The form that asks for a device code: the client id, the scope unless it
/// is blank, and on top the parameters of the configuration.
pub open spec fn login_form(auth_n: AuthNView, scope: Seq<char>) -> Entries {
    let base = client_form(auth_n.client_id->0);
    let scoped = if blank(scope) {
        base
    } else {
        put(base, "scope"@, scope)
    };
    match auth_n.params {
        Some(params) => put_all(scoped, params),
        None => scoped,
    }
}

/// The form that exchanges a device code for tokens.
pub open spec fn device_code_form(auth_n: AuthNView, device_code: Seq<char>) -> Entries {
    let base = put(
        put(
            put(client_form(auth_n.client_id->0), "code"@, device_code),
            "device_code"@,
            device_code,
        ),
        "grant_type"@,
        "urn:ietf:params:oauth:grant-type:device_code"@,
    );
    match auth_n.acr_values {
        Some(values) => put(base, "acr_values"@, joined(values, " "@)),
        None => base,
    }
}

/// The form of the refresh grant.
pub open spec fn refresh_form(auth_n: AuthNView, refresh_token: Seq<char>) -> Entries {
    put(
        put(client_form(auth_n.client_id->0), "refresh_token"@, refresh_token),
        "grant_type"@,
        "refresh_token"@,
    )
}

/// What a form, or the failure to make one, holds.
pub open spec fn form_view(r: Result<StringMap, ConfigFault>) -> Result<Entries, ConfigFault> {
    match r {
        Ok(form) => Ok(form@),
        Err(e) => Err(e),
    }
}

impl AuthN {
    /// Where the list of applications is found.
    pub fn apps_uri(&self) -> (r: Option<String>)
        ensures
            r.deep_view() == self@.apps_uri,
    {
        self.apps_uri.clone()
    }

    fn base_form(&self) -> (r: Result<StringMap, ConfigFault>)
        ensures
            form_view(r) == (match self@.client_id {
                Some(id) => Ok(client_form(id)),
                None => Err(ConfigFault::MissingClientId),
            }),
    {
        match &self.client_id {
            None => Err(ConfigFault::MissingClientId),
            Some(id) => {
                let mut form = StringMap::new();
                form.insert("client_id".to_owned(), id.clone());
                Ok(form)
            },
        }
    }

    /// The form that asks the provider for a device code.
    pub fn login_form_data(&self, scope: &String) -> (r: Result<StringMap, ConfigFault>)
        ensures
            form_view(r) == (if self@.client_id is Some {
                Ok(login_form(self@, scope@))
            } else {
                Err(ConfigFault::MissingClientId)
            }),
    {
        let mut form = self.base_form()?;
        if !is_blank(scope.as_str()) {
            form.insert("scope".to_owned(), scope.clone());
        }
        if let Some(params) = &self.params {
            form.extend(params);
        }
        Ok(form)
    }

    /// The form that exchanges a device code for tokens.
    pub fn device_code_form_data(&self, device_code: &String) -> (r: Result<StringMap, ConfigFault>)
        ensures
            form_view(r) == (if self@.client_id is Some {
                Ok(device_code_form(self@, device_code@))
            } else {
                Err(ConfigFault::MissingClientId)
            }),
    {
        let mut form = self.base_form()?;
        form.insert("code".to_owned(), device_code.clone());
        form.insert("device_code".to_owned(), device_code.clone());
        form.insert(
            "grant_type".to_owned(),
            "urn:ietf:params:oauth:grant-type:device_code".to_owned(),
        );
        if let Some(values) = &self.acr_values {
            form.insert("acr_values".to_owned(), join(values, " "));
        }
        Ok(form)
    }

    /// The form of the refresh grant.
    pub fn refresh_form_data(&self, refresh_token: &String) -> (r: Result<StringMap, ConfigFault>)
        ensures
            form_view(r) == (if self@.client_id is Some {
                Ok(refresh_form(self@, refresh_token@))
            } else {
                Err(ConfigFault::MissingClientId)
            }),
    {
        let mut form = self.base_form()?;
        form.insert("refresh_token".to_owned(), refresh_token.clone());
        form.insert("grant_type".to_owned(), "refresh_token".to_owned());
        Ok(form)
    }
}

/// An application registered with the identity provider.
#[derive(Debug)]
pub struct App {
    pub name: String,
    pub org: Option<String>,
    pub client_id: String,
    pub url: String,
    pub origins: Vec<String>,
    pub scopes: Vec<String>,
    pub metadata: StringMap,
    pub auth_n: Option<AuthN>,
}

/// What an [`App`] holds.
pub struct AppView {
    pub name: Seq<char>,
    pub org: Option<Seq<char>>,
    pub client_id: Seq<char>,
    pub url: Seq<char>,
    pub origins: Seq<Seq<char>>,
    pub scopes: Seq<Seq<char>>,
    pub metadata: Entries,
    pub auth_n: Option<AuthNView>,
}

/// What an optional client configuration holds.
pub open spec fn auth_n_view(auth_n: Option<AuthN>) -> Option<AuthNView> {
    match auth_n {
        Some(a) => Some(a@),
        None => None,
    }
}

impl View for App {
    type V = AppView;

    open spec fn view(&self) -> AppView {
        AppView {
            name: self.name@,
            org: self.org.deep_view(),
            client_id: self.client_id@,
            url: self.url@,
            origins: self.origins.deep_view(),
            scopes: self.scopes.deep_view(),
            metadata: self.metadata@,
            auth_n: auth_n_view(self.auth_n),
        }
    }
}

impl Clone for App {
    fn clone(&self) -> (r: App)
        ensures
            r@ == self@,
    {
        App {
            name: self.name.clone(),
            org: self.org.clone(),
            client_id: self.client_id.clone(),
            url: self.url.clone(),
            origins: copy_list(&self.origins),
            scopes: copy_list(&self.scopes),
            metadata: self.metadata.clone(),
            auth_n: match &self.auth_n {
                Some(a) => Some(a.clone()),
                None => None,
            },
        }
    }
}

/// Whether `char::is_alphanumeric` of std holds of `c`: the character is a
/// letter or a number as Unicode classes them.
pub uninterp spec fn alphanumeric(c: char) -> bool;

/// `char::is_alphanumeric` of std.
#[verifier::external_body]
fn is_alphanumeric(c: char) -> (r: bool)
    ensures
        r == alphanumeric(c),
{
    c.is_alphanumeric()
}

/// `name` with a hyphen in place of each character that is neither letter
/// nor number.
pub open spec fn machine_text(name: Seq<char>) -> Seq<char> {
    Seq::new(
        name.len(),
        |i: int|
            if alphanumeric(name[i]) {
                name[i]
            } else {
                '-'
            },
    )
}

/// The fragment of a URL: the outer `None` says that `url::Url::parse`
/// refuses the text, the inner one that the URL has no fragment.
pub uninterp spec fn url_fragment(text: Seq<char>) -> Option<Option<Seq<char>>>;

/// What `urlencoding::decode` makes of a percent-encoded text; nothing where
/// the decoded bytes are no UTF-8.
pub uninterp spec fn percent_decoded(text: Seq<char>) -> Option<Seq<char>>;

/// `url::Url::parse` reads the text as a URL; `Url::fragment` hands out what
/// follows its `#`, if it has one.
#[verifier::external_body]
fn fragment_of(text: &str) -> (r: Option<Option<String>>)
    ensures
        r.deep_view() == url_fragment(text@),
{
    url::Url::parse(text).ok().map(|u| u.fragment().map(|f| f.to_string()))
}

/// `urlencoding::decode` replaces each `%xx` by the byte it writes and takes
/// the result as UTF-8.
#[verifier::external_body]
fn percent_decode(text: &str) -> (r: Option<String>)
    ensures
        r.deep_view() == percent_decoded(text@),
{
    urlencoding::decode(text).ok().map(|s| s.into_owned())
}

/// Why an application yields no certificate authority.
#[derive(Clone, Copy, Debug, PartialEq, Eq, Structural)]
pub enum CaFault {
    /// No origin of the application names a certificate authority.
    NotFound,
    /// The origin is no URL.
    BadUrl,
    /// The origin has no fragment.
    NoFragment,
    /// The fragment does not decode to text.
    BadEncoding,
}

/// The prefix of the origin that carries the certificate authority.
pub open spec fn ca_prefix() -> Seq<char> {
    "https://meta.p6m.dev/certificate-authority"@
}

/// The first of `origins` that carries a certificate authority.
pub open spec fn ca_origin(origins: Seq<Seq<char>>) -> Option<Seq<char>>
    decreases origins.len(),
{
    if origins.len() == 0 {
        None
    } else if has_prefix(origins[0], ca_prefix()) {
        Some(origins[0])
    } else {
        ca_origin(origins.drop_first())
    }
}

/// The certificate authority that `origins` carry.
pub open spec fn ca_of(origins: Seq<Seq<char>>) -> Result<Seq<char>, CaFault> {
    match ca_origin(origins) {
        None => Err(CaFault::NotFound),
        Some(origin) => match url_fragment(origin) {
            None => Err(CaFault::BadUrl),
            Some(None) => Err(CaFault::NoFragment),
            Some(Some(fragment)) => match percent_decoded(fragment) {
                None => Err(CaFault::BadEncoding),
                Some(ca) => Ok(ca),
            },
        },
    }
}

/// The certificate authority read from the parts of an origin.
pub open spec fn ca_from_parts(
    fragment: Option<Option<Seq<char>>>,
    decoded: Option<Seq<char>>,
) -> Result<Seq<char>, CaFault> {
    match fragment {
        None => Err(CaFault::BadUrl),
        Some(None) => Err(CaFault::NoFragment),
        Some(Some(_)) => match decoded {
            None => Err(CaFault::BadEncoding),
            Some(ca) => Ok(ca),
        },
    }
}

/// What a certificate authority, or the failure to find one, holds.
pub open spec fn ca_view(r: Result<String, CaFault>) -> Result<Seq<char>, CaFault> {
    match r {
        Ok(ca) => Ok(ca@),
        Err(e) => Err(e),
    }
}

impl App {
    pub fn display_name(&self) -> (r: String)
        ensures
            r@ == self@.name,
    {
        self.name.clone()
    }

    /// The name by which machines know the application: its metadata entry
    /// `ClaimName`, or else its display name, with a hyphen in place of each
    /// character that is neither letter nor number.
    pub fn machine_name(&self) -> (r: String)
        ensures
            r@ == machine_text(
                match lookup(self@.metadata, "ClaimName"@) {
                    Some(name) => name,
                    None => self@.name,
                },
            ),
    {
        let name = match self.metadata.get("ClaimName") {
            Some(name) => name.clone(),
            None => self.name.clone(),
        };
        let chars = chars_of(name.as_str());
        let mut out: Vec<char> = Vec::new();
        let mut i: usize = 0;
        while i < chars.len()
            invariant
                i <= chars.len(),
                out@ == machine_text(chars@).take(i as int),
            decreases chars.len() - i,
        {
            let c = chars[i];
            if is_alphanumeric(c) {
                out.push(c);
            } else {
                out.push('-');
            }
            assert(out@ =~= machine_text(chars@).take(i as int + 1));
            i = i + 1;
        }
        assert(out@ =~= machine_text(chars@));
        text_of(&out)
    }

    pub fn url(&self) -> (r: String)
        ensures
            r@ == self@.url,
    {
        self.url.clone()
    }

    pub fn org(&self) -> (r: Option<String>)
        ensures
            r.deep_view() == self@.org,
    {
        self.org.clone()
    }

    /// The origin that carries the certificate authority of the application.
    pub fn ca_origin(&self) -> (r: Option<&String>)
        ensures
            r.deep_view() == ca_origin(self@.origins),
    {
        let mut i: usize = 0;
        assert(self@.origins.skip(0) =~= self@.origins);
        while i < self.origins.len()
            invariant
                i <= self.origins.len(),
                ca_origin(self@.origins) == ca_origin(self@.origins.skip(i as int)),
            decreases self.origins.len() - i,
        {
            assert(self@.origins.skip(i as int)[0] == self.origins[i as int]@);
            if starts_with(self.origins[i].as_str(), "https://meta.p6m.dev/certificate-authority") {
                return Some(&self.origins[i]);
            }
            assert(self@.origins.skip(i as int).drop_first() =~= self@.origins.skip(i as int + 1));
            i = i + 1;
        }
        None
    }

    /// The certificate authority of the application: the percent-decoded
    /// fragment of the first origin that carries one.
    pub fn ca(&self) -> (r: Result<String, CaFault>)
        ensures
            ca_view(r) == ca_of(self@.origins),
    {
        let origin = match self.ca_origin() {
            Some(origin) => origin,
            None => {
                return Err(CaFault::NotFound);
            },
        };
        let fragment = fragment_of(origin.as_str());
        let decoded = match &fragment {
            Some(Some(f)) => percent_decode(f.as_str()),
            _ => None,
        };
        App::ca_from(fragment, decoded)
    }

    /// The certificate authority, given the fragment of the origin and what
    /// it decodes to.
    pub fn ca_from(fragment: Option<Option<String>>, decoded: Option<String>) -> (r: Result<
        String,
        CaFault,
    >)
        ensures
            ca_view(r) == ca_from_parts(fragment.deep_view(), decoded.deep_view()),
    {
        match fragment {
            None => Err(CaFault::BadUrl),
            Some(None) => Err(CaFault::NoFragment),
            Some(Some(_)) => match decoded {
                None => Err(CaFault::BadEncoding),
                Some(ca) => Ok(ca),
            },
        }
    }
}

/// The applications that the identity provider lists.
#[derive(Debug)]
pub struct Apps(pub Vec<App>);

/// What each of `apps` holds.
pub open spec fn each_app_view(apps: Seq<App>) -> Seq<AppView> {
    Seq::new(apps.len(), |i: int| apps[i]@)
}

impl View for Apps {
    type V = Seq<AppView>;

    open spec fn view(&self) -> Seq<AppView> {
        each_app_view(self.0@)
    }
}

/// The first of `apps` that has `id` for its client id.
pub open spec fn app_with_id(apps: Seq<AppView>, id: Seq<char>) -> Option<AppView>
    decreases apps.len(),
{
    if apps.len() == 0 {
        None
    } else if apps[0].client_id == id {
        Some(apps[0])
    } else {
        app_with_id(apps.drop_first(), id)
    }
}

impl Apps {
    /// The application that has `id` for its client id.
    pub fn app(&self, id: &str) -> (r: Option<App>)
        ensures
            (match r {
                Some(app) => Some(app@),
                None => None,
            }) == app_with_id(self@, id@),
    {
        let mut i: usize = 0;
        assert(self@.skip(0) =~= self@);
        while i < self.0.len()
            invariant
                i <= self.0.len(),
                app_with_id(self@, id@) == app_with_id(self@.skip(i as int), id@),
            decreases self.0.len() - i,
        {
            assert(self@.skip(i as int)[0] == self.0[i as int]@);
            if crate::text::same_text(self.0[i].client_id.as_str(), id) {
                return Some(self.0[i].clone());
            }
            assert(self@.skip(i as int).drop_first() =~= self@.skip(i as int + 1));
            i = i + 1;
        }
        None
    }

    /// The applications that ask for `scope`, in their order.
    pub fn contain_scope(self, scope: &str) -> (r: Apps)
        ensures
            r@ == self@.filter(|app: AppView| app.scopes.contains(scope@)),
    {
        let ghost keep = |app: AppView| app.scopes.contains(scope@);
        let mut out: Vec<App> = Vec::new();
        let mut i: usize = 0;
        proof {
            reveal(Seq::filter);
            assert(self@.take(0) =~= Seq::<AppView>::empty());
        }
        while i < self.0.len()
            invariant
                i <= self.0.len(),
                keep == (|app: AppView| app.scopes.contains(scope@)),
                each_app_view(out@) == self@.take(i as int).filter(keep),
            decreases self.0.len() - i,
        {
            proof {
                reveal(Seq::filter);
                assert(self@.take(i as int + 1).drop_last() =~= self@.take(i as int));
                assert(self@.take(i as int + 1).last() == self.0[i as int]@);
            }
            if list_contains(&self.0[i].scopes, scope) {
                let ghost before = each_app_view(out@);
                let app = self.0[i].clone();
                out.push(app);
                assert(each_app_view(out@) =~= before.push(app@));
            }
            i = i + 1;
        }
        assert(self@.take(i as int) =~= self@);
        Apps(out)
    }
}

} // verus!
