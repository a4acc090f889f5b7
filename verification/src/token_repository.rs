//! The token repository: for whom tokens are kept and what is asked of
//! them. It holds no tokens itself. The caller reads the token directory
//! and hands its content in as a [`StoredTokens`].

use crate::auth0::token_file_name;
use crate::auth0::App;
use crate::auth0::AppView;
use crate::auth0::AuthN;
use crate::auth0::AuthNView;
use crate::auth0::AuthToken;
use crate::auth0::ConfigFault;
use crate::claims::merged;
use crate::claims::no_claims;
use crate::claims::Claims;
use crate::claims::ClaimsView;
use crate::decode::lenient_claims;
use crate::decode::token_claims;
use crate::error::AuthError;
use crate::error::AuthErrorView;
use crate::openid::AccessTokenResponse;
use crate::openid::TokensView;
use crate::paths::join_path;
use crate::paths::path_join;
use crate::scopes::with_scope;
use crate::scopes::with_scopes;
use crate::scopes::ScopeSet;
use crate::string_map::Entries;
use crate::string_map::StringMap;
use crate::text::concat;
use crate::text::join;
use crate::text::joined;
use crate::text::same_text;
use crate::text::split;
use crate::text::split_on;
use vstd::prelude::*;

verus! {

/// The command on whose behalf tokens are asked for.
#[derive(Debug)]
pub enum TryReason {
    LoginCommand,
    SsoCommand,
    WhoAmICommand,
    LoginTo(App),
    RefreshFor(App),
}

/// What a [`TryReason`] holds.
pub enum TryReasonView {
    LoginCommand,
    SsoCommand,
    WhoAmICommand,
    LoginTo(AppView),
    RefreshFor(AppView),
}

impl View for TryReason {
    type V = TryReasonView;

    open spec fn view(&self) -> TryReasonView {
        match self {
            TryReason::LoginCommand => TryReasonView::LoginCommand,
            TryReason::SsoCommand => TryReasonView::SsoCommand,
            TryReason::WhoAmICommand => TryReasonView::WhoAmICommand,
            TryReason::LoginTo(app) => TryReasonView::LoginTo(app@),
            TryReason::RefreshFor(app) => TryReasonView::RefreshFor(app@),
        }
    }
}

impl Clone for TryReason {
    fn clone(&self) -> (r: TryReason)
        ensures
            r@ == self@,
    {
        match self {
            TryReason::LoginCommand => TryReason::LoginCommand,
            TryReason::SsoCommand => TryReason::SsoCommand,
            TryReason::WhoAmICommand => TryReason::WhoAmICommand,
            TryReason::LoginTo(app) => TryReason::LoginTo(app.clone()),
            TryReason::RefreshFor(app) => TryReason::RefreshFor(app.clone()),
        }
    }
}

/// The words for a [`TryReason`].
pub open spec fn try_reason_text(reason: TryReasonView) -> Seq<char> {
    match reason {
        TryReasonView::LoginCommand => "for `login` command"@,
        TryReasonView::SsoCommand => "for `sso` command"@,
        TryReasonView::WhoAmICommand => "for `whoami` command"@,
        TryReasonView::LoginTo(app) => "to "@ + app.name,
        TryReasonView::RefreshFor(app) => "for "@ + app.name,
    }
}

impl TryReason {
    /// The reason in words.
    pub fn to_string(&self) -> (r: String)
        ensures
            r@ == try_reason_text(self@),
    {
        match self {
            TryReason::LoginCommand => "for `login` command".to_owned(),
            TryReason::SsoCommand => "for `sso` command".to_owned(),
            TryReason::WhoAmICommand => "for `whoami` command".to_owned(),
            TryReason::LoginTo(app) => concat("to ", app.name.as_str()),
            TryReason::RefreshFor(app) => concat("for ", app.name.as_str()),
        }
    }
}

/// Why tokens are fetched anew.
#[derive(Clone, Copy, Debug, PartialEq, Eq, Structural)]
pub enum AuthReason {
    /// The caller insists.
    Forcing,
    /// The stored tokens are about to expire, or could not be had.
    Expired,
    /// The claims of the tokens are held against the desired ones.
    Assertion,
}

/// The word for an [`AuthReason`].
pub open spec fn auth_reason_text(reason: AuthReason) -> Seq<char> {
    match reason {
        AuthReason::Forcing => "Forcing"@,
        AuthReason::Expired => "Expired"@,
        AuthReason::Assertion => "Assertion"@,
    }
}

impl AuthReason {
    /// The reason in a word.
    pub fn to_string(&self) -> (r: String)
        ensures
            r@ == auth_reason_text(*self),
    {
        match self {
            AuthReason::Forcing => "Forcing".to_owned(),
            AuthReason::Expired => "Expired".to_owned(),
            AuthReason::Assertion => "Assertion".to_owned(),
        }
    }
}

/// What is attempted, on whose behalf and why.
#[derive(Debug)]
pub enum TryAuthReason {
    Login((TryReason, AuthReason)),
    Refresh((TryReason, AuthReason)),
}

/// What a [`TryAuthReason`] holds.
pub enum TryAuthReasonView {
    Login(TryReasonView, AuthReason),
    Refresh(TryReasonView, AuthReason),
}

impl View for TryAuthReason {
    type V = TryAuthReasonView;

    open spec fn view(&self) -> TryAuthReasonView {
        match self {
            TryAuthReason::Login(pair) => TryAuthReasonView::Login(pair.0@, pair.1),
            TryAuthReason::Refresh(pair) => TryAuthReasonView::Refresh(pair.0@, pair.1),
        }
    }
}

/// The words for a [`TryAuthReason`].
pub open spec fn try_auth_reason_text(reason: TryAuthReasonView) -> Seq<char> {
    match reason {
        TryAuthReasonView::Login(why, how) => auth_reason_text(how) + " credentials "@
            + try_reason_text(why),
        TryAuthReasonView::Refresh(why, how) => auth_reason_text(how) + " tokens "@
            + try_reason_text(why),
    }
}

impl TryAuthReason {
    /// The attempt in words.
    pub fn to_string(&self) -> (r: String)
        ensures
            r@ == try_auth_reason_text(self@),
    {
        match self {
            TryAuthReason::Login(pair) => {
                let head = concat(pair.1.to_string().as_str(), " credentials ");
                concat(head.as_str(), pair.0.to_string().as_str())
            },
            TryAuthReason::Refresh(pair) => {
                let head = concat(pair.1.to_string().as_str(), " tokens ");
                concat(head.as_str(), pair.0.to_string().as_str())
            },
        }
    }
}

/// A point in time: seconds since the epoch and the nanoseconds into the
/// running second.
#[derive(Clone, Copy, Debug, PartialEq, Eq, Structural)]
pub struct Moment {
    pub seconds: i64,
    pub nanos: u32,
}

/// The margin of safety before the expiry of a token, in seconds: a token
/// that has less than an hour to live is renewed.
pub open spec fn margin() -> int {
    3600
}

/// Whether at `now` a token that expires at `exp` is within the margin: the
/// expiry less the margin lies in the past.
pub open spec fn expires_soon(exp: i64, now: Moment) -> bool {
    exp - margin() < now.seconds || (exp - margin() == now.seconds && now.nanos > 0)
}

/// The first second that `chrono` has a date for: the beginning of the
/// year -262143.
pub open spec fn first_second() -> int {
    -8_334_601_228_800
}

/// The last second that `chrono` has a date for: the end of the year
/// 262142.
pub open spec fn last_second() -> int {
    8_210_266_876_799
}

/// Whether `seconds` since the epoch are a time that `chrono` can
/// represent: one of the years from -262143 to 262142.
pub open spec fn representable(seconds: i64) -> bool {
    first_second() <= seconds <= last_second()
}

/// `chrono::DateTime::from_timestamp` makes a time of seconds since the
/// epoch, and none where the day of the seconds lies outside the years
/// that `chrono` has dates for.
#[verifier::external_body]
fn is_representable(seconds: i64) -> (r: bool)
    ensures
        r == representable(seconds),
{
    chrono::DateTime::from_timestamp(seconds, 0).is_some()
}

/// The content of a token directory: the tokens that are stored in it.
#[derive(Debug, PartialEq, Eq)]
pub struct StoredTokens {
    pub access_token: Option<String>,
    pub id_token: Option<String>,
    pub refresh_token: Option<String>,
}

/// What a [`StoredTokens`] holds.
pub struct StoredView {
    pub access_token: Option<Seq<char>>,
    pub id_token: Option<Seq<char>>,
    pub refresh_token: Option<Seq<char>>,
}

impl View for StoredTokens {
    type V = StoredView;

    open spec fn view(&self) -> StoredView {
        StoredView {
            access_token: self.access_token.deep_view(),
            id_token: self.id_token.deep_view(),
            refresh_token: self.refresh_token.deep_view(),
        }
    }
}

impl Clone for StoredTokens {
    fn clone(&self) -> (r: StoredTokens)
        ensures
            r@ == self@,
    {
        StoredTokens {
            access_token: self.access_token.clone(),
            id_token: self.id_token.clone(),
            refresh_token: self.refresh_token.clone(),
        }
    }
}

impl StoredView {
    /// The token of one kind.
    pub open spec fn token(self, kind: AuthToken) -> Option<Seq<char>> {
        match kind {
            AuthToken::Access => self.access_token,
            AuthToken::Id => self.id_token,
            AuthToken::Refresh => self.refresh_token,
        }
    }

    /// The directory after `tokens` have been written: each token that the
    /// bundle holds replaces the stored one, each that it lacks leaves the
    /// stored one as it is.
    pub open spec fn written(self, tokens: TokensView) -> StoredView {
        StoredView {
            access_token: if tokens.access_token is Some {
                tokens.access_token
            } else {
                self.access_token
            },
            id_token: if tokens.id_token is Some {
                tokens.id_token
            } else {
                self.id_token
            },
            refresh_token: if tokens.refresh_token is Some {
                tokens.refresh_token
            } else {
                self.refresh_token
            },
        }
    }

    /// The stored tokens as a bundle.
    pub open spec fn bundle(self) -> TokensView {
        TokensView {
            access_token: self.access_token,
            refresh_token: self.refresh_token,
            id_token: self.id_token,
            error: None,
            error_description: None,
        }
    }
}

/// The empty directory.
pub open spec fn nothing_stored() -> StoredView {
    StoredView { access_token: None, id_token: None, refresh_token: None }
}

/// The files that writing `tokens` touches, in the order of writing.
pub open spec fn files_written(tokens: TokensView) -> Seq<(AuthToken, Seq<char>)> {
    (if tokens.access_token is Some {
        seq![(AuthToken::Access, tokens.access_token->0)]
    } else {
        Seq::empty()
    }) + (if tokens.id_token is Some {
        seq![(AuthToken::Id, tokens.id_token->0)]
    } else {
        Seq::empty()
    }) + (if tokens.refresh_token is Some {
        seq![(AuthToken::Refresh, tokens.refresh_token->0)]
    } else {
        Seq::empty()
    })
}

/// What a list of files to write holds.
pub open spec fn files_view(files: Seq<(AuthToken, String)>) -> Seq<(AuthToken, Seq<char>)> {
    Seq::new(files.len(), |i: int| (files[i].0, files[i].1@))
}

impl StoredTokens {
    /// The empty directory.
    pub fn empty() -> (r: StoredTokens)
        ensures
            r@ == nothing_stored(),
    {
        StoredTokens { access_token: None, id_token: None, refresh_token: None }
    }

    /// The token of one kind.
    pub fn token(&self, kind: AuthToken) -> (r: Option<&String>)
        ensures
            r.deep_view() == self@.token(kind),
    {
        match kind {
            AuthToken::Access => self.access_token.as_ref(),
            AuthToken::Id => self.id_token.as_ref(),
            AuthToken::Refresh => self.refresh_token.as_ref(),
        }
    }

    /// Takes over the tokens that `tokens` holds, as writing them does.
    pub fn write(&mut self, tokens: &AccessTokenResponse)
        ensures
            final(self)@ == old(self)@.written(tokens@),
    {
        if let Some(token) = &tokens.access_token {
            self.access_token = Some(token.clone());
        }
        if let Some(token) = &tokens.id_token {
            self.id_token = Some(token.clone());
        }
        if let Some(token) = &tokens.refresh_token {
            self.refresh_token = Some(token.clone());
        }
    }
}

/// The first organization of `orgs` that has `name` for its id or for its
/// name: its id.
pub open spec fn find_org(orgs: Entries, name: Seq<char>) -> Option<Seq<char>>
    decreases orgs.len(),
{
    if orgs.len() == 0 {
        None
    } else if orgs[0].0 == name || orgs[0].1 == name {
        Some(orgs[0].0)
    } else {
        find_org(orgs.drop_first(), name)
    }
}

/// What a token repository holds.
pub struct RepositoryView {
    pub auth_n: AuthNView,
    /// The directory of the tokens.
    pub auth_dir: Seq<char>,
    pub organization_id: Option<Seq<char>>,
    pub force: bool,
    pub scopes: Seq<Seq<char>>,
    pub default_scopes: Seq<char>,
    pub desired_claims: ClaimsView,
}

/// The scopes that every login asks for.
pub open spec fn default_scopes() -> Seq<char> {
    "openid email offline_access login:cli"@
}

/// The repository of a new session.
pub open spec fn new_repository(auth_n: AuthNView, auth_dir: Seq<char>) -> RepositoryView {
    RepositoryView {
        auth_n,
        auth_dir,
        organization_id: None,
        force: false,
        scopes: with_scopes(Seq::empty(), split_on(default_scopes(), ' ')),
        default_scopes: default_scopes(),
        desired_claims: no_claims(),
    }
}

/// The expiry of an optional token, for which the time of asking stands in
/// where there is no token, or none with an expiry.
pub open spec fn expiry_of(token: Option<Seq<char>>, now: Moment) -> Result<i64, AuthErrorView> {
    match token {
        None => checked_expiry(now.seconds),
        Some(t) => match token_claims(t) {
            Err(fault) => Err(AuthErrorView::Token(fault)),
            Ok(claims) => checked_expiry(
                match claims.exp {
                    Some(exp) => exp,
                    None => now.seconds,
                },
            ),
        },
    }
}

/// The expiry, if it is a time that can be represented.
pub open spec fn checked_expiry(seconds: i64) -> Result<i64, AuthErrorView> {
    if representable(seconds) {
        Ok(seconds)
    } else {
        Err(AuthErrorView::ExpiryOutOfRange)
    }
}

/// Whether the stored tokens are due for a refresh: the identity token or the
/// access token is within the margin of its expiry.
pub open spec fn refresh_due(stored: StoredView, now: Moment) -> Result<bool, AuthErrorView> {
    match expiry_of(stored.id_token, now) {
        Err(e) => Err(e),
        Ok(id_expiry) => match expiry_of(stored.access_token, now) {
            Err(e) => Err(e),
            Ok(access_expiry) => Ok(expires_soon(access_expiry, now) || expires_soon(id_expiry, now)),
        },
    }
}

/// What an expiry, or the failure to find it, holds.
pub open spec fn expiry_view(r: Result<i64, AuthError>) -> Result<i64, AuthErrorView> {
    match r {
        Ok(seconds) => Ok(seconds),
        Err(e) => Err(e@),
    }
}

/// What an answer, or the failure to find it, holds.
pub open spec fn answer_view(r: Result<bool, AuthError>) -> Result<bool, AuthErrorView> {
    match r {
        Ok(b) => Ok(b),
        Err(e) => Err(e@),
    }
}

/// What optional claims, or the fault in the token, hold.
pub open spec fn optional_claims_view(r: Result<Option<Claims>, crate::decode::TokenFault>)
    -> Result<Option<ClaimsView>, crate::decode::TokenFault> {
    match r {
        Ok(Some(c)) => Ok(Some(c@)),
        Ok(None) => Ok(None),
        Err(e) => Err(e),
    }
}

/// The claims of an optional token.
pub open spec fn stored_claims(token: Option<Seq<char>>) -> Result<
    Option<ClaimsView>,
    crate::decode::TokenFault,
> {
    match token {
        None => Ok(None),
        Some(t) => match token_claims(t) {
            Ok(c) => Ok(Some(c)),
            Err(e) => Err(e),
        },
    }
}

/// The id of the organization that a login may be narrowed to, or why there
/// is none: all three tokens have to be stored, and the identity token has
/// to name the organization among its memberships.
pub open spec fn organization_of(stored: StoredView, name: Seq<char>) -> Result<
    Seq<char>,
    AuthErrorView,
> {
    if !(stored.id_token is Some && stored.access_token is Some && stored.refresh_token is Some) {
        Err(AuthErrorView::NotLoggedIn)
    } else {
        match token_claims(stored.id_token->0) {
            Err(fault) => Err(AuthErrorView::Token(fault)),
            Ok(claims) => match claims.orgs {
                None => Err(AuthErrorView::OrganizationNotFound),
                Some(orgs) => match find_org(orgs, name) {
                    None => Err(AuthErrorView::OrganizationNotFound),
                    Some(id) => Ok(id),
                },
            },
        }
    }
}

/// The claim set that asks for the organization `name` and nothing else.
pub open spec fn org_claim(name: Seq<char>) -> ClaimsView {
    ClaimsView {
        exp: None,
        scope: None,
        email: None,
        login_kubernetes: None,
        orgs: None,
        org: Some(name),
        permissions: None,
        roles: None,
    }
}

/// The scope that narrows a login to an organization.
pub open spec fn org_scope(id: Seq<char>) -> Seq<char> {
    "org:"@ + id
}

/// The lines that tell who is logged in.
pub open spec fn identity_lines(claims: ClaimsView) -> Seq<char> {
    match (claims.email, claims.org) {
        (Some(email), Some(org)) => joined(
            seq![
                "Email: "@ + email,
                "Organization: "@ + org,
                "Permissions: "@ + (match claims.permissions {
                    Some(permissions) => joined(permissions, ", "@),
                    None => "None"@,
                }),
            ],
            "\n"@,
        ),
        (Some(email), None) => "Email: "@ + email,
        _ => Seq::empty(),
    }
}

/// What the repository says of the identity behind the stored tokens.
pub open spec fn identity_text(stored: StoredView) -> Seq<char> {
    match stored_claims(stored.id_token) {
        Ok(Some(claims)) => identity_lines(claims),
        _ => "Not logged in"@,
    }
}

/// The scopes that the stored access token carries, or else the default
/// ones.
pub open spec fn granted_scopes(repository: RepositoryView, stored: StoredView) -> Seq<char> {
    match lenient_claims(stored.access_token).scope {
        Some(scope) => scope,
        None => repository.default_scopes,
    }
}

/// The scopes of the repository after those granted before have been added.
pub open spec fn all_scopes(repository: RepositoryView, stored: StoredView) -> Seq<Seq<char>> {
    with_scopes(repository.scopes, split_on(granted_scopes(repository, stored), ' '))
}

/// The scope string that a request carries.
pub open spec fn scope_text(repository: RepositoryView, stored: StoredView) -> Seq<char> {
    joined(all_scopes(repository, stored), " "@)
}

/// Each text with `prefix` before it.
pub open spec fn prefixed(prefix: Seq<char>, texts: Seq<Seq<char>>) -> Seq<Seq<char>> {
    Seq::new(texts.len(), |i: int| prefix + texts[i])
}

/// The hints on the authentication context: the organization, each scope,
/// and what the configuration adds.
pub open spec fn acr_values(repository: RepositoryView, stored: StoredView) -> Seq<Seq<char>> {
    (match repository.organization_id {
        Some(id) => seq!["urn:auth:acr:organization-id:"@ + id],
        None => Seq::empty(),
    }) + prefixed("urn:auth:acr:scope:"@, split_on(scope_text(repository, stored), ' ')) + (
    match repository.auth_n.acr_values {
        Some(values) => values,
        None => Seq::empty(),
    })
}

/// The form fields that carry the hints.
pub open spec fn acr_form(repository: RepositoryView, stored: StoredView) -> Entries {
    if acr_values(repository, stored).len() > 0 {
        seq![("acr_values"@, joined(acr_values(repository, stored), " "@))]
    } else {
        Seq::empty()
    }
}

/// For whom tokens are kept, and what is asked of them.
#[derive(Debug)]
pub struct TokenRepository {
    pub auth_n: AuthN,
    pub auth_dir: String,
    pub organization_id: Option<String>,
    pub force: bool,
    pub scopes: ScopeSet,
    pub default_scopes: String,
    pub desired_claims: Claims,
}

impl View for TokenRepository {
    type V = RepositoryView;

    open spec fn view(&self) -> RepositoryView {
        RepositoryView {
            auth_n: self.auth_n@,
            auth_dir: self.auth_dir@,
            organization_id: self.organization_id.deep_view(),
            force: self.force,
            scopes: self.scopes@,
            default_scopes: self.default_scopes@,
            desired_claims: self.desired_claims@,
        }
    }
}

impl Clone for TokenRepository {
    fn clone(&self) -> (r: TokenRepository)
        ensures
            r@ == self@,
    {
        TokenRepository {
            auth_n: self.auth_n.clone(),
            auth_dir: self.auth_dir.clone(),
            organization_id: self.organization_id.clone(),
            force: self.force,
            scopes: self.scopes.clone(),
            default_scopes: self.default_scopes.clone(),
            desired_claims: self.desired_claims.clone(),
        }
    }
}

impl TokenRepository {
    /// The repository of a new session, which asks for the default scopes
    /// and for no claims. The caller sees to it that the directory exists.
    pub fn new(auth_n: &AuthN, auth_dir: &str) -> (r: TokenRepository)
        ensures
            r@ == new_repository(auth_n@, auth_dir@),
    {
        let mut repository = TokenRepository {
            auth_n: auth_n.clone(),
            auth_dir: auth_dir.to_owned(),
            organization_id: None,
            force: false,
            scopes: ScopeSet::new(),
            default_scopes: "openid email offline_access login:cli".to_owned(),
            desired_claims: Claims::default(),
        };
        repository.add_scopes("openid email offline_access login:cli");
        repository
    }

    /// Adds each scope of a list that is separated by spaces.
    fn add_scopes(&mut self, list: &str)
        ensures
            final(self)@ == (RepositoryView {
                scopes: with_scopes(old(self)@.scopes, split_on(list@, ' ')),
                ..old(self)@
            }),
    {
        let pieces = split(list, ' ');
        let mut i: usize = 0;
        assert(pieces.deep_view().take(0) =~= Seq::<Seq<char>>::empty());
        while i < pieces.len()
            invariant
                i <= pieces.len(),
                self@ == (RepositoryView {
                    scopes: with_scopes(old(self)@.scopes, pieces.deep_view().take(i as int)),
                    ..old(self)@
                }),
            decreases pieces.len() - i,
        {
            self.scopes.insert(pieces[i].as_str());
            assert(pieces.deep_view().take(i as int + 1).drop_last() =~= pieces.deep_view().take(
                i as int,
            ));
            assert(pieces.deep_view().take(i as int + 1).last() == pieces[i as int]@);
            i = i + 1;
        }
        assert(pieces.deep_view().take(i as int) =~= pieces.deep_view());
    }

    /// Makes the next login or refresh skip every check of freshness.
    pub fn force(&mut self)
        ensures
            final(self)@ == (RepositoryView { force: true, ..old(self)@ }),
    {
        self.force = true;
    }

    /// Asks for one more scope, and for the claims that go with it.
    pub fn with_scope(&mut self, scope: &str, desired_claims: Claims)
        ensures
            final(self)@ == (RepositoryView {
                scopes: with_scope(old(self)@.scopes, scope@),
                desired_claims: merged(old(self)@.desired_claims, desired_claims@),
                ..old(self)@
            }),
    {
        self.scopes.insert(scope);
        self.desired_claims.merge(desired_claims);
    }

    /// Narrows the repository to an organization, given by id or by name:
    /// the tokens move to a directory of the organization, the scope of the
    /// organization is asked for, and so is the claim that names it. The
    /// caller sees to it that the new directory exists.
    pub fn with_organization(&mut self, organization: &String, stored: &StoredTokens) -> (r: Result<
        (),
        AuthError,
    >)
        ensures
            match organization_of(stored@, organization@) {
                Err(e) => r matches Err(f) && f@ == e && final(self)@ == old(self)@,
                Ok(id) => r is Ok && final(self)@ == (RepositoryView {
                    organization_id: Some(id),
                    auth_dir: path_join(old(self)@.auth_dir, id),
                    scopes: with_scope(old(self)@.scopes, org_scope(id)),
                    desired_claims: merged(old(self)@.desired_claims, org_claim(organization@)),
                    ..old(self)@
                }),
            },
    {
        if !(stored.id_token.is_some() && stored.access_token.is_some()
            && stored.refresh_token.is_some()) {
            return Err(AuthError::NotLoggedIn);
        }
        let claims = match self.read_claims(AuthToken::Id, stored) {
            Err(fault) => {
                return Err(AuthError::Token(fault));
            },
            Ok(None) => {
                return Err(AuthError::NotLoggedIn);
            },
            Ok(Some(claims)) => claims,
        };
        let id = match &claims.orgs {
            None => {
                return Err(AuthError::OrganizationNotFound);
            },
            Some(orgs) => match find_organization(orgs, organization.as_str()) {
                None => {
                    return Err(AuthError::OrganizationNotFound);
                },
                Some(id) => id,
            },
        };
        self.with_organization_id(&id);
        let scope = concat("org:", id.as_str());
        let mut desired = Claims::default();
        desired.org = Some(organization.clone());
        self.with_scope(scope.as_str(), desired);
        Ok(())
    }

    /// Moves the tokens to the directory of an organization.
    fn with_organization_id(&mut self, organization_id: &String)
        ensures
            final(self)@ == (RepositoryView {
                organization_id: Some(organization_id@),
                auth_dir: path_join(old(self)@.auth_dir, organization_id@),
                ..old(self)@
            }),
    {
        self.organization_id = Some(organization_id.clone());
        self.auth_dir = join_path(self.auth_dir.as_str(), organization_id.as_str());
    }

    /// Turns the repository into that of an application: the client
    /// configuration is the application's, the tokens move to a directory of
    /// the application, and the scopes and claims asked for so far are dropped.
    /// The caller sees to it that the new directory exists.
    pub fn with_app(&mut self, app: &App) -> (r: Result<(), ConfigFault>)
        ensures
            match app@.auth_n {
                None => r == Err::<(), ConfigFault>(ConfigFault::MissingAuthN) && final(self)@
                    == old(self)@,
                Some(auth_n) => r is Ok && final(self)@ == (RepositoryView {
                    auth_n,
                    auth_dir: path_join(old(self)@.auth_dir, "app_"@ + app@.client_id),
                    scopes: Seq::empty(),
                    default_scopes: Seq::empty(),
                    desired_claims: no_claims(),
                    ..old(self)@
                }),
            },
    {
        let auth_n = match &app.auth_n {
            None => {
                return Err(ConfigFault::MissingAuthN);
            },
            Some(auth_n) => auth_n.clone(),
        };
        let part = concat("app_", app.client_id.as_str());
        self.auth_n = auth_n;
        self.auth_dir = join_path(self.auth_dir.as_str(), part.as_str());
        self.scopes = ScopeSet::new();
        self.default_scopes = String::new();
        self.desired_claims = Claims::default();
        Ok(())
    }

    /// The stored token of one kind.
    pub fn read_token<'a>(&self, token_type: AuthToken, stored: &'a StoredTokens) -> (r: Option<
        &'a String,
    >)
        ensures
            r.deep_view() == stored@.token(token_type),
    {
        stored.token(token_type)
    }

    /// The claims of the stored token of one kind: none without a token, a
    /// fault for a token that cannot be read.
    pub fn read_claims(&self, token_type: AuthToken, stored: &StoredTokens) -> (r: Result<
        Option<Claims>,
        crate::decode::TokenFault,
    >)
        ensures
            optional_claims_view(r) == stored_claims(stored@.token(token_type)),
    {
        match stored.token(token_type) {
            None => Ok(None),
            Some(token) => match Claims::decode(token.as_str()) {
                Ok(claims) => Ok(Some(claims)),
                Err(fault) => Err(fault),
            },
        }
    }

    /// Whether a login has left its tokens: the identity token and the access
    /// token are stored. The refresh token is not asked for here; without it
    /// there is no silent refresh.
    pub fn is_logged_in(&self, stored: &StoredTokens) -> (r: bool)
        ensures
            r == (stored@.id_token is Some && stored@.access_token is Some),
    {
        stored.id_token.is_some() && stored.access_token.is_some()
    }

    /// When the stored token of one kind expires, in seconds since the epoch.
    pub fn read_expiration(&self, token_type: AuthToken, stored: &StoredTokens, now: Moment) -> (r:
        Result<i64, AuthError>)
        ensures
            expiry_view(r) == expiry_of(stored@.token(token_type), now),
    {
        let exp = match self.read_claims(token_type, stored) {
            Err(fault) => {
                return Err(AuthError::Token(fault));
            },
            Ok(None) => now.seconds,
            Ok(Some(claims)) => match claims.exp {
                Some(exp) => exp,
                None => now.seconds,
            },
        };
        if is_representable(exp) {
            Ok(exp)
        } else {
            Err(AuthError::ExpiryOutOfRange)
        }
    }

    /// Whether the stored tokens are due for a refresh at `now`.
    pub fn should_refresh(&self, stored: &StoredTokens, now: Moment) -> (r: Result<bool, AuthError>)
        ensures
            answer_view(r) == refresh_due(stored@, now),
    {
        let id_expiry = self.read_expiration(AuthToken::Id, stored, now)?;
        let access_expiry = self.read_expiration(AuthToken::Access, stored, now)?;
        Ok(within_margin(access_expiry, now) || within_margin(id_expiry, now))
    }

    /// The files that writing `tokens` touches, each with what goes into it.
    /// A token that the bundle lacks is not among them, so that its file stays
    /// as it is.
    pub fn write_tokens(&self, tokens: &AccessTokenResponse) -> (r: Vec<(AuthToken, String)>)
        ensures
            files_view(r@) == files_written(tokens@),
    {
        let mut files: Vec<(AuthToken, String)> = Vec::new();
        if let Some(token) = &tokens.access_token {
            files.push((AuthToken::Access, token.clone()));
        }
        if let Some(token) = &tokens.id_token {
            files.push((AuthToken::Id, token.clone()));
        }
        if let Some(token) = &tokens.refresh_token {
            files.push((AuthToken::Refresh, token.clone()));
        }
        assert(files_view(files@) =~= files_written(tokens@));
        files
    }

    /// The stored tokens as a bundle, as they are.
    pub fn read_tokens(&self, stored: &StoredTokens) -> (r: AccessTokenResponse)
        ensures
            r@ == stored@.bundle(),
    {
        AccessTokenResponse {
            access_token: stored.access_token.clone(),
            refresh_token: stored.refresh_token.clone(),
            id_token: stored.id_token.clone(),
            error: None,
            error_description: None,
        }
    }

    /// The directory of the tokens.
    pub fn auth_root(&self) -> (r: &str)
        ensures
            r@ == self@.auth_dir,
    {
        self.auth_dir.as_str()
    }

    /// The file of the token of one kind.
    pub fn token_path(&self, token_type: AuthToken) -> (r: String)
        ensures
            r@ == path_join(self@.auth_dir, token_file_name(token_type)),
    {
        join_path(self.auth_dir.as_str(), token_type.to_string().as_str())
    }

    /// Tells who is logged in.
    pub fn to_string(&self, stored: &StoredTokens) -> (r: String)
        ensures
            r@ == identity_text(stored@),
    {
        match self.read_claims(AuthToken::Id, stored) {
            Ok(Some(claims)) => describe_identity(&claims),
            _ => "Not logged in".to_owned(),
        }
    }

    /// The scope string of the next request: the scopes asked for so far
    /// and those that the stored access token carries, or else the default
    /// ones. The scopes of the token are asked for from now on.
    pub fn scope_str(&mut self, stored: &StoredTokens) -> (r: String)
        ensures
            r@ == scope_text(old(self)@, stored@),
            final(self)@ == (RepositoryView {
                scopes: all_scopes(old(self)@, stored@),
                ..old(self)@
            }),
    {
        let claims = Claims::of_token(stored.access_token.as_ref());
        let granted = match claims.scope {
            Some(scope) => scope,
            None => self.default_scopes.clone(),
        };
        self.add_scopes(granted.as_str());
        join(&self.scopes.to_vec(), " ")
    }

    /// The form fields that carry the hints on the authentication context.
    pub fn acr_values_form_data(&mut self, stored: &StoredTokens) -> (r: Vec<(String, String)>)
        ensures
            r.deep_view() == acr_form(old(self)@, stored@),
            final(self)@ == (RepositoryView {
                scopes: all_scopes(old(self)@, stored@),
                ..old(self)@
            }),
    {
        let mut values: Vec<String> = Vec::new();
        if let Some(id) = &self.organization_id {
            values.push(concat("urn:auth:acr:organization-id:", id.as_str()));
        }
        let ghost head = values.deep_view();
        assert(head =~= (match old(self)@.organization_id {
            Some(id) => seq!["urn:auth:acr:organization-id:"@ + id],
            None => Seq::empty(),
        }));
        let scope = self.scope_str(stored);
        let pieces = split(scope.as_str(), ' ');
        let ghost scoped = prefixed("urn:auth:acr:scope:"@, pieces.deep_view());
        let mut i: usize = 0;
        while i < pieces.len()
            invariant
                i <= pieces.len(),
                scoped == prefixed("urn:auth:acr:scope:"@, pieces.deep_view()),
                values.deep_view() == head + scoped.take(i as int),
            decreases pieces.len() - i,
        {
            let ghost before = values.deep_view();
            let value = concat("urn:auth:acr:scope:", pieces[i].as_str());
            values.push(value);
            assert(values.deep_view() =~= before.push(value@));
            assert(values.deep_view() =~= head + scoped.take(i as int + 1));
            i = i + 1;
        }
        assert(scoped.take(i as int) =~= scoped);
        if let Some(more) = &self.auth_n.acr_values {
            let mut k: usize = 0;
            while k < more.len()
                invariant
                    k <= more.len(),
                    values.deep_view() == head + scoped + more.deep_view().take(k as int),
                decreases more.len() - k,
            {
                let ghost before = values.deep_view();
                let value = more[k].clone();
                values.push(value);
                assert(values.deep_view() =~= before.push(value@));
                assert(values.deep_view() =~= head + scoped + more.deep_view().take(k as int + 1));
                k = k + 1;
            }
            assert(more.deep_view().take(k as int) =~= more.deep_view());
        }
        assert(values.deep_view() =~= acr_values(old(self)@, stored@));
        let mut form: Vec<(String, String)> = Vec::new();
        if values.len() > 0 {
            let value = join(&values, " ");
            form.push(("acr_values".to_owned(), value));
            assert(form.deep_view() =~= seq![("acr_values"@, value@)]);
        } else {
            assert(form.deep_view() =~= Seq::<(Seq<char>, Seq<char>)>::empty());
        }
        form
    }
}

/// The margin is an hour: 59 minutes before its expiry a token is due,
/// 61 minutes before it is not, and the hour itself is the turning point.
pub proof fn law_freshness_margin(exp: i64, now: Moment)
    ensures
        now.seconds == exp - 59 * 60 ==> expires_soon(exp, now),
        now.seconds == exp - 61 * 60 ==> !expires_soon(exp, now),
        now.seconds > exp - 3600 ==> expires_soon(exp, now),
        now.seconds < exp - 3600 ==> !expires_soon(exp, now),
{
}

/// The stored tokens are due as soon as either of the two is: with both
/// expiries readable, the answer is that of the earlier one.
pub proof fn law_refresh_is_due_for_the_earlier_expiry(stored: StoredView, now: Moment)
    requires
        expiry_of(stored.id_token, now) is Ok,
        expiry_of(stored.access_token, now) is Ok,
    ensures
        refresh_due(stored, now) == Ok::<bool, AuthErrorView>(
            expires_soon(
                if expiry_of(stored.id_token, now)->Ok_0 < expiry_of(stored.access_token, now)->Ok_0 {
                    expiry_of(stored.id_token, now)->Ok_0
                } else {
                    expiry_of(stored.access_token, now)->Ok_0
                },
                now,
            ),
        ),
{
}

/// Writing a bundle that lacks a token leaves the stored token of that
/// kind as it is: its file is not among those written, and reading it
/// afterwards gives what was there before.
pub proof fn law_write_keeps_what_the_bundle_lacks(
    stored: StoredView,
    tokens: TokensView,
    kind: AuthToken,
)
    requires
        tokens.bundle_token(kind) is None,
    ensures
        stored.written(tokens).token(kind) == stored.token(kind),
        forall|i: int|
            0 <= i < files_written(tokens).len() ==> (#[trigger] files_written(tokens)[i]).0
                != kind,
{
}

/// Writing a bundle stores each token that it holds.
pub proof fn law_write_stores_what_the_bundle_holds(
    stored: StoredView,
    tokens: TokensView,
    kind: AuthToken,
)
    requires
        tokens.bundle_token(kind) is Some,
    ensures
        stored.written(tokens).token(kind) == tokens.bundle_token(kind),
        exists|i: int|
            0 <= i < files_written(tokens).len() && files_written(tokens)[i] == (
                kind,
                tokens.bundle_token(kind)->0,
            ),
{
    let files = files_written(tokens);
    let a: int = if tokens.access_token is Some {
        1
    } else {
        0
    };
    let b: int = if tokens.id_token is Some {
        1
    } else {
        0
    };
    match kind {
        AuthToken::Access => {
            assert(files[0] == (kind, tokens.bundle_token(kind)->0));
        },
        AuthToken::Id => {
            assert(files[a] == (kind, tokens.bundle_token(kind)->0));
        },
        AuthToken::Refresh => {
            assert(files[a + b] == (kind, tokens.bundle_token(kind)->0));
        },
    }
}

/// Whether at `now` a token that expires at `exp` is within the margin.
pub fn within_margin(exp: i64, now: Moment) -> (r: bool)
    ensures
        r == expires_soon(exp, now),
{
    let due: i128 = exp as i128 - 3600;
    let seconds: i128 = now.seconds as i128;
    due < seconds || (due == seconds && now.nanos > 0)
}

/// Finds the organization that has `name` for its id or for its name.
pub fn find_organization(orgs: &StringMap, name: &str) -> (r: Option<String>)
    ensures
        r.deep_view() == find_org(orgs@, name@),
{
    let mut i: usize = 0;
    assert(orgs@.skip(0) =~= orgs@);
    while i < orgs.len()
        invariant
            i <= orgs@.len(),
            find_org(orgs@, name@) == find_org(orgs@.skip(i as int), name@),
        decreases orgs@.len() - i,
    {
        assert(orgs@.skip(i as int)[0] == orgs@[i as int]);
        if same_text(orgs.key_at(i).as_str(), name) || same_text(orgs.value_at(i).as_str(), name) {
            return Some(orgs.key_at(i).clone());
        }
        assert(orgs@.skip(i as int).drop_first() =~= orgs@.skip(i as int + 1));
        i = i + 1;
    }
    None
}

/// Tells whom the claims are about.
pub fn describe_identity(claims: &Claims) -> (r: String)
    ensures
        r@ == identity_lines(claims@),
{
    match (&claims.email, &claims.org) {
        (Some(email), Some(org)) => {
            let permissions = match &claims.permissions {
                Some(permissions) => join(permissions, ", "),
                None => "None".to_owned(),
            };
            let mut lines: Vec<String> = Vec::new();
            lines.push(concat("Email: ", email.as_str()));
            lines.push(concat("Organization: ", org.as_str()));
            lines.push(concat("Permissions: ", permissions.as_str()));
            assert(lines.deep_view() =~= seq![
                "Email: "@ + email@,
                "Organization: "@ + org@,
                "Permissions: "@ + permissions@,
            ]);
            proof {
                let all = lines.deep_view();
                assert(all.drop_last() =~= seq!["Email: "@ + email@, "Organization: "@ + org@]);
                assert(all.drop_last().drop_last() =~= seq!["Email: "@ + email@]);
                reveal_with_fuel(joined, 4);
            }
            join(&lines, "\n")
        },
        (Some(email), None) => concat("Email: ", email.as_str()),
        _ => String::new(),
    }
}

} // verus!
