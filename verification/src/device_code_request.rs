//! The request for tokens as a single decision: with the refresh token
//! that is stored, and knowing whether the access token is about to
//! expire, what is to be done.

use crate::scopes::with_scopes;
use crate::scopes::ScopeSet;
use crate::string_map::put;
use crate::string_map::Entries;
use crate::string_map::StringMap;
use crate::text::concat;
use crate::text::join;
use crate::text::joined;
use crate::text::split;
use crate::text::split_on;
use vstd::prelude::*;

verus! {

/// A request for tokens in the making.
#[derive(Debug, PartialEq, Eq)]
pub struct DeviceCodeRequest {
    pub client_id: String,
    /// The scopes asked for, separated by spaces, in order.
    pub scope: String,
    pub audience: String,
    interactive: bool,
    force: bool,
    organization_id: Option<String>,
}

/// What a [`DeviceCodeRequest`] holds.
pub struct DeviceCodeRequestView {
    pub client_id: Seq<char>,
    pub scope: Seq<char>,
    pub audience: Seq<char>,
    pub interactive: bool,
    pub force: bool,
    pub organization_id: Option<Seq<char>>,
}

impl View for DeviceCodeRequest {
    type V = DeviceCodeRequestView;

    closed spec fn view(&self) -> DeviceCodeRequestView {
        DeviceCodeRequestView {
            client_id: self.client_id@,
            scope: self.scope@,
            audience: self.audience@,
            interactive: self.interactive,
            force: self.force,
            organization_id: self.organization_id.deep_view(),
        }
    }
}

/// What is to be done to get tokens.
#[derive(Debug, PartialEq, Eq)]
pub enum Exchange {
    /// Nothing can be done without a login, and none is forced.
    NotLoggedIn,
    /// A login is due, and nobody is there to approve it.
    NotInteractive { force: bool },
    /// The operator logs in with a device code.
    DeviceFlow,
    /// The tokens are renewed with this refresh token.
    Refresh { refresh_token: String },
    /// The stored tokens will do.
    Current,
}

/// What an [`Exchange`] holds.
pub enum ExchangeView {
    NotLoggedIn,
    NotInteractive { force: bool },
    DeviceFlow,
    Refresh { refresh_token: Seq<char> },
    Current,
}

impl View for Exchange {
    type V = ExchangeView;

    open spec fn view(&self) -> ExchangeView {
        match self {
            Exchange::NotLoggedIn => ExchangeView::NotLoggedIn,
            Exchange::NotInteractive { force } => ExchangeView::NotInteractive { force: *force },
            Exchange::DeviceFlow => ExchangeView::DeviceFlow,
            Exchange::Refresh { refresh_token } => ExchangeView::Refresh {
                refresh_token: refresh_token@,
            },
            Exchange::Current => ExchangeView::Current,
        }
    }
}

/// The scopes that are asked for without saying.
pub open spec fn implicit_scopes() -> Seq<char> {
    "openid email offline_access"@
}

/// The scope list `scopes` with `scope` in it: in order, each scope once.
pub open spec fn scope_list_with(scopes: Seq<char>, scope: Seq<char>) -> Seq<char> {
    joined(with_scopes(Seq::empty(), split_on(scopes, ' ').push(scope)), " "@)
}

/// What is to be done: without a refresh token a login, which has to be
/// forced; a forced login in any case; with a refresh token a refresh
/// where the access token is about to expire; and else nothing.
pub open spec fn exchange_of(
    request: DeviceCodeRequestView,
    refresh_token: Option<Seq<char>>,
    expiring: bool,
) -> ExchangeView {
    if refresh_token is None && !request.force {
        ExchangeView::NotLoggedIn
    } else if refresh_token is None || request.force {
        if request.interactive {
            ExchangeView::DeviceFlow
        } else {
            ExchangeView::NotInteractive { force: request.force }
        }
    } else if expiring {
        ExchangeView::Refresh { refresh_token: refresh_token->0 }
    } else {
        ExchangeView::Current
    }
}

/// The form of the refresh grant, with the organization as a hint on the
/// authentication context where there is one.
pub open spec fn refresh_fields(request: DeviceCodeRequestView, refresh_token: Seq<char>)
    -> Entries {
    let base = put(
        put(put(Seq::empty(), "grant_type"@, "refresh_token"@), "client_id"@, request.client_id),
        "refresh_token"@,
        refresh_token,
    );
    match request.organization_id {
        Some(id) => put(base, "acr_values"@, "urn:auth:acr:organization-id:"@ + id),
        None => base,
    }
}

/// The form that asks for a device code.
pub open spec fn device_fields(request: DeviceCodeRequestView) -> Entries {
    put(
        put(put(Seq::empty(), "client_id"@, request.client_id), "scope"@, request.scope),
        "audience"@,
        request.audience,
    )
}

impl DeviceCodeRequest {
    /// A request of a client for an audience: interactive, not forced, for
    /// the scopes that go without saying.
    pub fn new(client_id: &str, audience: &str) -> (r: DeviceCodeRequest)
        ensures
            r@ == (DeviceCodeRequestView {
                client_id: client_id@,
                scope: implicit_scopes(),
                audience: audience@,
                interactive: true,
                force: false,
                organization_id: None,
            }),
    {
        DeviceCodeRequest {
            client_id: client_id.to_owned(),
            scope: "openid email offline_access".to_owned(),
            audience: audience.to_owned(),
            interactive: true,
            force: false,
            organization_id: None,
        }
    }

    /// Asks for one more scope.
    pub fn with_scope(self, scope: &str) -> (r: DeviceCodeRequest)
        ensures
            r@ == (DeviceCodeRequestView { scope: scope_list_with(self@.scope, scope@), ..self@ }),
    {
        let pieces = split(self.scope.as_str(), ' ');
        let mut scopes = ScopeSet::new();
        let mut i: usize = 0;
        let ghost all = pieces.deep_view().push(scope@);
        assert(all.take(0) =~= Seq::<Seq<char>>::empty());
        while i < pieces.len()
            invariant
                i <= pieces.len(),
                all == pieces.deep_view().push(scope@),
                scopes@ == with_scopes(Seq::empty(), all.take(i as int)),
            decreases pieces.len() - i,
        {
            scopes.insert(pieces[i].as_str());
            assert(all.take(i as int + 1).drop_last() =~= all.take(i as int));
            assert(all.take(i as int + 1).last() == pieces[i as int]@);
            i = i + 1;
        }
        scopes.insert(scope);
        assert(all.drop_last() =~= all.take(i as int));
        DeviceCodeRequest {
            client_id: self.client_id,
            scope: join(&scopes.to_vec(), " "),
            audience: self.audience,
            interactive: self.interactive,
            force: self.force,
            organization_id: self.organization_id,
        }
    }

    /// Narrows the request to an organization: its scope is added to those
    /// that were granted before, or else to those that go without saying.
    pub fn with_organization(self, organization_id: &str, granted: Option<&String>) -> (r:
        DeviceCodeRequest)
        ensures
            r@ == (DeviceCodeRequestView {
                scope: scope_list_with(
                    match granted {
                        Some(g) => g@,
                        None => implicit_scopes(),
                    },
                    "org:"@ + organization_id@,
                ),
                organization_id: Some(organization_id@),
                ..self@
            }),
    {
        let base = DeviceCodeRequest {
            client_id: self.client_id,
            scope: match granted {
                Some(g) => g.clone(),
                None => "openid email offline_access".to_owned(),
            },
            audience: self.audience,
            interactive: self.interactive,
            force: self.force,
            organization_id: Some(organization_id.to_owned()),
        };
        base.with_scope(concat("org:", organization_id).as_str())
    }

    pub fn interactive(self, interactive: bool) -> (r: DeviceCodeRequest)
        ensures
            r@ == (DeviceCodeRequestView { interactive, ..self@ }),
    {
        DeviceCodeRequest {
            client_id: self.client_id,
            scope: self.scope,
            audience: self.audience,
            interactive,
            force: self.force,
            organization_id: self.organization_id,
        }
    }

    /// Forces a login.
    pub fn force_new(self) -> (r: DeviceCodeRequest)
        ensures
            r@ == (DeviceCodeRequestView { force: true, ..self@ }),
    {
        DeviceCodeRequest {
            client_id: self.client_id,
            scope: self.scope,
            audience: self.audience,
            interactive: self.interactive,
            force: true,
            organization_id: self.organization_id,
        }
    }

    /// Decides what is to be done to get tokens, given the refresh token
    /// that is stored and whether the access token expires within the hour.
    pub fn exchange_for_token(&self, refresh_token: Option<&String>, expiring: bool) -> (r: Exchange)
        ensures
            r@ == exchange_of(self@, refresh_token.deep_view(), expiring),
    {
        match refresh_token {
            None => {
                if !self.force {
                    Exchange::NotLoggedIn
                } else if self.interactive {
                    Exchange::DeviceFlow
                } else {
                    Exchange::NotInteractive { force: self.force }
                }
            },
            Some(token) => {
                if self.force {
                    if self.interactive {
                        Exchange::DeviceFlow
                    } else {
                        Exchange::NotInteractive { force: self.force }
                    }
                } else if expiring {
                    Exchange::Refresh { refresh_token: token.clone() }
                } else {
                    Exchange::Current
                }
            },
        }
    }

    /// The form of the refresh grant.
    pub fn refresh(&self, refresh_token: &String) -> (r: StringMap)
        ensures
            r@ == refresh_fields(self@, refresh_token@),
    {
        let mut form = StringMap::new();
        form.insert("grant_type".to_owned(), "refresh_token".to_owned());
        form.insert("client_id".to_owned(), self.client_id.clone());
        form.insert("refresh_token".to_owned(), refresh_token.clone());
        if let Some(id) = &self.organization_id {
            form.insert(
                "acr_values".to_owned(),
                concat("urn:auth:acr:organization-id:", id.as_str()),
            );
        }
        form
    }

    /// The form that asks for a device code.
    pub fn send(&self) -> (r: StringMap)
        ensures
            r@ == device_fields(self@),
    {
        let mut form = StringMap::new();
        form.insert("client_id".to_owned(), self.client_id.clone());
        form.insert("scope".to_owned(), self.scope.clone());
        form.insert("audience".to_owned(), self.audience.clone());
        form
    }
}

} // verus!
