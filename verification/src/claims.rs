//! The claims that an identity token carries, how a set of desired claims is
//! accumulated, and how the claims of a token are held against it.
//!
//! A field that is `None` in a desired set asks for nothing. A field that is
//! `None` in the claims of a token has not been granted.

use crate::string_map::Entries;
use crate::string_map::StringMap;
use crate::text::copy_list;
use crate::text::same_list;
use crate::text::same_text;
use vstd::prelude::*;

verus! {

/// The fields of [`Claims`], in the order in which an assertion visits them.
#[derive(Clone, Copy, Debug, PartialEq, Eq, Structural)]
pub enum ClaimField {
    Email,
    Exp,
    Org,
    Orgs,
    Permissions,
    LoginKubernetes,
    Roles,
    Scope,
}

/// The value of one claim.
#[derive(Debug, PartialEq, Eq)]
pub enum ClaimValue {
    Number(i64),
    Text(String),
    List(Vec<String>),
    Table(StringMap),
}

/// Why the claims of a token do not satisfy the desired ones.
#[derive(Debug, PartialEq, Eq)]
pub enum ClaimError {
    /// The token lacks a claim that is desired.
    Missing { field: ClaimField },
    /// The token holds another value than the desired one allows.
    Mismatch { field: ClaimField, expected: ClaimValue, actual: ClaimValue },
}

/// What a [`ClaimValue`] holds.
pub enum ClaimValueView {
    Number(i64),
    Text(Seq<char>),
    List(Seq<Seq<char>>),
    Table(Entries),
}

/// What a [`ClaimError`] holds.
pub enum ClaimErrorView {
    Missing { field: ClaimField },
    Mismatch { field: ClaimField, expected: ClaimValueView, actual: ClaimValueView },
}

impl View for ClaimValue {
    type V = ClaimValueView;

    open spec fn view(&self) -> ClaimValueView {
        match self {
            ClaimValue::Number(n) => ClaimValueView::Number(*n),
            ClaimValue::Text(s) => ClaimValueView::Text(s@),
            ClaimValue::List(l) => ClaimValueView::List(l.deep_view()),
            ClaimValue::Table(t) => ClaimValueView::Table(t@),
        }
    }
}

impl View for ClaimError {
    type V = ClaimErrorView;

    open spec fn view(&self) -> ClaimErrorView {
        match self {
            ClaimError::Missing { field } => ClaimErrorView::Missing { field: *field },
            ClaimError::Mismatch { field, expected, actual } => ClaimErrorView::Mismatch {
                field: *field,
                expected: expected@,
                actual: actual@,
            },
        }
    }
}

impl ClaimError {
    /// The field that the error is about.
    pub fn field(&self) -> (r: ClaimField)
        ensures
            r == self@.field(),
    {
        match self {
            ClaimError::Missing { field } => *field,
            ClaimError::Mismatch { field, .. } => *field,
        }
    }
}

impl ClaimErrorView {
    /// The field that the error is about.
    pub open spec fn field(self) -> ClaimField {
        match self {
            ClaimErrorView::Missing { field } => field,
            ClaimErrorView::Mismatch { field, .. } => field,
        }
    }
}

/// The claims decoded from a token, or a set of desired claims.
#[derive(Debug)]
pub struct Claims {
    /// When the token expires, in seconds since the epoch.
    pub exp: Option<i64>,
    /// The granted scopes, separated by spaces.
    pub scope: Option<String>,
    pub email: Option<String>,
    /// The marker of the capability to log in to Kubernetes.
    pub login_kubernetes: Option<String>,
    /// The organizations the identity belongs to: id to name.
    pub orgs: Option<StringMap>,
    /// The organization the token was issued for.
    pub org: Option<String>,
    pub permissions: Option<Vec<String>>,
    pub roles: Option<Vec<String>>,
}

/// What a [`Claims`] holds.
pub struct ClaimsView {
    pub exp: Option<i64>,
    pub scope: Option<Seq<char>>,
    pub email: Option<Seq<char>>,
    pub login_kubernetes: Option<Seq<char>>,
    pub orgs: Option<Entries>,
    pub org: Option<Seq<char>>,
    pub permissions: Option<Seq<Seq<char>>>,
    pub roles: Option<Seq<Seq<char>>>,
}

/// What an optional map holds.
pub open spec fn table_view(table: Option<StringMap>) -> Option<Entries> {
    match table {
        Some(t) => Some(t@),
        None => None,
    }
}

impl View for Claims {
    type V = ClaimsView;

    open spec fn view(&self) -> ClaimsView {
        ClaimsView {
            exp: self.exp,
            scope: self.scope.deep_view(),
            email: self.email.deep_view(),
            login_kubernetes: self.login_kubernetes.deep_view(),
            orgs: table_view(self.orgs),
            org: self.org.deep_view(),
            permissions: self.permissions.deep_view(),
            roles: self.roles.deep_view(),
        }
    }
}

/// The claim set that asks for nothing and grants nothing.
pub open spec fn no_claims() -> ClaimsView {
    ClaimsView {
        exp: None,
        scope: None,
        email: None,
        login_kubernetes: None,
        orgs: None,
        org: None,
        permissions: None,
        roles: None,
    }
}

/// The list that stands for "any value, but at least one".
pub open spec fn wildcard() -> Seq<Seq<char>> {
    seq!["*"@]
}

/// Whether a list claim meets the desired one: an empty list asks for an empty
/// list, the wildcard for a list that is not empty, any other list for the
/// same items in the same order.
pub open spec fn list_meets(desired: Seq<Seq<char>>, actual: Seq<Seq<char>>) -> bool {
    if desired.len() == 0 {
        actual.len() == 0
    } else if desired == wildcard() {
        actual.len() > 0
    } else {
        actual == desired
    }
}

/// What is wrong with a number claim, if anything.
pub open spec fn number_failure(field: ClaimField, desired: Option<i64>, actual: Option<i64>)
    -> Option<ClaimErrorView> {
    match (desired, actual) {
        (None, _) => None,
        (Some(_), None) => Some(ClaimErrorView::Missing { field }),
        (Some(d), Some(a)) => if a == d {
            None
        } else {
            Some(
                ClaimErrorView::Mismatch {
                    field,
                    expected: ClaimValueView::Number(d),
                    actual: ClaimValueView::Number(a),
                },
            )
        },
    }
}

/// What is wrong with a text claim, if anything.
pub open spec fn text_failure(
    field: ClaimField,
    desired: Option<Seq<char>>,
    actual: Option<Seq<char>>,
) -> Option<ClaimErrorView> {
    match (desired, actual) {
        (None, _) => None,
        (Some(_), None) => Some(ClaimErrorView::Missing { field }),
        (Some(d), Some(a)) => if a == d {
            None
        } else {
            Some(
                ClaimErrorView::Mismatch {
                    field,
                    expected: ClaimValueView::Text(d),
                    actual: ClaimValueView::Text(a),
                },
            )
        },
    }
}

/// What is wrong with a list claim, if anything.
pub open spec fn list_failure(
    field: ClaimField,
    desired: Option<Seq<Seq<char>>>,
    actual: Option<Seq<Seq<char>>>,
) -> Option<ClaimErrorView> {
    match (desired, actual) {
        (None, _) => None,
        (Some(_), None) => Some(ClaimErrorView::Missing { field }),
        (Some(d), Some(a)) => if list_meets(d, a) {
            None
        } else {
            Some(
                ClaimErrorView::Mismatch {
                    field,
                    expected: ClaimValueView::List(d),
                    actual: ClaimValueView::List(a),
                },
            )
        },
    }
}

/// What is wrong with a map claim, if anything.
pub open spec fn table_failure(field: ClaimField, desired: Option<Entries>, actual: Option<Entries>)
    -> Option<ClaimErrorView> {
    match (desired, actual) {
        (None, _) => None,
        (Some(_), None) => Some(ClaimErrorView::Missing { field }),
        (Some(d), Some(a)) => if a == d {
            None
        } else {
            Some(
                ClaimErrorView::Mismatch {
                    field,
                    expected: ClaimValueView::Table(d),
                    actual: ClaimValueView::Table(a),
                },
            )
        },
    }
}

/// What is wrong with one field of `actual`, if anything.
pub open spec fn field_failure(field: ClaimField, actual: ClaimsView, desired: ClaimsView)
    -> Option<ClaimErrorView> {
    match field {
        ClaimField::Email => text_failure(field, desired.email, actual.email),
        ClaimField::Exp => number_failure(field, desired.exp, actual.exp),
        ClaimField::Org => text_failure(field, desired.org, actual.org),
        ClaimField::Orgs => table_failure(field, desired.orgs, actual.orgs),
        ClaimField::Permissions => list_failure(field, desired.permissions, actual.permissions),
        ClaimField::LoginKubernetes => text_failure(
            field,
            desired.login_kubernetes,
            actual.login_kubernetes,
        ),
        ClaimField::Roles => list_failure(field, desired.roles, actual.roles),
        ClaimField::Scope => text_failure(field, desired.scope, actual.scope),
    }
}

/// The fields in the order in which an assertion visits them.
pub open spec fn field_order() -> Seq<ClaimField> {
    seq![
        ClaimField::Email,
        ClaimField::Exp,
        ClaimField::Org,
        ClaimField::Orgs,
        ClaimField::Permissions,
        ClaimField::LoginKubernetes,
        ClaimField::Roles,
        ClaimField::Scope,
    ]
}

/// The failure of the first of `fields` that fails.
pub open spec fn first_failure_among(
    fields: Seq<ClaimField>,
    actual: ClaimsView,
    desired: ClaimsView,
) -> Option<ClaimErrorView>
    decreases fields.len(),
{
    if fields.len() == 0 {
        None
    } else {
        match field_failure(fields[0], actual, desired) {
            Some(e) => Some(e),
            None => first_failure_among(fields.drop_first(), actual, desired),
        }
    }
}

/// The failure that an assertion of `actual` against `desired` reports.
pub open spec fn first_failure(actual: ClaimsView, desired: ClaimsView) -> Option<ClaimErrorView> {
    first_failure_among(field_order(), actual, desired)
}

/// Every field that `desired` asks for is granted by `actual`.
pub open spec fn satisfies(actual: ClaimsView, desired: ClaimsView) -> bool {
    forall|field: ClaimField| field_failure(field, actual, desired) is None
}

/// `base` with every field that `incoming` holds taken from `incoming`.
pub open spec fn merged(base: ClaimsView, incoming: ClaimsView) -> ClaimsView {
    ClaimsView {
        exp: if incoming.exp is Some {
            incoming.exp
        } else {
            base.exp
        },
        scope: if incoming.scope is Some {
            incoming.scope
        } else {
            base.scope
        },
        email: if incoming.email is Some {
            incoming.email
        } else {
            base.email
        },
        login_kubernetes: if incoming.login_kubernetes is Some {
            incoming.login_kubernetes
        } else {
            base.login_kubernetes
        },
        orgs: if incoming.orgs is Some {
            incoming.orgs
        } else {
            base.orgs
        },
        org: if incoming.org is Some {
            incoming.org
        } else {
            base.org
        },
        permissions: if incoming.permissions is Some {
            incoming.permissions
        } else {
            base.permissions
        },
        roles: if incoming.roles is Some {
            incoming.roles
        } else {
            base.roles
        },
    }
}

/// What an optional failure holds.
pub open spec fn failure_view(failure: Option<ClaimError>) -> Option<ClaimErrorView> {
    match failure {
        Some(e) => Some(e@),
        None => None,
    }
}

/// Whether `list` is the wildcard: the single item `*`.
pub fn is_wildcard(list: &Vec<String>) -> (r: bool)
    ensures
        r == (list.deep_view() == wildcard()),
{
    if list.len() == 1 && same_text(list[0].as_str(), "*") {
        assert(list.deep_view() =~= wildcard());
        true
    } else {
        if list.len() == 1 {
            assert(list.deep_view()[0] != wildcard()[0]);
        } else {
            assert(list.deep_view().len() != wildcard().len());
        }
        false
    }
}

fn check_number(field: ClaimField, desired: &Option<i64>, actual: &Option<i64>) -> (r: Option<
    ClaimError,
>)
    ensures
        failure_view(r) == number_failure(field, *desired, *actual),
{
    match desired {
        None => None,
        Some(d) => match actual {
            None => Some(ClaimError::Missing { field }),
            Some(a) => if *a == *d {
                None
            } else {
                Some(
                    ClaimError::Mismatch {
                        field,
                        expected: ClaimValue::Number(*d),
                        actual: ClaimValue::Number(*a),
                    },
                )
            },
        },
    }
}

fn check_text(field: ClaimField, desired: &Option<String>, actual: &Option<String>) -> (r: Option<
    ClaimError,
>)
    ensures
        failure_view(r) == text_failure(field, desired.deep_view(), actual.deep_view()),
{
    match desired {
        None => None,
        Some(d) => match actual {
            None => Some(ClaimError::Missing { field }),
            Some(a) => if same_text(a.as_str(), d.as_str()) {
                None
            } else {
                Some(
                    ClaimError::Mismatch {
                        field,
                        expected: ClaimValue::Text(d.clone()),
                        actual: ClaimValue::Text(a.clone()),
                    },
                )
            },
        },
    }
}

fn check_list(
    field: ClaimField,
    desired: &Option<Vec<String>>,
    actual: &Option<Vec<String>>,
) -> (r: Option<ClaimError>)
    ensures
        failure_view(r) == list_failure(field, desired.deep_view(), actual.deep_view()),
{
    match desired {
        None => None,
        Some(d) => match actual {
            None => Some(ClaimError::Missing { field }),
            Some(a) => {
                let meets = if d.len() == 0 {
                    a.len() == 0
                } else if is_wildcard(d) {
                    a.len() > 0
                } else {
                    same_list(a, d)
                };
                if meets {
                    None
                } else {
                    Some(
                        ClaimError::Mismatch {
                            field,
                            expected: ClaimValue::List(copy_list(d)),
                            actual: ClaimValue::List(copy_list(a)),
                        },
                    )
                }
            },
        },
    }
}

fn check_table(field: ClaimField, desired: &Option<StringMap>, actual: &Option<StringMap>) -> (r:
    Option<ClaimError>)
    ensures
        failure_view(r) == table_failure(field, table_view(*desired), table_view(*actual)),
{
    match desired {
        None => None,
        Some(d) => match actual {
            None => Some(ClaimError::Missing { field }),
            Some(a) => if a.same_entries(d) {
                None
            } else {
                Some(
                    ClaimError::Mismatch {
                        field,
                        expected: ClaimValue::Table(d.clone()),
                        actual: ClaimValue::Table(a.clone()),
                    },
                )
            },
        },
    }
}

impl Claims {
    /// Holds these claims against `desired_claims`, field by field in the
    /// order of [`field_order`], and reports the first field that fails.
    pub fn assert_against(&self, desired_claims: &Claims) -> (r: Result<(), ClaimError>)
        ensures
            r is Ok <==> satisfies(self@, desired_claims@),
            r is Ok <==> first_failure(self@, desired_claims@) is None,
            r matches Err(e) ==> first_failure(self@, desired_claims@) == Some(e@),
    {
        proof {
            lemma_first_failure(self@, desired_claims@);
        }
        if let Some(e) = check_text(ClaimField::Email, &desired_claims.email, &self.email) {
            return Err(e);
        }
        if let Some(e) = check_number(ClaimField::Exp, &desired_claims.exp, &self.exp) {
            return Err(e);
        }
        if let Some(e) = check_text(ClaimField::Org, &desired_claims.org, &self.org) {
            return Err(e);
        }
        if let Some(e) = check_table(ClaimField::Orgs, &desired_claims.orgs, &self.orgs) {
            return Err(e);
        }
        if let Some(e) = check_list(
            ClaimField::Permissions,
            &desired_claims.permissions,
            &self.permissions,
        ) {
            return Err(e);
        }
        if let Some(e) = check_text(
            ClaimField::LoginKubernetes,
            &desired_claims.login_kubernetes,
            &self.login_kubernetes,
        ) {
            return Err(e);
        }
        if let Some(e) = check_list(ClaimField::Roles, &desired_claims.roles, &self.roles) {
            return Err(e);
        }
        if let Some(e) = check_text(ClaimField::Scope, &desired_claims.scope, &self.scope) {
            return Err(e);
        }
        Ok(())
    }

    /// Takes over every field that `from` holds; the fields that `from` lacks
    /// stay as they are. Lists and maps are replaced whole.
    pub fn merge(&mut self, from: Claims)
        ensures
            final(self)@ == merged(old(self)@, from@),
    {
        if from.exp.is_some() {
            self.exp = from.exp;
        }
        if from.scope.is_some() {
            self.scope = from.scope;
        }
        if from.email.is_some() {
            self.email = from.email;
        }
        if from.login_kubernetes.is_some() {
            self.login_kubernetes = from.login_kubernetes;
        }
        if from.orgs.is_some() {
            self.orgs = from.orgs;
        }
        if from.org.is_some() {
            self.org = from.org;
        }
        if from.permissions.is_some() {
            self.permissions = from.permissions;
        }
        if from.roles.is_some() {
            self.roles = from.roles;
        }
    }
}

/// The first failure, spelled out field by field.
pub proof fn lemma_first_failure(actual: ClaimsView, desired: ClaimsView)
    ensures
        first_failure(actual, desired) == (if field_failure(ClaimField::Email, actual, desired)
            is Some {
            field_failure(ClaimField::Email, actual, desired)
        } else if field_failure(ClaimField::Exp, actual, desired) is Some {
            field_failure(ClaimField::Exp, actual, desired)
        } else if field_failure(ClaimField::Org, actual, desired) is Some {
            field_failure(ClaimField::Org, actual, desired)
        } else if field_failure(ClaimField::Orgs, actual, desired) is Some {
            field_failure(ClaimField::Orgs, actual, desired)
        } else if field_failure(ClaimField::Permissions, actual, desired) is Some {
            field_failure(ClaimField::Permissions, actual, desired)
        } else if field_failure(ClaimField::LoginKubernetes, actual, desired) is Some {
            field_failure(ClaimField::LoginKubernetes, actual, desired)
        } else if field_failure(ClaimField::Roles, actual, desired) is Some {
            field_failure(ClaimField::Roles, actual, desired)
        } else {
            field_failure(ClaimField::Scope, actual, desired)
        }),
        first_failure(actual, desired) is None <==> satisfies(actual, desired),
{
    let f0 = field_order();
    let f1 = f0.drop_first();
    let f2 = f1.drop_first();
    let f3 = f2.drop_first();
    let f4 = f3.drop_first();
    let f5 = f4.drop_first();
    let f6 = f5.drop_first();
    let f7 = f6.drop_first();
    let f8 = f7.drop_first();
    assert(f8.len() == 0);
    assert(first_failure_among(f8, actual, desired) is None);
    assert(f7[0] == ClaimField::Scope);
    assert(f6[0] == ClaimField::Roles);
    assert(f5[0] == ClaimField::LoginKubernetes);
    assert(f4[0] == ClaimField::Permissions);
    assert(f3[0] == ClaimField::Orgs);
    assert(f2[0] == ClaimField::Org);
    assert(f1[0] == ClaimField::Exp);
    assert(f0[0] == ClaimField::Email);
    reveal_with_fuel(first_failure_among, 9);
}

/// A desired empty list is met by an empty list and by nothing else.
pub proof fn law_empty_list_asks_for_empty(field: ClaimField, actual: Option<Seq<Seq<char>>>)
    ensures
        list_failure(field, Some(Seq::empty()), actual) is None <==> actual == Some(
            Seq::<Seq<char>>::empty(),
        ),
{
    if actual is Some {
        assert(actual->0.len() == 0 <==> actual->0 =~= Seq::<Seq<char>>::empty());
    }
}

/// The wildcard is met by every list that is not empty, whatever it
/// holds, and by nothing else.
pub proof fn law_wildcard_asks_for_any_item(field: ClaimField, actual: Option<Seq<Seq<char>>>)
    ensures
        list_failure(field, Some(wildcard()), actual) is None <==> (actual is Some
            && actual->0.len() > 0),
{
}

/// Any other desired list is met by the same items in the same order and
/// by nothing else; two different items the other way round do not meet it.
pub proof fn law_exact_list_is_order_sensitive(
    field: ClaimField,
    desired: Seq<Seq<char>>,
    actual: Option<Seq<Seq<char>>>,
)
    requires
        desired.len() > 0,
        desired != wildcard(),
    ensures
        list_failure(field, Some(desired), actual) is None <==> actual == Some(desired),
        desired.len() == 2 && desired[0] != desired[1] ==> list_failure(
            field,
            Some(desired),
            Some(seq![desired[1], desired[0]]),
        ) is Some,
{
    if desired.len() == 2 && desired[0] != desired[1] {
        assert(seq![desired[1], desired[0]][0] != desired[0]);
    }
}

/// A merge takes over what the incoming set holds and keeps the rest:
/// a field that the incoming set lacks stays as it was.
pub proof fn law_merge_overrides_only_what_is_given(base: ClaimsView, incoming: ClaimsView)
    ensures
        incoming.exp is None ==> merged(base, incoming).exp == base.exp,
        incoming.scope is None ==> merged(base, incoming).scope == base.scope,
        incoming.email is None ==> merged(base, incoming).email == base.email,
        incoming.login_kubernetes is None ==> merged(base, incoming).login_kubernetes
            == base.login_kubernetes,
        incoming.orgs is None ==> merged(base, incoming).orgs == base.orgs,
        incoming.org is None ==> merged(base, incoming).org == base.org,
        incoming.permissions is None ==> merged(base, incoming).permissions == base.permissions,
        incoming.roles is None ==> merged(base, incoming).roles == base.roles,
        incoming.exp is Some ==> merged(base, incoming).exp == incoming.exp,
        incoming.scope is Some ==> merged(base, incoming).scope == incoming.scope,
        incoming.email is Some ==> merged(base, incoming).email == incoming.email,
        incoming.login_kubernetes is Some ==> merged(base, incoming).login_kubernetes
            == incoming.login_kubernetes,
        incoming.orgs is Some ==> merged(base, incoming).orgs == incoming.orgs,
        incoming.org is Some ==> merged(base, incoming).org == incoming.org,
        incoming.permissions is Some ==> merged(base, incoming).permissions
            == incoming.permissions,
        incoming.roles is Some ==> merged(base, incoming).roles == incoming.roles,
        merged(base, no_claims()) == base,
        merged(merged(base, incoming), incoming) == merged(base, incoming),
{
}

/// Claims that satisfy an accumulated set satisfy the set that was merged
/// in last. And the set that asks for nothing is satisfied by any claims.
pub proof fn law_merged_claims_are_asserted(
    actual: ClaimsView,
    base: ClaimsView,
    incoming: ClaimsView,
)
    ensures
        satisfies(actual, merged(base, incoming)) ==> satisfies(actual, incoming),
        satisfies(actual, no_claims()),
{
    if satisfies(actual, merged(base, incoming)) {
        assert forall|field: ClaimField| field_failure(field, actual, incoming) is None by {
            assert(field_failure(field, actual, merged(base, incoming)) is None);
        }
    }
}

impl Clone for ClaimValue {
    fn clone(&self) -> (r: ClaimValue)
        ensures
            r@ == self@,
    {
        match self {
            ClaimValue::Number(n) => ClaimValue::Number(*n),
            ClaimValue::Text(s) => ClaimValue::Text(s.clone()),
            ClaimValue::List(l) => ClaimValue::List(copy_list(l)),
            ClaimValue::Table(t) => ClaimValue::Table(t.clone()),
        }
    }
}

impl Clone for ClaimError {
    fn clone(&self) -> (r: ClaimError)
        ensures
            r@ == self@,
    {
        match self {
            ClaimError::Missing { field } => ClaimError::Missing { field: *field },
            ClaimError::Mismatch { field, expected, actual } => ClaimError::Mismatch {
                field: *field,
                expected: expected.clone(),
                actual: actual.clone(),
            },
        }
    }
}

impl Clone for Claims {
    fn clone(&self) -> (r: Claims)
        ensures
            r@ == self@,
    {
        Claims {
            exp: self.exp,
            scope: self.scope.clone(),
            email: self.email.clone(),
            login_kubernetes: self.login_kubernetes.clone(),
            orgs: match &self.orgs {
                Some(t) => Some(t.clone()),
                None => None,
            },
            org: self.org.clone(),
            permissions: match &self.permissions {
                Some(l) => Some(copy_list(l)),
                None => None,
            },
            roles: match &self.roles {
                Some(l) => Some(copy_list(l)),
                None => None,
            },
        }
    }
}

impl Default for Claims {
    fn default() -> (r: Claims)
        ensures
            r@ == no_claims(),
    {
        Claims {
            exp: None,
            scope: None,
            email: None,
            login_kubernetes: None,
            orgs: None,
            org: None,
            permissions: None,
            roles: None,
        }
    }
}

} // verus!
