//! Single sign-on for the command lines of the cloud providers: which
//! role to take in an account, where the cached session lies, and how the
//! clusters behind the identity provider are named in a kubeconfig.

use crate::auth0::ca_of;
use crate::auth0::machine_text;
use crate::auth0::App;
use crate::auth0::AppView;
use crate::auth0::CaFault;
use crate::models::AwsConfig;
use crate::string_map::lookup;
use crate::text::concat;
use crate::text::replace;
use crate::text::replaced;
use crate::text::same_text;
use crate::text::strip_prefixes;
use crate::text::strip_suffixes;
use crate::text::without_prefixes;
use crate::text::without_suffixes;
use crate::token_repository::Moment;
use vstd::prelude::*;

verus! {

/// The short name of the organization behind the email address of an
/// account: the address without `platform+aws-` before and `@ybor.ai`
/// after it.
pub open spec fn org_slug(email: Seq<char>) -> Seq<char> {
    without_suffixes(without_prefixes(email, "platform+aws-"@), "@ybor.ai"@)
}

/// The short name of the organization behind the email address of an
/// account.
pub fn email_to_org_slug(email: String) -> (r: String)
    ensures
        r@ == org_slug(email@),
{
    let head = strip_prefixes(email.as_str(), "platform+aws-");
    strip_suffixes(head.as_str(), "@ybor.ai")
}

/// The rank of a role: the lower, the more it is preferred. The roles
/// that are not ranked come after all that are.
pub open spec fn role_rank(role: Seq<char>) -> int {
    if role == "administrator"@ {
        0
    } else if role == "AdministratorAccess"@ {
        1
    } else if role == "owner"@ {
        2
    } else if role == "developer"@ {
        3
    } else {
        usize::MAX as int
    }
}

/// The role to take among `roles`: the first of those with the lowest
/// rank.
pub open spec fn best_role(roles: Seq<Seq<char>>) -> Option<Seq<char>>
    decreases roles.len(),
{
    if roles.len() == 0 {
        None
    } else {
        match best_role(roles.drop_last()) {
            None => Some(roles.last()),
            Some(selected) => if role_rank(roles.last()) < role_rank(selected) {
                Some(roles.last())
            } else {
                Some(selected)
            },
        }
    }
}

/// The rank of a role.
pub fn rank_of(role: &str) -> (r: usize)
    ensures
        r == role_rank(role@),
{
    if same_text(role, "administrator") {
        0
    } else if same_text(role, "AdministratorAccess") {
        1
    } else if same_text(role, "owner") {
        2
    } else if same_text(role, "developer") {
        3
    } else {
        usize::MAX
    }
}

/// Picks the role to take in an account.
pub fn find_account_role(roles: &Vec<String>) -> (r: Option<String>)
    ensures
        r.deep_view() == best_role(roles.deep_view()),
{
    let mut selected: Option<(String, usize)> = None;
    let mut i: usize = 0;
    assert(roles.deep_view().take(0) =~= Seq::<Seq<char>>::empty());
    while i < roles.len()
        invariant
            i <= roles.len(),
            match selected {
                None => best_role(roles.deep_view().take(i as int)) is None,
                Some(pair) => best_role(roles.deep_view().take(i as int)) == Some(pair.0@)
                    && pair.1 == role_rank(pair.0@),
            },
        decreases roles.len() - i,
    {
        assert(roles.deep_view().take(i as int + 1).drop_last() =~= roles.deep_view().take(
            i as int,
        ));
        assert(roles.deep_view().take(i as int + 1).last() == roles[i as int]@);
        let rank = rank_of(roles[i].as_str());
        let better = match &selected {
            None => true,
            Some(pair) => rank < pair.1,
        };
        if better {
            selected = Some((roles[i].clone(), rank));
        }
        i = i + 1;
    }
    assert(roles.deep_view().take(i as int) =~= roles.deep_view());
    match selected {
        Some(pair) => Some(pair.0),
        None => None,
    }
}

/// The role that is picked is one of the roles, none of them ranks lower,
/// and those before it rank higher.
pub proof fn law_best_role_is_first_of_lowest_rank(roles: Seq<Seq<char>>)
    ensures
        roles.len() == 0 <==> best_role(roles) is None,
        roles.len() > 0 ==> exists|k: int|
            0 <= k < roles.len() && best_role(roles) == Some(#[trigger] roles[k]) && (forall|j: int|
                0 <= j < roles.len() ==> role_rank(roles[k]) <= role_rank(#[trigger] roles[j]))
                && (forall|j: int| 0 <= j < k ==> role_rank(roles[k]) < role_rank(#[trigger] roles[j])),
    decreases roles.len(),
{
    if roles.len() > 0 {
        let front = roles.drop_last();
        law_best_role_is_first_of_lowest_rank(front);
        if front.len() == 0 {
            let k = 0int;
            assert(best_role(roles) == Some(roles[k]));
        } else {
            let k0 = choose|k: int|
                0 <= k < front.len() && best_role(front) == Some(#[trigger] front[k]) && (forall|
                    j: int,
                | 0 <= j < front.len() ==> role_rank(front[k]) <= role_rank(#[trigger] front[j]))
                    && (forall|j: int|
                    0 <= j < k ==> role_rank(front[k]) < role_rank(#[trigger] front[j]));
            assert(front[k0] == roles[k0]);
            let k = if role_rank(roles.last()) < role_rank(front[k0]) {
                roles.len() - 1
            } else {
                k0
            };
            assert(best_role(roles) == Some(roles[k]));
            assert forall|j: int| 0 <= j < roles.len() implies role_rank(roles[k]) <= role_rank(
                #[trigger] roles[j],
            ) by {
                if j < front.len() {
                    assert(front[j] == roles[j]);
                }
            }
            assert forall|j: int| 0 <= j < k implies role_rank(roles[k]) < role_rank(
                #[trigger] roles[j],
            ) by {
                assert(front[j] == roles[j]);
            }
        }
    }
}

/// The SHA-1 digest of a byte string, as the crate `sha1` computes it.
pub uninterp spec fn sha1_digest(bytes: Seq<u8>) -> Seq<u8>;

/// `sha1::Sha1::digest` computes the SHA-1 digest of the bytes.
#[verifier::external_body]
fn sha1_of(bytes: &[u8]) -> (r: Vec<u8>)
    ensures
        r@ == sha1_digest(bytes@),
{
    <sha1::Sha1 as sha1::Digest>::digest(bytes).to_vec()
}

/// The character for a hexadecimal digit, in lower case.
pub open spec fn hex_digit(d: int) -> char {
    if d < 10 {
        crate::text::digit_char(d)
    } else if d == 10 {
        'a'
    } else if d == 11 {
        'b'
    } else if d == 12 {
        'c'
    } else if d == 13 {
        'd'
    } else if d == 14 {
        'e'
    } else {
        'f'
    }
}

/// The bytes written in hexadecimal: two digits in lower case for each.
pub open spec fn hex_text(bytes: Seq<u8>) -> Seq<char> {
    Seq::new(
        2 * bytes.len(),
        |i: int|
            if i % 2 == 0 {
                hex_digit(bytes[i / 2] as int / 16)
            } else {
                hex_digit(bytes[i / 2] as int % 16)
            },
    )
}

/// `hex::encode` writes each byte as two hexadecimal digits in lower case.
#[verifier::external_body]
fn hex_of(bytes: &Vec<u8>) -> (r: String)
    ensures
        r@ == hex_text(bytes@),
{
    hex::encode(bytes)
}

/// The name of the file that caches the session of a profile.
pub open spec fn cache_file_name(profile: Seq<char>) -> Seq<char> {
    hex_text(sha1_digest(vstd::utf8::encode_utf8(profile))) + ".json"@
}

/// The name of the file in which the command line of AWS caches the
/// single sign-on session of a profile.
pub fn sso_cache_file_name(profile: &str) -> (r: String)
    ensures
        r@ == cache_file_name(profile@),
{
    let digest = sha1_of(profile.as_bytes());
    concat(hex_of(&digest).as_str(), ".json")
}

/// Whether `a` lies before `b`.
pub open spec fn earlier(a: Moment, b: Moment) -> bool {
    a.seconds < b.seconds || (a.seconds == b.seconds && a.nanos < b.nanos)
}

/// The access token of a cached session, unless the session has expired.
pub fn aws_access_token(config: &AwsConfig, expires_at_nanos: u32, now: Moment) -> (r: Option<
    String,
>)
    ensures
        r.deep_view() == (if earlier(
            Moment { seconds: config.expiresAt, nanos: expires_at_nanos },
            now,
        ) {
            None
        } else {
            Some(config.accessToken@)
        }),
{
    if config.expiresAt < now.seconds || (config.expiresAt == now.seconds && expires_at_nanos
        < now.nanos) {
        None
    } else {
        Some(config.accessToken.clone())
    }
}

/// How a cluster behind the identity provider enters a kubeconfig.
#[derive(Debug, PartialEq, Eq)]
pub struct KubeAccess {
    /// The name of the context, which is also the current one.
    pub cluster_name: String,
    /// The address of the API server, by which the cluster is named.
    pub url: String,
    /// The certificate authority of the API server.
    pub ca: String,
    /// The program that hands out the credential.
    pub command: String,
    /// Its arguments.
    pub args: Vec<String>,
    /// The name of the user.
    pub user_name: String,
}

/// What a [`KubeAccess`] holds.
pub struct KubeAccessView {
    pub cluster_name: Seq<char>,
    pub url: Seq<char>,
    pub ca: Seq<char>,
    pub command: Seq<char>,
    pub args: Seq<Seq<char>>,
    pub user_name: Seq<char>,
}

impl View for KubeAccess {
    type V = KubeAccessView;

    open spec fn view(&self) -> KubeAccessView {
        KubeAccessView {
            cluster_name: self.cluster_name@,
            url: self.url@,
            ca: self.ca@,
            command: self.command@,
            args: self.args.deep_view(),
            user_name: self.user_name@,
        }
    }
}

/// Why an application yields no entry in a kubeconfig.
#[derive(Clone, Copy, Debug, PartialEq, Eq, Structural)]
pub enum KubeFault {
    MissingOrg,
    MissingCa(CaFault),
}

/// The name of the cluster of an application.
pub open spec fn cluster_name_of(app: AppView) -> Seq<char> {
    "p6m-"@ + replaced(
        machine_text(
            match lookup(app.metadata, "ClaimName"@) {
                Some(name) => name,
                None => app.name,
            },
        ),
        "-auth0"@,
        Seq::empty(),
    )
}

/// The entry of an application in the kubeconfig of `email`.
pub open spec fn kube_access_of(app: AppView, email: Seq<char>) -> Result<
    KubeAccessView,
    KubeFault,
> {
    match app.org {
        None => Err(KubeFault::MissingOrg),
        Some(org) => match ca_of(app.origins) {
            Err(fault) => Err(KubeFault::MissingCa(fault)),
            Ok(ca) => Ok(
                KubeAccessView {
                    cluster_name: cluster_name_of(app),
                    url: app.url,
                    ca,
                    command: "p6m"@,
                    args: seq!["whoami"@, "--org"@, org, "--output"@, "k8s-auth"@] + (
                    if app.auth_n is Some {
                        seq!["--auth"@, app.client_id]
                    } else {
                        Seq::empty()
                    }),
                    user_name: email + " ("@ + (if app.auth_n is Some {
                        cluster_name_of(app)
                    } else {
                        org
                    }) + ")"@,
                },
            ),
        },
    }
}

/// What an entry, or the failure to make one, holds.
pub open spec fn kube_access_view(r: Result<KubeAccess, KubeFault>) -> Result<
    KubeAccessView,
    KubeFault,
> {
    match r {
        Ok(access) => Ok(access@),
        Err(e) => Err(e),
    }
}

/// Works out how the cluster of an application enters the kubeconfig of
/// `email`: under which names, and with which command for the credential.
pub fn generate_kubeconfig(app: &App, email: &String) -> (r: Result<KubeAccess, KubeFault>)
    ensures
        kube_access_view(r) == kube_access_of(app@, email@),
{
    let machine_name = app.machine_name();
    let short = replace(machine_name.as_str(), "-auth0", "");
    proof {
        reveal_strlit("");
        assert(""@ =~= Seq::<char>::empty());
    }
    let cluster_name = concat("p6m-", short.as_str());
    let url = app.url();
    let org = match app.org() {
        Some(org) => org,
        None => {
            return Err(KubeFault::MissingOrg);
        },
    };
    let ca = match app.ca() {
        Ok(ca) => ca,
        Err(fault) => {
            return Err(KubeFault::MissingCa(fault));
        },
    };
    let mut args: Vec<String> = Vec::new();
    args.push("whoami".to_owned());
    args.push("--org".to_owned());
    args.push(org.clone());
    args.push("--output".to_owned());
    args.push("k8s-auth".to_owned());
    let head = concat(email.as_str(), " (");
    let user = if app.auth_n.is_some() {
        args.push("--auth".to_owned());
        args.push(app.client_id.clone());
        concat(head.as_str(), cluster_name.as_str())
    } else {
        concat(head.as_str(), org.as_str())
    };
    let user_name = concat(user.as_str(), ")");
    assert(args.deep_view() =~= seq!["whoami"@, "--org"@, org@, "--output"@, "k8s-auth"@] + (
    if app@.auth_n is Some {
        seq!["--auth"@, app@.client_id]
    } else {
        Seq::empty()
    }));
    Ok(KubeAccess { cluster_name, url, ca, command: "p6m".to_owned(), args, user_name })
}

/// A context of a kubeconfig, as far as its names go.
#[derive(Debug, PartialEq, Eq)]
pub struct ContextNames {
    pub name: String,
    /// The cluster and the user that the context brings together.
    pub context: Option<(String, String)>,
}

/// A cluster of a kubeconfig, as far as its names go.
#[derive(Debug, PartialEq, Eq)]
pub struct ClusterNames {
    pub name: String,
    /// The address of the API server.
    pub server: Option<String>,
}

/// The names in a kubeconfig.
#[derive(Debug, PartialEq, Eq)]
pub struct KubeNames {
    pub current_context: Option<String>,
    pub contexts: Vec<ContextNames>,
    pub clusters: Vec<ClusterNames>,
    pub users: Vec<String>,
}

/// Why the names of a kubeconfig cannot be made unique.
#[derive(Clone, Copy, Debug, PartialEq, Eq, Structural)]
pub enum NamesFault {
    MissingCurrentContext,
    UnknownContext,
    UnknownCluster,
    UnknownUser,
    MissingServer,
}

/// Where the current context, its cluster and its user stand in a
/// kubeconfig, and the name that all three get.
#[derive(Debug, PartialEq, Eq)]
pub struct Renaming {
    pub context: usize,
    pub cluster: usize,
    pub user: usize,
    pub name: String,
}

/// What a [`ContextNames`] holds.
pub struct ContextView {
    pub name: Seq<char>,
    pub context: Option<(Seq<char>, Seq<char>)>,
}

/// What a [`ClusterNames`] holds.
pub struct ClusterView {
    pub name: Seq<char>,
    pub server: Option<Seq<char>>,
}

/// What a [`KubeNames`] holds.
pub struct KubeNamesView {
    pub current_context: Option<Seq<char>>,
    pub contexts: Seq<ContextView>,
    pub clusters: Seq<ClusterView>,
    pub users: Seq<Seq<char>>,
}

impl View for ContextNames {
    type V = ContextView;

    open spec fn view(&self) -> ContextView {
        ContextView { name: self.name@, context: self.context.deep_view() }
    }
}

impl View for ClusterNames {
    type V = ClusterView;

    open spec fn view(&self) -> ClusterView {
        ClusterView { name: self.name@, server: self.server.deep_view() }
    }
}

impl View for KubeNames {
    type V = KubeNamesView;

    open spec fn view(&self) -> KubeNamesView {
        KubeNamesView {
            current_context: self.current_context.deep_view(),
            contexts: Seq::new(self.contexts@.len(), |i: int| self.contexts@[i]@),
            clusters: Seq::new(self.clusters@.len(), |i: int| self.clusters@[i]@),
            users: self.users.deep_view(),
        }
    }
}

/// The place of the first text in `names` that is `name`, or the length of
/// `names` if there is none.
pub open spec fn first_named(names: Seq<Seq<char>>, name: Seq<char>) -> int
    decreases names.len(),
{
    if names.len() == 0 {
        0
    } else if names[0] == name {
        0
    } else {
        1 + first_named(names.drop_first(), name)
    }
}

/// The names of the contexts.
pub open spec fn context_names(config: KubeNamesView) -> Seq<Seq<char>> {
    Seq::new(config.contexts.len(), |i: int| config.contexts[i].name)
}

/// The names of the clusters.
pub open spec fn cluster_names(config: KubeNamesView) -> Seq<Seq<char>> {
    Seq::new(config.clusters.len(), |i: int| config.clusters[i].name)
}

/// The renaming that makes the current context of a kubeconfig unique:
/// the context, its cluster and its user are all named after the API
/// server, without the scheme.
pub open spec fn renaming_of(config: KubeNamesView) -> Result<
    (int, int, int, Seq<char>),
    NamesFault,
> {
    match config.current_context {
        None => Err(NamesFault::MissingCurrentContext),
        Some(current) => {
            let c = first_named(context_names(config), current);
            if c >= config.contexts.len() {
                Err(NamesFault::UnknownContext)
            } else {
                match config.contexts[c].context {
                    None => Err(NamesFault::UnknownCluster),
                    Some(pair) => {
                        let k = first_named(cluster_names(config), pair.0);
                        let u = first_named(config.users, pair.1);
                        if k >= config.clusters.len() {
                            Err(NamesFault::UnknownCluster)
                        } else if u >= config.users.len() {
                            Err(NamesFault::UnknownUser)
                        } else {
                            match config.clusters[k].server {
                                None => Err(NamesFault::MissingServer),
                                Some(server) => Ok(
                                    (c, k, u, replaced(server, "https://"@, Seq::empty())),
                                ),
                            }
                        }
                    },
                }
            }
        },
    }
}

/// What a renaming, or the failure to find one, holds.
pub open spec fn renaming_view(r: Result<Renaming, NamesFault>) -> Result<
    (int, int, int, Seq<char>),
    NamesFault,
> {
    match r {
        Ok(renaming) => Ok(
            (renaming.context as int, renaming.cluster as int, renaming.user as int, renaming.name@),
        ),
        Err(e) => Err(e),
    }
}

fn find_context(contexts: &Vec<ContextNames>, name: &str, config: Ghost<KubeNamesView>) -> (r: usize)
    requires
        context_names(config@) == Seq::new(contexts@.len(), |i: int| contexts@[i].name@),
    ensures
        r == first_named(context_names(config@), name@),
        r <= contexts.len(),
{
    let ghost names = context_names(config@);
    let mut i: usize = 0;
    assert(names.skip(0) =~= names);
    while i < contexts.len()
        invariant
            i <= contexts.len(),
            names == context_names(config@),
            names == Seq::new(contexts@.len(), |i: int| contexts@[i].name@),
            first_named(names, name@) == i + first_named(names.skip(i as int), name@),
        decreases contexts.len() - i,
    {
        assert(names.skip(i as int)[0] == contexts@[i as int].name@);
        if same_text(contexts[i].name.as_str(), name) {
            return i;
        }
        assert(names.skip(i as int).drop_first() =~= names.skip(i as int + 1));
        i = i + 1;
    }
    i
}

fn find_cluster(clusters: &Vec<ClusterNames>, name: &str, config: Ghost<KubeNamesView>) -> (r: usize)
    requires
        cluster_names(config@) == Seq::new(clusters@.len(), |i: int| clusters@[i].name@),
    ensures
        r == first_named(cluster_names(config@), name@),
        r <= clusters.len(),
{
    let ghost names = cluster_names(config@);
    let mut i: usize = 0;
    assert(names.skip(0) =~= names);
    while i < clusters.len()
        invariant
            i <= clusters.len(),
            names == cluster_names(config@),
            names == Seq::new(clusters@.len(), |i: int| clusters@[i].name@),
            first_named(names, name@) == i + first_named(names.skip(i as int), name@),
        decreases clusters.len() - i,
    {
        assert(names.skip(i as int)[0] == clusters@[i as int].name@);
        if same_text(clusters[i].name.as_str(), name) {
            return i;
        }
        assert(names.skip(i as int).drop_first() =~= names.skip(i as int + 1));
        i = i + 1;
    }
    i
}

/// The place of the first text in `names` that is `name`.
pub fn find_named(names: &Vec<String>, name: &str) -> (r: usize)
    ensures
        r == first_named(names.deep_view(), name@),
        r <= names.len(),
{
    let ghost all = names.deep_view();
    let mut i: usize = 0;
    assert(all.skip(0) =~= all);
    while i < names.len()
        invariant
            i <= names.len(),
            all == names.deep_view(),
            first_named(all, name@) == i + first_named(all.skip(i as int), name@),
        decreases names.len() - i,
    {
        assert(all.skip(i as int)[0] == names[i as int]@);
        if same_text(names[i].as_str(), name) {
            return i;
        }
        assert(all.skip(i as int).drop_first() =~= all.skip(i as int + 1));
        i = i + 1;
    }
    i
}

/// Finds the renaming that makes the current context of a kubeconfig
/// unique.
pub fn uniqueify_kubeconfig(kubeconfig: &KubeNames) -> (r: Result<Renaming, NamesFault>)
    ensures
        renaming_view(r) == renaming_of(kubeconfig@),
        r matches Ok(renaming) ==> renaming.context < kubeconfig.contexts.len() && renaming.cluster
            < kubeconfig.clusters.len() && renaming.user < kubeconfig.users.len(),
{
    let current = match &kubeconfig.current_context {
        None => {
            return Err(NamesFault::MissingCurrentContext);
        },
        Some(current) => current,
    };
    assert(context_names(kubeconfig@) =~= Seq::new(
        kubeconfig.contexts@.len(),
        |i: int| kubeconfig.contexts@[i].name@,
    ));
    assert(cluster_names(kubeconfig@) =~= Seq::new(
        kubeconfig.clusters@.len(),
        |i: int| kubeconfig.clusters@[i].name@,
    ));
    let context = find_context(&kubeconfig.contexts, current.as_str(), Ghost(kubeconfig@));
    if context >= kubeconfig.contexts.len() {
        return Err(NamesFault::UnknownContext);
    }
    let pair = match &kubeconfig.contexts[context].context {
        None => {
            return Err(NamesFault::UnknownCluster);
        },
        Some(pair) => pair,
    };
    let cluster = find_cluster(&kubeconfig.clusters, pair.0.as_str(), Ghost(kubeconfig@));
    let user = find_named(&kubeconfig.users, pair.1.as_str());
    if cluster >= kubeconfig.clusters.len() {
        return Err(NamesFault::UnknownCluster);
    }
    if user >= kubeconfig.users.len() {
        return Err(NamesFault::UnknownUser);
    }
    let server = match &kubeconfig.clusters[cluster].server {
        None => {
            return Err(NamesFault::MissingServer);
        },
        Some(server) => server,
    };
    proof {
        reveal_strlit("");
        assert(""@ =~= Seq::<char>::empty());
    }
    let name = replace(server.as_str(), "https://", "");
    Ok(Renaming { context, cluster, user, name })
}

/// The line that reports an updated context.
pub fn updated_context_line(name: &str, path: &str) -> (r: String)
    ensures
        r@ == "Updated context "@ + name@ + " in "@ + path@,
{
    let a = concat("Updated context ", name);
    let b = concat(a.as_str(), " in ");
    concat(b.as_str(), path)
}

} // verus!
