//! Where the repositories of an organization live: on the hosting service
//! and below the local directory of organizations.

use crate::paths::components_below;
use crate::paths::join_path;
use crate::paths::path_below;
use crate::paths::path_join;
use crate::text::concat;
use crate::text::contains;
use crate::text::has_part;
use vstd::prelude::*;

verus! {

/// An organization on the hosting service.
#[derive(Debug, PartialEq, Eq)]
pub struct Organization {
    name: String,
}

impl View for Organization {
    type V = Seq<char>;

    closed spec fn view(&self) -> Seq<char> {
        self.name@
    }
}

impl Clone for Organization {
    fn clone(&self) -> (r: Organization)
        ensures
            r@ == self@,
    {
        Organization { name: self.name.clone() }
    }
}

/// A repository of an organization.
#[derive(Debug, PartialEq, Eq)]
pub struct Repository {
    org: String,
    name: String,
    private: bool,
    has_wiki: bool,
    has_issues: bool,
}

/// What a [`Repository`] holds.
pub struct RepositoryNames {
    pub org: Seq<char>,
    pub name: Seq<char>,
    pub private: bool,
    pub has_wiki: bool,
    pub has_issues: bool,
}

impl View for Repository {
    type V = RepositoryNames;

    closed spec fn view(&self) -> RepositoryNames {
        RepositoryNames {
            org: self.org@,
            name: self.name@,
            private: self.private,
            has_wiki: self.has_wiki,
            has_issues: self.has_issues,
        }
    }
}

impl Clone for Repository {
    fn clone(&self) -> (r: Repository)
        ensures
            r@ == self@,
    {
        Repository {
            org: self.org.clone(),
            name: self.name.clone(),
            private: self.private,
            has_wiki: self.has_wiki,
            has_issues: self.has_issues,
        }
    }
}

/// A place in the hierarchy of the hosting service.
#[derive(Debug, PartialEq, Eq)]
pub enum GithubLevel {
    Enterprise,
    Organization(Organization),
    Repository(Repository),
}

/// What a [`GithubLevel`] holds.
pub enum LevelView {
    Enterprise,
    Organization(Seq<char>),
    Repository(RepositoryNames),
}

impl View for GithubLevel {
    type V = LevelView;

    open spec fn view(&self) -> LevelView {
        match self {
            GithubLevel::Enterprise => LevelView::Enterprise,
            GithubLevel::Organization(organization) => LevelView::Organization(organization@),
            GithubLevel::Repository(repository) => LevelView::Repository(repository@),
        }
    }
}

/// Why a path names no place in the hierarchy.
#[derive(Clone, Copy, Debug, PartialEq, Eq, Structural)]
pub enum GitFault {
    /// The path is not below the directory of organizations.
    OutsideOrgs,
    /// Neither an organization is named nor does the place name one.
    NoOrganization,
}

/// A repository as it is first known: private, without wiki and issues.
pub open spec fn new_repository(org: Seq<char>, name: Seq<char>) -> RepositoryNames {
    RepositoryNames { org, name, private: true, has_wiki: false, has_issues: false }
}

/// The place that the components of a path below the directory of
/// organizations name: none the enterprise, one an organization, two or
/// more a repository of an organization.
pub open spec fn level_of(components: Seq<Seq<char>>) -> LevelView {
    if components.len() == 0 {
        LevelView::Enterprise
    } else if components.len() == 1 {
        LevelView::Organization(components[0])
    } else {
        LevelView::Repository(new_repository(components[0], components[1]))
    }
}

/// The address of a place on the hosting service.
pub open spec fn github_address(level: LevelView) -> Seq<char> {
    match level {
        LevelView::Enterprise => "https://github.com/enterprises/ybor"@,
        LevelView::Organization(name) => "https://github.com/"@ + name,
        LevelView::Repository(repository) => "https://github.com/"@ + repository.org + "/"@
            + repository.name,
    }
}

/// The local directory of a place, below the directory of organizations.
pub open spec fn local_directory(root: Seq<char>, level: LevelView) -> Seq<char> {
    match level {
        LevelView::Enterprise => root,
        LevelView::Organization(name) => path_join(root, name),
        LevelView::Repository(repository) => path_join(
            path_join(root, repository.org),
            repository.name,
        ),
    }
}

/// The organization of a place.
pub open spec fn organization_of(level: LevelView) -> Option<Seq<char>> {
    match level {
        LevelView::Enterprise => None,
        LevelView::Organization(name) => Some(name),
        LevelView::Repository(repository) => Some(repository.org),
    }
}

/// What a place, or the failure to name one, holds.
pub open spec fn level_view(r: Result<GithubLevel, GitFault>) -> Result<LevelView, GitFault> {
    match r {
        Ok(level) => Ok(level@),
        Err(e) => Err(e),
    }
}

/// What an optional organization holds.
pub open spec fn organization_view(r: Option<Organization>) -> Option<Seq<char>> {
    match r {
        Some(o) => Some(o@),
        None => None,
    }
}

/// What an optional repository holds.
pub open spec fn repository_view(r: Option<Repository>) -> Option<RepositoryNames> {
    match r {
        Some(o) => Some(o@),
        None => None,
    }
}

/// The place that an optional organization name and the place of the
/// working directory name together: the named organization, or else the
/// place of the working directory if that has an organization.
pub open spec fn chosen_level(name: Option<Seq<char>>, current: Result<LevelView, GitFault>)
    -> Result<LevelView, GitFault> {
    match name {
        Some(organization) => Ok(LevelView::Organization(organization)),
        None => match current {
            Err(e) => Err(e),
            Ok(LevelView::Enterprise) => Err(GitFault::NoOrganization),
            Ok(level) => Ok(level),
        },
    }
}

impl GithubLevel {
    /// The place that the components of a path below the directory of
    /// organizations name.
    pub fn from_components(components: Vec<String>) -> (r: GithubLevel)
        ensures
            r@ == level_of(components.deep_view()),
    {
        if components.len() == 0 {
            GithubLevel::Enterprise
        } else if components.len() == 1 {
            GithubLevel::Organization(Organization::new(components[0].clone()))
        } else {
            GithubLevel::Repository(Repository::new(components[0].clone(), components[1].clone()))
        }
    }

    /// The place that `path` names, which has to be at or below `orgs_root`,
    /// the directory of organizations.
    pub fn from_path(orgs_root: &str, path: &str) -> (r: Result<GithubLevel, GitFault>)
        ensures
            level_view(r) == (match path_below(orgs_root@, path@) {
                Some(components) => Ok(level_of(components)),
                None => Err(GitFault::OutsideOrgs),
            }),
    {
        match components_below(orgs_root, path) {
            Some(components) => Ok(GithubLevel::from_components(components)),
            None => Err(GitFault::OutsideOrgs),
        }
    }

    /// The place to work on: the organization that is named, or else the
    /// place of the working directory, which has to have an organization.
    pub fn with_organization(
        organization_name: Option<&String>,
        current: Result<GithubLevel, GitFault>,
    ) -> (r: Result<GithubLevel, GitFault>)
        ensures
            level_view(r) == chosen_level(organization_name.deep_view(), level_view(current)),
    {
        match organization_name {
            Some(name) => Ok(GithubLevel::Organization(Organization::new(name.clone()))),
            None => match current {
                Err(e) => Err(e),
                Ok(GithubLevel::Enterprise) => Err(GitFault::NoOrganization),
                Ok(level) => Ok(level),
            },
        }
    }

    /// The address of the place on the hosting service.
    pub fn github_url(&self) -> (r: String)
        ensures
            r@ == github_address(self@),
    {
        match self {
            GithubLevel::Enterprise => "https://github.com/enterprises/ybor".to_owned(),
            GithubLevel::Organization(organization) => concat(
                "https://github.com/",
                organization.to_string().as_str(),
            ),
            GithubLevel::Repository(repository) => concat(
                "https://github.com/",
                repository.to_string().as_str(),
            ),
        }
    }

    /// The local directory of the place, below `orgs_root`.
    pub fn local_path(&self, orgs_root: &str) -> (r: String)
        ensures
            r@ == local_directory(orgs_root@, self@),
    {
        match self {
            GithubLevel::Enterprise => orgs_root.to_owned(),
            GithubLevel::Organization(organization) => org_directory(orgs_root, organization.name()),
            GithubLevel::Repository(repository) => {
                let directory = org_directory(orgs_root, repository.organization().name());
                join_path(directory.as_str(), repository.name())
            },
        }
    }

    /// The organization of the place.
    pub fn organization(&self) -> (r: Option<Organization>)
        ensures
            organization_view(r) == organization_of(self@),
    {
        match self {
            GithubLevel::Organization(organization) => Some(organization.clone()),
            GithubLevel::Repository(repository) => Some(repository.organization()),
            _ => None,
        }
    }

    /// The repository, where the place is one.
    pub fn repository(&self) -> (r: Option<Repository>)
        ensures
            repository_view(r) == (match self@ {
                LevelView::Repository(repository) => Some(repository),
                _ => None,
            }),
    {
        match self {
            GithubLevel::Repository(repository) => Some(repository.clone()),
            _ => None,
        }
    }
}

impl Clone for GithubLevel {
    fn clone(&self) -> (r: GithubLevel)
        ensures
            r@ == self@,
    {
        match self {
            GithubLevel::Enterprise => GithubLevel::Enterprise,
            GithubLevel::Organization(organization) => GithubLevel::Organization(
                organization.clone(),
            ),
            GithubLevel::Repository(repository) => GithubLevel::Repository(repository.clone()),
        }
    }
}

impl Organization {
    pub fn new(name: String) -> (r: Organization)
        ensures
            r@ == name@,
    {
        Organization { name }
    }

    pub fn name(&self) -> (r: &str)
        ensures
            r@ == self@,
    {
        self.name.as_str()
    }

    /// The organization as a place in the hierarchy.
    pub fn org_path(&self) -> (r: GithubLevel)
        ensures
            r@ == LevelView::Organization(self@),
    {
        GithubLevel::Organization(self.clone())
    }

    /// The local directory of the organization, below `orgs_root`.
    pub fn local_path(&self, orgs_root: &str) -> (r: String)
        ensures
            r@ == path_join(orgs_root@, self@),
    {
        self.org_path().local_path(orgs_root)
    }

    /// The name of the organization.
    pub fn to_string(&self) -> (r: String)
        ensures
            r@ == self@,
    {
        self.name.clone()
    }
}

impl Repository {
    /// The repository `repo` of the organization `org`: private, without
    /// wiki and issues.
    pub fn new(org: String, repo: String) -> (r: Repository)
        ensures
            r@ == new_repository(org@, repo@),
    {
        Repository { org, name: repo, private: true, has_wiki: false, has_issues: false }
    }

    pub fn organization(&self) -> (r: Organization)
        ensures
            r@ == self@.org,
    {
        Organization { name: self.org.clone() }
    }

    pub fn name(&self) -> (r: &str)
        ensures
            r@ == self@.name,
    {
        self.name.as_str()
    }

    /// The repository as a place in the hierarchy.
    pub fn org_path(&self) -> (r: GithubLevel)
        ensures
            r@ == LevelView::Repository(self@),
    {
        GithubLevel::Repository(self.clone())
    }

    /// The local directory of the repository, below `orgs_root`.
    pub fn local_path(&self, orgs_root: &str) -> (r: String)
        ensures
            r@ == path_join(path_join(orgs_root@, self@.org), self@.name),
    {
        self.org_path().local_path(orgs_root)
    }

    /// The path of `path` inside the local directory of the repository.
    /// Whether anything is there is for the caller to find out.
    pub fn path_within(&self, orgs_root: &str, path: &str) -> (r: String)
        ensures
            r@ == path_join(path_join(path_join(orgs_root@, self@.org), self@.name), path@),
    {
        join_path(self.local_path(orgs_root).as_str(), path)
    }

    /// Organization and name, with a slash between.
    pub fn to_string(&self) -> (r: String)
        ensures
            r@ == self@.org + "/"@ + self@.name,
    {
        let head = concat(self.org.as_str(), "/");
        concat(head.as_str(), self.name.as_str())
    }
}

/// The local directory of the organization `org`, below `orgs_root`.
pub fn org_directory(orgs_root: &str, org: &str) -> (r: String)
    ensures
        r@ == path_join(orgs_root@, org@),
{
    join_path(orgs_root, org)
}

/// Whether the repositories of a place may be deleted: those of example
/// organizations may, and nothing else. An organization by itself may
/// also be a playground.
pub open spec fn deletable(level: LevelView) -> bool {
    match level {
        LevelView::Organization(name) => has_part(name, "example"@) || has_part(
            name,
            "playstation"@,
        ),
        LevelView::Repository(repository) => has_part(repository.org, "example"@),
        LevelView::Enterprise => false,
    }
}

/// Whether the repositories of a place may be deleted.
pub fn allow_deletes(org_path: &GithubLevel) -> (r: bool)
    ensures
        r == deletable(org_path@),
{
    match org_path {
        GithubLevel::Organization(organization) => contains(organization.name(), "example")
            || contains(organization.name(), "playstation"),
        GithubLevel::Repository(repository) => contains(
            repository.organization().name(),
            "example",
        ),
        _ => false,
    }
}

/// A repository as the hosting service is asked to create it.
#[derive(Debug, PartialEq, Eq)]
pub struct OrgRepository {
    pub org: String,
    pub name: String,
    pub private: bool,
    pub has_wiki: bool,
    pub has_issues: bool,
    pub visibility: String,
}

impl OrgRepository {
    /// The request to create `value`: not public, without wiki and issues.
    pub fn from(value: Repository) -> (r: OrgRepository)
        ensures
            r.org@ == value@.org,
            r.name@ == value@.name,
            !r.private,
            !r.has_wiki,
            !r.has_issues,
            r.visibility@ == "private"@,
    {
        OrgRepository {
            org: value.organization().name().to_owned(),
            name: value.name().to_owned(),
            private: false,
            has_wiki: false,
            has_issues: false,
            visibility: "private".to_owned(),
        }
    }
}

} // verus!
