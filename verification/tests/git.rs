use p6m::git::{
    allow_deletes, org_directory, GitFault, GithubLevel, OrgRepository, Organization, Repository,
};
use p6m::repositories::{pull_organizations, pull_step, push_repository, remote_of, PullStep};

fn words(items: &[&str]) -> Vec<String> {
    items.iter().map(|s| s.to_string()).collect()
}

#[test]
fn from_path_names_the_level() {
    assert_eq!(GithubLevel::from_path("/home/u/orgs", "/home/u/orgs"), Ok(GithubLevel::Enterprise));
    assert_eq!(
        GithubLevel::from_path("/home/u/orgs", "/home/u/orgs/acme/"),
        Ok(GithubLevel::Organization(Organization::new("acme".to_string())))
    );
    assert_eq!(
        GithubLevel::from_path("/home/u/orgs", "/home/u/orgs/acme/service/src/main"),
        Ok(GithubLevel::Repository(Repository::new("acme".to_string(), "service".to_string())))
    );
    assert_eq!(
        GithubLevel::from_path("/home/u/orgs", "/home/u/other"),
        Err(GitFault::OutsideOrgs)
    );
    assert_eq!(
        GithubLevel::from_path("/home/u/orgs", "/home/u/orgsx/acme"),
        Err(GitFault::OutsideOrgs)
    );
    assert_eq!(GithubLevel::from_components(vec![]), GithubLevel::Enterprise);
    assert_eq!(
        GithubLevel::from_components(words(&["a", "b", "c"])),
        GithubLevel::Repository(Repository::new("a".to_string(), "b".to_string()))
    );
}

#[test]
fn with_organization_prefers_the_named_one() {
    let named = "acme".to_string();
    let here = Ok(GithubLevel::Repository(Repository::new("other".to_string(), "r".to_string())));
    assert_eq!(
        GithubLevel::with_organization(Some(&named), here.clone()),
        Ok(GithubLevel::Organization(Organization::new("acme".to_string())))
    );
    assert_eq!(GithubLevel::with_organization(None, here.clone()), here);
    assert_eq!(
        GithubLevel::with_organization(None, Ok(GithubLevel::Enterprise)),
        Err(GitFault::NoOrganization)
    );
    assert_eq!(
        GithubLevel::with_organization(None, Err(GitFault::OutsideOrgs)),
        Err(GitFault::OutsideOrgs)
    );
    assert_eq!(
        GithubLevel::with_organization(Some(&named), Err(GitFault::OutsideOrgs)),
        Ok(GithubLevel::Organization(Organization::new("acme".to_string())))
    );
}

#[test]
fn urls_and_paths_follow_the_level() {
    let organization = Organization::new("acme".to_string());
    let repository = Repository::new("acme".to_string(), "service".to_string());
    assert_eq!(GithubLevel::Enterprise.github_url(), "https://github.com/enterprises/ybor");
    assert_eq!(organization.org_path().github_url(), "https://github.com/acme");
    assert_eq!(repository.org_path().github_url(), "https://github.com/acme/service");
    assert_eq!(GithubLevel::Enterprise.local_path("/home/u/orgs"), "/home/u/orgs");
    assert_eq!(organization.local_path("/home/u/orgs"), "/home/u/orgs/acme");
    assert_eq!(repository.local_path("/home/u/orgs"), "/home/u/orgs/acme/service");
    assert_eq!(repository.path_within("/home/u/orgs", ".git"), "/home/u/orgs/acme/service/.git");
    assert_eq!(org_directory("/home/u/orgs", "acme"), "/home/u/orgs/acme");
    assert_eq!(org_directory("/home/u/orgs", "/abs"), "/abs");
    assert_eq!(organization.name(), "acme");
    assert_eq!(organization.to_string(), "acme");
    assert_eq!(repository.name(), "service");
    assert_eq!(repository.organization(), organization);
    assert_eq!(repository.to_string(), "acme/service");
    assert_eq!(GithubLevel::Enterprise.organization(), None);
    assert_eq!(organization.org_path().organization(), Some(organization.clone()));
    assert_eq!(repository.org_path().organization(), Some(organization.clone()));
    assert_eq!(repository.org_path().repository(), Some(repository.clone()));
    assert_eq!(organization.org_path().repository(), None);
}

#[test]
fn only_example_organizations_allow_deletes() {
    let level = |org: &str| GithubLevel::Organization(Organization::new(org.to_string()));
    let repo = |org: &str| GithubLevel::Repository(Repository::new(org.to_string(), "r".to_string()));
    assert!(allow_deletes(&level("acme-example-1")));
    assert!(allow_deletes(&level("playstation")));
    assert!(!allow_deletes(&level("acme")));
    assert!(allow_deletes(&repo("example")));
    assert!(!allow_deletes(&repo("playstation")));
    assert!(!allow_deletes(&repo("exampl")));
    assert!(!allow_deletes(&GithubLevel::Enterprise));
}

#[test]
fn org_repository_is_not_public() {
    let request = OrgRepository::from(Repository::new("acme".to_string(), "service".to_string()));
    assert_eq!(
        request,
        OrgRepository {
            org: "acme".to_string(),
            name: "service".to_string(),
            private: false,
            has_wiki: false,
            has_issues: false,
            visibility: "private".to_string(),
        }
    );
}

#[test]
fn pull_clones_what_is_missing_and_pulls_on_demand() {
    let repository = Repository::new("acme".to_string(), "service".to_string());
    let url = "git@github.com:acme/service.git";
    assert_eq!(
        pull_step("/o", &repository, url, false, false, false),
        PullStep::Clone {
            command: Some(words(&["-C", "/o/acme", "clone", url, "/o/acme/service"]))
        }
    );
    assert_eq!(
        pull_step("/o", &repository, url, false, true, true),
        PullStep::Clone { command: None }
    );
    assert_eq!(
        pull_step("/o", &repository, url, true, true, false),
        PullStep::Pull {
            command: Some(words(&["-C", "/o/acme/service", "pull"]))
        }
    );
    assert_eq!(pull_step("/o", &repository, url, true, true, true), PullStep::Pull { command: None });
    assert_eq!(pull_step("/o", &repository, url, true, false, false), PullStep::Skip);
}

#[test]
fn push_initializes_what_is_no_repository_yet() {
    let repository = Repository::new("acme".to_string(), "service".to_string());
    assert_eq!(remote_of(&repository), "git@github.com:acme/service.git");
    assert_eq!(
        push_repository("/o", &repository, false, false),
        vec![
            words(&["-C", "/o/acme/service", "init"]),
            words(&["-C", "/o/acme/service", "add", "."]),
            words(&["-C", "/o/acme/service", "commit", "-m", "initial commit"]),
            words(&[
                "-C",
                "/o/acme/service",
                "remote",
                "add",
                "origin",
                "git@github.com:acme/service.git"
            ]),
            words(&["-C", "/o/acme/service", "push", "-u", "origin", "HEAD"]),
        ]
    );
    assert_eq!(
        push_repository("/o", &repository, true, false),
        vec![words(&["-C", "/o/acme/service", "push", "-u", "origin", "HEAD"])]
    );
    assert_eq!(push_repository("/o", &repository, false, true), Vec::<Vec<String>>::new());
}

#[test]
fn platform_organization_is_not_pulled() {
    assert_eq!(
        pull_organizations(&words(&["acme", "p6m-dev", "beta", "p6m-dev"])),
        words(&["acme", "beta"])
    );
    assert_eq!(pull_organizations(&vec![]), Vec::<String>::new());
}
