//! The calls of `git` by which the repositories of an organization are
//! cloned, pulled and pushed. Running them is left to the caller.

use crate::git::Repository;
use crate::git::RepositoryNames;
use crate::paths::path_join;
use crate::text::concat;
use crate::text::same_text;
use vstd::prelude::*;

verus! {

/// What `git` is called with.
pub type Arguments = Seq<Seq<char>>;

/// What is done about one repository of an organization when pulling.
#[derive(Debug, PartialEq, Eq)]
pub enum PullStep {
    /// Nothing: the repository is there, and not everything is pulled.
    Skip,
    /// The repository is not there yet: clone it. Without `command`, on a
    /// dry run, it is only said.
    Clone { command: Option<Vec<String>> },
    /// The repository is there: pull it.
    Pull { command: Option<Vec<String>> },
}

/// What a [`PullStep`] holds.
pub enum PullStepView {
    Skip,
    Clone { command: Option<Arguments> },
    Pull { command: Option<Arguments> },
}

impl View for PullStep {
    type V = PullStepView;

    open spec fn view(&self) -> PullStepView {
        match self {
            PullStep::Skip => PullStepView::Skip,
            PullStep::Clone { command } => PullStepView::Clone { command: command.deep_view() },
            PullStep::Pull { command } => PullStepView::Pull { command: command.deep_view() },
        }
    }
}

/// The local directory of a repository.
pub open spec fn directory_of(root: Seq<char>, repository: RepositoryNames) -> Seq<char> {
    path_join(path_join(root, repository.org), repository.name)
}

/// The call that clones a repository into its local directory.
pub open spec fn clone_arguments(root: Seq<char>, repository: RepositoryNames, ssh_url: Seq<char>)
    -> Arguments {
    seq![
        "-C"@,
        path_join(root, repository.org),
        "clone"@,
        ssh_url,
        directory_of(root, repository),
    ]
}

/// The call that pulls a repository.
pub open spec fn pull_arguments(root: Seq<char>, repository: RepositoryNames) -> Arguments {
    seq!["-C"@, directory_of(root, repository), "pull"@]
}

/// What is done about a repository when pulling: one that is not there is
/// cloned; one that is there is pulled if all are, and else left alone.
pub open spec fn pull_step_of(
    root: Seq<char>,
    repository: RepositoryNames,
    ssh_url: Seq<char>,
    exists: bool,
    all: bool,
    dry_run: bool,
) -> PullStepView {
    if !exists {
        PullStepView::Clone {
            command: if dry_run {
                None
            } else {
                Some(clone_arguments(root, repository, ssh_url))
            },
        }
    } else if all {
        PullStepView::Pull {
            command: if dry_run {
                None
            } else {
                Some(pull_arguments(root, repository))
            },
        }
    } else {
        PullStepView::Skip
    }
}

/// Decides what is done about one repository when pulling.
pub fn pull_step(
    orgs_root: &str,
    repository: &Repository,
    ssh_url: &str,
    exists: bool,
    all: bool,
    dry_run: bool,
) -> (r: PullStep)
    ensures
        r@ == pull_step_of(orgs_root@, repository@, ssh_url@, exists, all, dry_run),
{
    if !exists {
        if dry_run {
            return PullStep::Clone { command: None };
        }
        let mut command: Vec<String> = Vec::new();
        command.push("-C".to_owned());
        command.push(repository.organization().local_path(orgs_root));
        command.push("clone".to_owned());
        command.push(ssh_url.to_owned());
        command.push(repository.local_path(orgs_root));
        assert(command.deep_view() =~= clone_arguments(orgs_root@, repository@, ssh_url@));
        PullStep::Clone { command: Some(command) }
    } else if all {
        if dry_run {
            return PullStep::Pull { command: None };
        }
        let mut command: Vec<String> = Vec::new();
        command.push("-C".to_owned());
        command.push(repository.local_path(orgs_root));
        command.push("pull".to_owned());
        assert(command.deep_view() =~= pull_arguments(orgs_root@, repository@));
        PullStep::Pull { command: Some(command) }
    } else {
        PullStep::Skip
    }
}

/// The address of a repository for `git`.
pub open spec fn remote_address(repository: RepositoryNames) -> Seq<char> {
    "git@github.com:"@ + repository.org + "/"@ + repository.name + ".git"@
}

/// The calls that make a directory into a repository with one commit and
/// a remote.
pub open spec fn init_commands(root: Seq<char>, repository: RepositoryNames) -> Seq<Arguments> {
    let directory = directory_of(root, repository);
    seq![
        seq!["-C"@, directory, "init"@],
        seq!["-C"@, directory, "add"@, "."@],
        seq!["-C"@, directory, "commit"@, "-m"@, "initial commit"@],
        seq!["-C"@, directory, "remote"@, "add"@, "origin"@, remote_address(repository)],
    ]
}

/// The call that pushes a repository.
pub open spec fn push_arguments(root: Seq<char>, repository: RepositoryNames) -> Arguments {
    seq!["-C"@, directory_of(root, repository), "push"@, "-u"@, "origin"@, "HEAD"@]
}

/// The calls that push a repository: a directory that is none yet is made
/// into one first. A dry run calls nothing.
pub open spec fn push_commands(
    root: Seq<char>,
    repository: RepositoryNames,
    has_git: bool,
    dry_run: bool,
) -> Seq<Arguments> {
    if dry_run {
        Seq::empty()
    } else if has_git {
        seq![push_arguments(root, repository)]
    } else {
        init_commands(root, repository).push(push_arguments(root, repository))
    }
}

/// What each of `commands` holds.
pub open spec fn commands_view(commands: Seq<Vec<String>>) -> Seq<Arguments> {
    Seq::new(commands.len(), |i: int| commands[i].deep_view())
}

fn git_in(directory: &str, rest: Vec<String>) -> (r: Vec<String>)
    ensures
        r.deep_view() == seq!["-C"@, directory@] + rest.deep_view(),
{
    let mut command: Vec<String> = Vec::new();
    command.push("-C".to_owned());
    command.push(directory.to_owned());
    let mut i: usize = 0;
    while i < rest.len()
        invariant
            i <= rest.len(),
            command.deep_view() == seq!["-C"@, directory@] + rest.deep_view().take(i as int),
        decreases rest.len() - i,
    {
        let ghost before = command.deep_view();
        let item = rest[i].clone();
        command.push(item);
        assert(command.deep_view() =~= before.push(item@));
        assert(command.deep_view() =~= seq!["-C"@, directory@] + rest.deep_view().take(
            i as int + 1,
        ));
        i = i + 1;
    }
    assert(rest.deep_view().take(i as int) =~= rest.deep_view());
    command
}

fn words1(a: &str) -> (r: Vec<String>)
    ensures
        r.deep_view() == seq![a@],
{
    let mut v: Vec<String> = Vec::new();
    v.push(a.to_owned());
    assert(v.deep_view() =~= seq![a@]);
    v
}

fn words2(a: &str, b: &str) -> (r: Vec<String>)
    ensures
        r.deep_view() == seq![a@, b@],
{
    let mut v: Vec<String> = Vec::new();
    v.push(a.to_owned());
    v.push(b.to_owned());
    assert(v.deep_view() =~= seq![a@, b@]);
    v
}

fn words3(a: &str, b: &str, c: &str) -> (r: Vec<String>)
    ensures
        r.deep_view() == seq![a@, b@, c@],
{
    let mut v: Vec<String> = Vec::new();
    v.push(a.to_owned());
    v.push(b.to_owned());
    v.push(c.to_owned());
    assert(v.deep_view() =~= seq![a@, b@, c@]);
    v
}

fn words4(a: &str, b: &str, c: &str, d: &str) -> (r: Vec<String>)
    ensures
        r.deep_view() == seq![a@, b@, c@, d@],
{
    let mut v: Vec<String> = Vec::new();
    v.push(a.to_owned());
    v.push(b.to_owned());
    v.push(c.to_owned());
    v.push(d.to_owned());
    assert(v.deep_view() =~= seq![a@, b@, c@, d@]);
    v
}

/// The address of a repository for `git`.
pub fn remote_of(repository: &Repository) -> (r: String)
    ensures
        r@ == remote_address(repository@),
{
    let a = concat("git@github.com:", repository.organization().name());
    let b = concat(a.as_str(), "/");
    let c = concat(b.as_str(), repository.name());
    concat(c.as_str(), ".git")
}

/// Lists the calls of `git` that push a repository.
pub fn push_repository(orgs_root: &str, repository: &Repository, has_git: bool, dry_run: bool) -> (r:
    Vec<Vec<String>>)
    ensures
        commands_view(r@) == push_commands(orgs_root@, repository@, has_git, dry_run),
{
    let mut commands: Vec<Vec<String>> = Vec::new();
    if dry_run {
        assert(commands_view(commands@) =~= Seq::<Arguments>::empty());
        return commands;
    }
    let directory = repository.local_path(orgs_root);
    if !has_git {
        commands.push(git_in(directory.as_str(), words1("init")));
        commands.push(git_in(directory.as_str(), words2("add", ".")));
        commands.push(git_in(directory.as_str(), words3("commit", "-m", "initial commit")));
        commands.push(
            git_in(
                directory.as_str(),
                words4("remote", "add", "origin", remote_of(repository).as_str()),
            ),
        );
    }
    commands.push(git_in(directory.as_str(), words4("push", "-u", "origin", "HEAD")));
    proof {
        let d = directory@;
        assert(seq!["-C"@, d] + seq!["init"@] =~= seq!["-C"@, d, "init"@]);
        assert(seq!["-C"@, d] + seq!["add"@, "."@] =~= seq!["-C"@, d, "add"@, "."@]);
        assert(seq!["-C"@, d] + seq!["commit"@, "-m"@, "initial commit"@] =~= seq![
            "-C"@,
            d,
            "commit"@,
            "-m"@,
            "initial commit"@,
        ]);
        assert(seq!["-C"@, d] + seq![
            "remote"@,
            "add"@,
            "origin"@,
            remote_address(repository@),
        ] =~= seq!["-C"@, d, "remote"@, "add"@, "origin"@, remote_address(repository@)]);
        assert(seq!["-C"@, d] + seq!["push"@, "-u"@, "origin"@, "HEAD"@] =~= seq![
            "-C"@,
            d,
            "push"@,
            "-u"@,
            "origin"@,
            "HEAD"@,
        ]);
        assert(commands_view(commands@) =~= push_commands(
            orgs_root@,
            repository@,
            has_git,
            dry_run,
        ));
    }
    commands
}

/// The organizations whose repositories are pulled when none is named:
/// all but the one of the platform itself.
pub open spec fn pulled_organizations(logins: Seq<Seq<char>>) -> Seq<Seq<char>> {
    logins.filter(|login: Seq<char>| login != "p6m-dev"@)
}

/// Picks the organizations whose repositories are pulled.
pub fn pull_organizations(logins: &Vec<String>) -> (r: Vec<String>)
    ensures
        r.deep_view() == pulled_organizations(logins.deep_view()),
{
    let ghost keep = |login: Seq<char>| login != "p6m-dev"@;
    let mut out: Vec<String> = Vec::new();
    let mut i: usize = 0;
    proof {
        reveal(Seq::filter);
        assert(logins.deep_view().take(0) =~= Seq::<Seq<char>>::empty());
    }
    while i < logins.len()
        invariant
            i <= logins.len(),
            keep == (|login: Seq<char>| login != "p6m-dev"@),
            out.deep_view() == logins.deep_view().take(i as int).filter(keep),
        decreases logins.len() - i,
    {
        proof {
            reveal(Seq::filter);
            assert(logins.deep_view().take(i as int + 1).drop_last() =~= logins.deep_view().take(
                i as int,
            ));
            assert(logins.deep_view().take(i as int + 1).last() == logins[i as int]@);
        }
        if !same_text(logins[i].as_str(), "p6m-dev") {
            let ghost before = out.deep_view();
            let login = logins[i].clone();
            out.push(login);
            assert(out.deep_view() =~= before.push(login@));
        }
        i = i + 1;
    }
    assert(logins.deep_view().take(i as int) =~= logins.deep_view());
    out
}

} // verus!
