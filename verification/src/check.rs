//! The checks of a workstation: which tools are looked for in which
//! ecosystem, and what is said of what was found.

use crate::text::concat;
use vstd::prelude::*;

verus! {

/// The families of tools that a workstation is checked for.
#[derive(Clone, Copy, Debug, PartialEq, Eq, Structural)]
pub enum Ecosystem {
    Core,
    DotNet,
    Java,
    JavaScript,
    Python,
    Kubernetes,
}

/// The name of an ecosystem on the command line.
pub open spec fn ecosystem_name(ecosystem: Ecosystem) -> Seq<char> {
    match ecosystem {
        Ecosystem::Core => "core"@,
        Ecosystem::DotNet => "dotnet"@,
        Ecosystem::JavaScript => "javascript"@,
        Ecosystem::Java => "java"@,
        Ecosystem::Python => "python"@,
        Ecosystem::Kubernetes => "kubernetes"@,
    }
}

/// The ecosystems in the order in which they are checked when none is
/// named.
pub open spec fn all_ecosystems() -> Seq<Ecosystem> {
    seq![
        Ecosystem::Core,
        Ecosystem::DotNet,
        Ecosystem::Java,
        Ecosystem::JavaScript,
        Ecosystem::Python,
        Ecosystem::Kubernetes,
    ]
}

/// The ecosystems in the order in which the command line offers them.
pub open spec fn offered_ecosystems() -> Seq<Ecosystem> {
    seq![
        Ecosystem::Core,
        Ecosystem::DotNet,
        Ecosystem::JavaScript,
        Ecosystem::Java,
        Ecosystem::Python,
        Ecosystem::Kubernetes,
    ]
}

impl Ecosystem {
    /// The name of the ecosystem on the command line.
    pub fn name(&self) -> (r: &'static str)
        ensures
            r@ == ecosystem_name(*self),
    {
        match self {
            Ecosystem::Core => "core",
            Ecosystem::DotNet => "dotnet",
            Ecosystem::JavaScript => "javascript",
            Ecosystem::Java => "java",
            Ecosystem::Python => "python",
            Ecosystem::Kubernetes => "kubernetes",
        }
    }

    /// The ecosystems in the order in which the command line offers them.
    pub fn value_variants() -> (r: Vec<Ecosystem>)
        ensures
            r@ == offered_ecosystems(),
    {
        let mut all: Vec<Ecosystem> = Vec::new();
        all.push(Ecosystem::Core);
        all.push(Ecosystem::DotNet);
        all.push(Ecosystem::JavaScript);
        all.push(Ecosystem::Java);
        all.push(Ecosystem::Python);
        all.push(Ecosystem::Kubernetes);
        assert(all@ =~= offered_ecosystems());
        all
    }

    /// The ecosystems in the order in which they are checked when none is
    /// named.
    pub fn iter() -> (r: Vec<Ecosystem>)
        ensures
            r@ == all_ecosystems(),
    {
        let mut all: Vec<Ecosystem> = Vec::new();
        all.push(Ecosystem::Core);
        all.push(Ecosystem::DotNet);
        all.push(Ecosystem::Java);
        all.push(Ecosystem::JavaScript);
        all.push(Ecosystem::Python);
        all.push(Ecosystem::Kubernetes);
        assert(all@ =~= all_ecosystems());
        all
    }
}

/// One thing that a workstation is checked for.
#[derive(Clone, Copy, Debug, PartialEq, Eq, Structural)]
pub enum Check {
    ArchetectBinary,
    ArchetectConfig,
    GitInstalled,
    GitAuthor,
    Docker,
    ArtifactManagementTokens,
    DotnetBinary,
    Java,
    MavenBinary,
    MavenSettings,
    Node,
    Npm,
    Python,
    Pip,
    Kubectl,
    Tilt,
    K9s,
}

/// The checks of an ecosystem, in the order in which they are made.
pub open spec fn checks_of(ecosystem: Ecosystem) -> Seq<Check> {
    match ecosystem {
        Ecosystem::Core => seq![
            Check::ArchetectBinary,
            Check::ArchetectConfig,
            Check::GitInstalled,
            Check::GitAuthor,
            Check::Docker,
            Check::ArtifactManagementTokens,
        ],
        Ecosystem::DotNet => seq![Check::DotnetBinary],
        Ecosystem::Java => seq![Check::Java, Check::MavenBinary, Check::MavenSettings],
        Ecosystem::JavaScript => seq![Check::Node, Check::Npm],
        Ecosystem::Kubernetes => seq![Check::Kubectl, Check::Tilt, Check::K9s],
        Ecosystem::Python => seq![Check::Python, Check::Pip],
    }
}

/// Lists the checks of an ecosystem.
pub fn check_ecosystem(ecosystem: &Ecosystem) -> (r: Vec<Check>)
    ensures
        r@ == checks_of(*ecosystem),
{
    let mut checks: Vec<Check> = Vec::new();
    match ecosystem {
        Ecosystem::Core => {
            checks.push(Check::ArchetectBinary);
            checks.push(Check::ArchetectConfig);
            checks.push(Check::GitInstalled);
            checks.push(Check::GitAuthor);
            checks.push(Check::Docker);
            checks.push(Check::ArtifactManagementTokens);
        },
        Ecosystem::DotNet => {
            checks.push(Check::DotnetBinary);
        },
        Ecosystem::Java => {
            checks.push(Check::Java);
            checks.push(Check::MavenBinary);
            checks.push(Check::MavenSettings);
        },
        Ecosystem::JavaScript => {
            checks.push(Check::Node);
            checks.push(Check::Npm);
        },
        Ecosystem::Kubernetes => {
            checks.push(Check::Kubectl);
            checks.push(Check::Tilt);
            checks.push(Check::K9s);
        },
        Ecosystem::Python => {
            checks.push(Check::Python);
            checks.push(Check::Pip);
        },
    }
    assert(checks@ =~= checks_of(*ecosystem));
    checks
}

/// A tool that is looked for by running it.
#[derive(Debug, PartialEq, Eq)]
pub struct ToolCheck {
    /// The name by which the tool is reported.
    pub check_name: &'static str,
    pub program: &'static str,
    pub args: Vec<&'static str>,
    /// Where the documentation says how to install it.
    pub doc_path: &'static str,
}

/// What the strings of `args` hold.
pub open spec fn args_view(args: Seq<&'static str>) -> Seq<Seq<char>> {
    Seq::new(args.len(), |i: int| args[i]@)
}

/// The tool that a check looks for by running it: its name, the program
/// with its arguments, and the place of its documentation. The checks of
/// configuration run nothing.
pub open spec fn tool_of(check: Check) -> Option<
    (Seq<char>, Seq<char>, Seq<Seq<char>>, Seq<char>),
> {
    match check {
        Check::ArchetectBinary => Some(
            ("Archetect"@, "archetect"@, seq!["--version"@], "archetect/#installation"@),
        ),
        Check::GitInstalled => Some(("Git"@, "git"@, seq!["--version"@], "scm/#git"@)),
        Check::Docker => Some(("Docker"@, "docker"@, seq!["--version"@], "core/docker/"@)),
        Check::DotnetBinary => Some(("dotnet"@, "dotnet"@, seq!["--version"@], "dotnet/"@)),
        Check::Java => Some(("Java"@, "java"@, seq!["--version"@], "java/#java"@)),
        Check::MavenBinary => Some(("Maven"@, "mvn"@, seq!["--version"@], "java/#maven"@)),
        Check::Node => Some(("NodeJS"@, "node"@, seq!["--version"@], "javascript/#nodejs"@)),
        Check::Npm => Some(("NPM"@, "npm"@, seq!["--version"@], "javascript/#npm"@)),
        Check::Python => Some(("Python"@, "python3"@, seq!["--version"@], "python/#python"@)),
        Check::Pip => Some(("PIP"@, "pip3"@, seq!["--version"@], "python/#pip"@)),
        Check::Kubectl => Some(
            (
                "kubectl"@,
                "kubectl"@,
                seq!["version"@, "--client=true"@],
                "core/kubernetes/#kubectl"@,
            ),
        ),
        Check::Tilt => Some(("Tilt"@, "tilt"@, seq!["version"@], "core/kubernetes/#tilt"@)),
        Check::K9s => Some(("k9s"@, "k9s"@, seq!["version"@], "core/kubernetes/#k9s"@)),
        _ => None,
    }
}

/// What an optional tool holds.
pub open spec fn tool_view(r: Option<ToolCheck>) -> Option<
    (Seq<char>, Seq<char>, Seq<Seq<char>>, Seq<char>),
> {
    match r {
        Some(t) => Some((t.check_name@, t.program@, args_view(t.args@), t.doc_path@)),
        None => None,
    }
}

fn tool(
    check_name: &'static str,
    program: &'static str,
    first: &'static str,
    second: Option<&'static str>,
    doc_path: &'static str,
) -> (r: ToolCheck)
    ensures
        r.check_name@ == check_name@,
        r.program@ == program@,
        r.doc_path@ == doc_path@,
        args_view(r.args@) == (match second {
            Some(s) => seq![first@, s@],
            None => seq![first@],
        }),
{
    let mut args: Vec<&'static str> = Vec::new();
    args.push(first);
    if let Some(s) = second {
        args.push(s);
        assert(args_view(args@) =~= seq![first@, s@]);
    } else {
        assert(args_view(args@) =~= seq![first@]);
    }
    ToolCheck { check_name, program, args, doc_path }
}

/// The tool that a check looks for by running it.
pub fn perform_check(check: Check) -> (r: Option<ToolCheck>)
    ensures
        tool_view(r) == tool_of(check),
{
    match check {
        Check::ArchetectBinary => Some(
            tool("Archetect", "archetect", "--version", None, "archetect/#installation"),
        ),
        Check::GitInstalled => Some(tool("Git", "git", "--version", None, "scm/#git")),
        Check::Docker => Some(tool("Docker", "docker", "--version", None, "core/docker/")),
        Check::DotnetBinary => Some(tool("dotnet", "dotnet", "--version", None, "dotnet/")),
        Check::Java => Some(tool("Java", "java", "--version", None, "java/#java")),
        Check::MavenBinary => Some(tool("Maven", "mvn", "--version", None, "java/#maven")),
        Check::Node => Some(tool("NodeJS", "node", "--version", None, "javascript/#nodejs")),
        Check::Npm => Some(tool("NPM", "npm", "--version", None, "javascript/#npm")),
        Check::Python => Some(tool("Python", "python3", "--version", None, "python/#python")),
        Check::Pip => Some(tool("PIP", "pip3", "--version", None, "python/#pip")),
        Check::Kubectl => Some(
            tool("kubectl", "kubectl", "version", Some("--client=true"), "core/kubernetes/#kubectl"),
        ),
        Check::Tilt => Some(tool("Tilt", "tilt", "version", None, "core/kubernetes/#tilt")),
        Check::K9s => Some(tool("k9s", "k9s", "version", None, "core/kubernetes/#k9s")),
        _ => None,
    }
}

/// Where the documentation of the workstation begins.
pub open spec fn docs_prefix() -> Seq<char> {
    "https://developer.p6m.dev/docs/workstation"@
}

/// The line that points to the documentation.
pub open spec fn see_also_line(path: Seq<char>) -> Seq<char> {
    "\n\t   See: "@ + docs_prefix() + "/"@ + path
}

/// The line that announces a check.
pub open spec fn heading_line(check_name: Seq<char>) -> Seq<char> {
    "\n\u{1F50D} Checking "@ + check_name
}

/// The lines that report what a tool printed: the first is marked as a
/// success, and so are the others where all lines are; else the others are
/// set below it.
pub open spec fn success_lines(lines: Seq<Seq<char>>, all_lines: bool) -> Seq<Seq<char>> {
    Seq::new(
        lines.len(),
        |i: int|
            if i == 0 || all_lines {
                "\t\u{1F7E2} "@ + lines[i]
            } else {
                "\t   "@ + lines[i]
            },
    )
}

/// How running a tool ended.
#[derive(Debug, PartialEq, Eq)]
pub enum ToolOutcome {
    /// It ran and succeeded, printing these lines.
    Succeeded { lines: Vec<String> },
    /// It ran and failed with this status code.
    Failed { code: i32 },
    /// It is not on the path.
    NotFound,
}

/// The lines that report a check of a tool, after the heading.
pub open spec fn report_of(
    check_name: Seq<char>,
    doc_path: Seq<char>,
    succeeded: Option<Seq<Seq<char>>>,
    code: Option<i32>,
) -> Seq<Seq<char>> {
    match succeeded {
        Some(lines) => success_lines(lines, false),
        None => match code {
            Some(c) => seq![
                "\t\u{1F534} "@ + check_name
                    + " was found, but returned an unexpected Status Code: "@
                    + crate::text::signed_decimal_text(c as int),
                see_also_line(doc_path),
            ],
            None => seq![
                "\t\u{1F534} "@ + check_name + " is required, but was not found on the PATH"@,
                see_also_line(doc_path),
            ],
        },
    }
}

/// The line that points to the documentation.
pub fn print_see_also(path: &str) -> (r: String)
    ensures
        r@ == see_also_line(path@),
{
    let a = concat("\n\t   See: ", "https://developer.p6m.dev/docs/workstation");
    let b = concat(a.as_str(), "/");
    concat(b.as_str(), path)
}

/// The line that announces a check.
pub fn print_heading(check_name: &str) -> (r: String)
    ensures
        r@ == heading_line(check_name@),
{
    concat("\n\u{1F50D} Checking ", check_name)
}

/// The lines that report what a tool printed.
pub fn print_success_lines(lines: &Vec<String>, all_lines: bool) -> (r: Vec<String>)
    ensures
        r.deep_view() == success_lines(lines.deep_view(), all_lines),
{
    let mut out: Vec<String> = Vec::new();
    let mut i: usize = 0;
    while i < lines.len()
        invariant
            i <= lines.len(),
            out.deep_view() == success_lines(lines.deep_view(), all_lines).take(i as int),
        decreases lines.len() - i,
    {
        let ghost before = out.deep_view();
        let line = if i == 0 || all_lines {
            concat("\t\u{1F7E2} ", lines[i].as_str())
        } else {
            concat("\t   ", lines[i].as_str())
        };
        out.push(line);
        assert(out.deep_view() =~= before.push(line@));
        assert(out.deep_view() =~= success_lines(lines.deep_view(), all_lines).take(i as int + 1));
        i = i + 1;
    }
    assert(out.deep_view() =~= success_lines(lines.deep_view(), all_lines));
    out
}

/// The lines that report a check of a tool, after the heading.
pub fn report(check_name: &str, doc_path: &str, outcome: &ToolOutcome) -> (r: Vec<String>)
    ensures
        r.deep_view() == (match outcome {
            ToolOutcome::Succeeded { lines } => report_of(
                check_name@,
                doc_path@,
                Some(lines.deep_view()),
                None,
            ),
            ToolOutcome::Failed { code } => report_of(check_name@, doc_path@, None, Some(*code)),
            ToolOutcome::NotFound => report_of(check_name@, doc_path@, None, None),
        }),
{
    match outcome {
        ToolOutcome::Succeeded { lines } => print_success_lines(lines, false),
        ToolOutcome::Failed { code } => {
            let a = concat("\t\u{1F534} ", check_name);
            let b = concat(a.as_str(), " was found, but returned an unexpected Status Code: ");
            let c = concat(b.as_str(), crate::text::signed_decimal(*code as i64).as_str());
            let mut out: Vec<String> = Vec::new();
            out.push(c);
            out.push(print_see_also(doc_path));
            assert(out.deep_view() =~= report_of(check_name@, doc_path@, None, Some(*code)));
            out
        },
        ToolOutcome::NotFound => {
            let a = concat("\t\u{1F534} ", check_name);
            let b = concat(a.as_str(), " is required, but was not found on the PATH");
            let mut out: Vec<String> = Vec::new();
            out.push(b);
            out.push(print_see_also(doc_path));
            assert(out.deep_view() =~= report_of(check_name@, doc_path@, None, None));
            out
        },
    }
}

/// The line that says who the author of commits is, where name and email
/// are both set to something.
pub open spec fn author_line(name: Seq<char>, email: Seq<char>) -> Option<Seq<char>> {
    if name.len() > 0 && email.len() > 0 {
        Some("\t\u{1F7E2} "@ + name + " <"@ + email + ">"@)
    } else {
        None
    }
}

/// The line that says who the author of commits is.
pub fn check_git_author(name: &str, email: &str) -> (r: Option<String>)
    ensures
        r.deep_view() == author_line(name@, email@),
{
    if name.unicode_len() > 0 && email.unicode_len() > 0 {
        let a = concat("\t\u{1F7E2} ", name);
        let b = concat(a.as_str(), " <");
        let c = concat(b.as_str(), email);
        Some(concat(c.as_str(), ">"))
    } else {
        None
    }
}

/// Whether the tokens for the artifact store are there: both the user and
/// the token are set to something.
pub fn check_artifact_management_tokens(identity: Option<&String>, token: Option<&String>) -> (r:
    bool)
    ensures
        r == (identity is Some && identity->0@.len() > 0 && token is Some && token->0@.len() > 0),
{
    match (identity, token) {
        (Some(i), Some(t)) => i.as_str().unicode_len() > 0 && t.as_str().unicode_len() > 0,
        _ => false,
    }
}

/// What is said of the version of the command line against the latest
/// release.
pub open spec fn version_line(current: Seq<char>, latest: Seq<char>) -> Seq<char> {
    if latest == "v"@ + current {
        "\t\u{1F7E2} "@ + latest
    } else {
        "\t\u{1F7E1} The current version of the p6m CLI is "@ + ("v"@ + current) + ", but "@
            + latest + " is available."@
    }
}

/// What is said of the version of the command line against the tag of the
/// latest release.
pub fn check_self(current_version: &str, latest_tag: &str) -> (r: String)
    ensures
        r@ == version_line(current_version@, latest_tag@),
{
    let current = concat("v", current_version);
    if crate::text::same_text(latest_tag, current.as_str()) {
        concat("\t\u{1F7E2} ", latest_tag)
    } else {
        let a = concat("\t\u{1F7E1} The current version of the p6m CLI is ", current.as_str());
        let b = concat(a.as_str(), ", but ");
        let c = concat(b.as_str(), latest_tag);
        concat(c.as_str(), " is available.")
    }
}

} // verus!
