use p6m::auth0::AuthToken;
use p6m::check::{
    check_artifact_management_tokens, check_ecosystem, check_git_author, check_self,
    perform_check, print_heading, print_see_also, print_success_lines, report, Check, Ecosystem,
    ToolOutcome,
};
use p6m::cli::P6mEnvironment;
use p6m::context::{
    credentials_of, missing_variable_message, required_variables, set_context, ContextSettings,
};
use p6m::device_code_request::{DeviceCodeRequest, Exchange};
use p6m::git::Organization;
use p6m::jwt::{generate_jwt, insecure_claims_json};
use p6m::models::{
    AzureAccountState, AzureAksCluster, AzureConfig, StorageProvider,
};
use p6m::open::{argocd_page, artifactory_page};
use p6m::purge::{ide_file_patterns, is_hidden, purge_ide_files, purge_maven, purge_step, PurgeStep};
use p6m::claims::Claims;
use p6m::version::current_version;

fn words(items: &[&str]) -> Vec<String> {
    items.iter().map(|s| s.to_string()).collect()
}

#[test]
fn context_for_artifactory() {
    let credentials =
        credentials_of(StorageProvider::Artifactory, "user".to_string(), "token".to_string());
    assert_eq!(credentials.cloudsmith_api_key, "");
    let settings = set_context(
        &Organization::new("acme-corp".to_string()),
        &StorageProvider::Artifactory,
        &credentials,
    );
    assert_eq!(
        settings,
        ContextSettings {
            organization_name: "acme-corp".to_string(),
            registry_url: "p6m.jfrog.io/artifactory/api/npm/acme-corp-npm/".to_string(),
            platform_registry_url: "p6m.jfrog.io/artifactory/api/npm/p6m-npm/".to_string(),
            auth_config: "_auth=dXNlcjp0b2tlbg==".to_string(),
            poetry_organization_name: "acme_corp".to_string(),
            username: "user".to_string(),
            password: "token".to_string(),
            alt_publishing_url: "https://p6m.jfrog.io/artifactory/api/pypi/acme-corp-pypi/"
                .to_string(),
        }
    );
}

#[test]
fn context_for_cloudsmith() {
    let credentials =
        credentials_of(StorageProvider::Cloudsmith, "robot".to_string(), "key".to_string());
    assert_eq!(credentials.artifactory_username, "");
    let settings = set_context(
        &Organization::new("acme".to_string()),
        &StorageProvider::Cloudsmith,
        &credentials,
    );
    assert_eq!(settings.registry_url, "npm.cloudsmith.io/p6m-dev/acme/");
    assert_eq!(settings.platform_registry_url, "npm.cloudsmith.io/p6m-dev/p6m-run/");
    assert_eq!(settings.auth_config, "_authToken=key");
    assert_eq!(settings.username, "robot");
    assert_eq!(settings.password, "key");
    assert_eq!(settings.alt_publishing_url, "https://python.cloudsmith.io/p6m-dev/acme/");
    assert_eq!(
        required_variables(StorageProvider::Cloudsmith),
        ("CLOUDSMITH_USERNAME", "CLOUDSMITH_API_KEY")
    );
    assert_eq!(
        required_variables(StorageProvider::Artifactory),
        ("ARTIFACTORY_USERNAME", "ARTIFACTORY_IDENTITY_TOKEN")
    );
    assert_eq!(
        missing_variable_message("CLOUDSMITH_API_KEY"),
        "CLOUDSMITH_API_KEY environment variable must be set."
    );
    assert_eq!(StorageProvider::default(), StorageProvider::Artifactory);
    assert_eq!(StorageProvider::Cloudsmith.name(), "cloudsmith");
    assert_eq!(StorageProvider::Artifactory.name(), "artifactory");
}

#[test]
fn pages_of_an_organization() {
    assert_eq!(argocd_page("acme"), "https://acme-argocd.run-studio.p6m.run/applications");
    assert_eq!(artifactory_page("acme"), "https://ybor.jfrog.io/ui/packages?projectKey=acme");
}

#[test]
fn version_is_reported_as_json() {
    let version = current_version("1.2.3", "abc\"def", true);
    assert_eq!(
        version.to_json(),
        "{\"version\":\"1.2.3\",\"commit_hash\":\"abc\\\"def\",\"is_dirty\":true}"
    );
    assert_eq!(
        current_version("0.1.0", "", false).to_json(),
        "{\"version\":\"0.1.0\",\"commit_hash\":\"\",\"is_dirty\":false}"
    );
}

#[test]
fn environment_lies_below_the_home_directory() {
    let prod = P6mEnvironment::init("/home/u", false);
    assert_eq!(prod.config_dir(), "/home/u/.p6m");
    assert_eq!(prod.kube_dir(), "/home/u/.kube");
    assert_eq!(prod.auth_dir, "/home/u/.p6m/auth");
    assert_eq!(prod.auth_n.client_id, Some("j4jEhWwe2od1eacxuocy0sfmbf7V4H8V".to_string()));
    assert_eq!(
        prod.auth_n.discovery_uri,
        Some("https://auth.p6m.run/.well-known/openid-configuration".to_string())
    );
    assert_eq!(prod.auth_n.apps_uri, Some("https://auth.p6m.dev/api".to_string()));
    assert_eq!(prod.auth_n.token_preference, Some(AuthToken::Id));
    assert_eq!(prod.auth_n.acr_values, None);
    assert_eq!(
        prod.auth_n.params.as_ref().unwrap().get("audience"),
        Some(&"https://api.p6m.run/v1/".to_string())
    );
    let dev = P6mEnvironment::init("/home/u", true);
    assert_eq!(dev.config_dir(), "/home/u/.p6m-dev");
    assert_eq!(dev.auth_dir, "/home/u/.p6m-dev/auth");
    assert_eq!(
        dev.auth_n.apps_uri,
        Some("https://9b6hcz5ny6.execute-api.us-east-2.amazonaws.com/api".to_string())
    );
    assert_eq!(dev.auth_n.acr_values, Some(words(&["urn:auth:dev:true"])));
}

#[test]
fn purge_decides_by_pattern_kind_and_visibility() {
    assert_eq!(
        ide_file_patterns(),
        words(&["*.iml", "**/.idea", ".project", ".classpath", "**/.settings"])
    );
    let removed_file = PurgeStep {
        remove_file: true,
        remove_dir: false,
        skip_dir: false,
    };
    let removed_dir = PurgeStep {
        remove_file: false,
        remove_dir: true,
        skip_dir: true,
    };
    let nothing = PurgeStep {
        remove_file: false,
        remove_dir: false,
        skip_dir: false,
    };
    assert_eq!(purge_ide_files("./a/project.iml", "project.iml", true, false, false), Some(removed_file));
    assert_eq!(purge_ide_files("./a/.idea", ".idea", false, true, false), Some(removed_dir));
    assert_eq!(
        purge_ide_files("./a/.idea", ".idea", false, true, true),
        Some(PurgeStep {
            remove_file: false,
            remove_dir: false,
            skip_dir: true
        })
    );
    assert_eq!(purge_ide_files("./a/src/main.rs", "main.rs", true, false, false), Some(nothing));
    assert_eq!(
        purge_ide_files("./a/.git", ".git", false, true, false),
        Some(PurgeStep {
            remove_file: false,
            remove_dir: false,
            skip_dir: true
        })
    );
    assert_eq!(purge_ide_files("./a/.gitignore", ".gitignore", true, false, false), Some(nothing));
    assert_eq!(purge_step(true, true, false, false, false), removed_file);
    assert_eq!(purge_step(false, false, true, false, false), nothing);
    assert!(is_hidden(".git"));
    assert!(!is_hidden("."));
    assert!(!is_hidden("src"));
    assert!(!is_hidden(""));
}

#[test]
fn maven_cache_of_a_group() {
    assert_eq!(
        purge_maven("/home/u", "com.acme.tools"),
        Some("/home/u/.m2/repository/com/acme/tools".to_string())
    );
    assert_eq!(purge_maven("/home/u", ".hidden"), None);
    assert_eq!(purge_maven("/home/u", "/etc"), None);
    assert_eq!(purge_maven("/home/u", ""), Some("/home/u/.m2/repository/".to_string()));
}

#[test]
fn ecosystems_and_their_checks() {
    assert_eq!(
        Ecosystem::value_variants(),
        vec![
            Ecosystem::Core,
            Ecosystem::DotNet,
            Ecosystem::JavaScript,
            Ecosystem::Java,
            Ecosystem::Python,
            Ecosystem::Kubernetes
        ]
    );
    assert_eq!(
        Ecosystem::iter(),
        vec![
            Ecosystem::Core,
            Ecosystem::DotNet,
            Ecosystem::Java,
            Ecosystem::JavaScript,
            Ecosystem::Python,
            Ecosystem::Kubernetes
        ]
    );
    let names: Vec<&str> = Ecosystem::value_variants().iter().map(|e| e.name()).collect();
    assert_eq!(names, vec!["core", "dotnet", "javascript", "java", "python", "kubernetes"]);
    assert_eq!(
        check_ecosystem(&Ecosystem::Core),
        vec![
            Check::ArchetectBinary,
            Check::ArchetectConfig,
            Check::GitInstalled,
            Check::GitAuthor,
            Check::Docker,
            Check::ArtifactManagementTokens
        ]
    );
    assert_eq!(
        check_ecosystem(&Ecosystem::Java),
        vec![Check::Java, Check::MavenBinary, Check::MavenSettings]
    );
    assert_eq!(check_ecosystem(&Ecosystem::DotNet), vec![Check::DotnetBinary]);
    assert_eq!(check_ecosystem(&Ecosystem::JavaScript), vec![Check::Node, Check::Npm]);
    assert_eq!(check_ecosystem(&Ecosystem::Python), vec![Check::Python, Check::Pip]);
    assert_eq!(
        check_ecosystem(&Ecosystem::Kubernetes),
        vec![Check::Kubectl, Check::Tilt, Check::K9s]
    );
    let kubectl = perform_check(Check::Kubectl).unwrap();
    assert_eq!(kubectl.check_name, "kubectl");
    assert_eq!(kubectl.program, "kubectl");
    assert_eq!(kubectl.args, vec!["version", "--client=true"]);
    assert_eq!(kubectl.doc_path, "core/kubernetes/#kubectl");
    let maven = perform_check(Check::MavenBinary).unwrap();
    assert_eq!(maven.program, "mvn");
    assert_eq!(maven.args, vec!["--version"]);
    assert_eq!(maven.doc_path, "java/#maven");
    assert!(perform_check(Check::MavenSettings).is_none());
    assert!(perform_check(Check::GitAuthor).is_none());
}

#[test]
fn reports_of_checks() {
    assert_eq!(
        print_see_also("java/#maven"),
        "\n\t   See: https://developer.p6m.dev/docs/workstation/java/#maven"
    );
    assert_eq!(print_heading("Docker"), "\n🔍 Checking Docker");
    assert_eq!(
        print_success_lines(&words(&["git version 2.40", "more"]), false),
        words(&["\t🟢 git version 2.40", "\t   more"])
    );
    assert_eq!(
        print_success_lines(&words(&["a", "b"]), true),
        words(&["\t🟢 a", "\t🟢 b"])
    );
    assert_eq!(
        report("Docker", "core/docker/", &ToolOutcome::Failed { code: -2 }),
        words(&[
            "\t🔴 Docker was found, but returned an unexpected Status Code: -2",
            "\n\t   See: https://developer.p6m.dev/docs/workstation/core/docker/"
        ])
    );
    assert_eq!(
        report("Docker", "core/docker/", &ToolOutcome::NotFound),
        words(&[
            "\t🔴 Docker is required, but was not found on the PATH",
            "\n\t   See: https://developer.p6m.dev/docs/workstation/core/docker/"
        ])
    );
    assert_eq!(
        report(
            "Docker",
            "core/docker/",
            &ToolOutcome::Succeeded {
                lines: words(&["Docker version 24"])
            }
        ),
        words(&["\t🟢 Docker version 24"])
    );
    assert_eq!(check_git_author("Ann", "ann@b.com"), Some("\t🟢 Ann <ann@b.com>".to_string()));
    assert_eq!(check_git_author("", "ann@b.com"), None);
    assert_eq!(check_git_author("Ann", ""), None);
    let user = "u".to_string();
    let empty = String::new();
    assert!(check_artifact_management_tokens(Some(&user), Some(&user)));
    assert!(!check_artifact_management_tokens(Some(&user), Some(&empty)));
    assert!(!check_artifact_management_tokens(None, Some(&user)));
    assert_eq!(check_self("1.2.3", "v1.2.3"), "\t🟢 v1.2.3");
    assert_eq!(
        check_self("1.2.3", "v1.3.0"),
        "\t🟡 The current version of the p6m CLI is v1.2.3, but v1.3.0 is available."
    );
}

#[test]
fn azure_records_read_as_lines() {
    let config = AzureConfig {
        cloud_name: None,
        home_tenant_id: None,
        id: "sub-1".to_string(),
        is_default: Some(true),
        name: Some("Main".to_string()),
        state: Some(AzureAccountState::Disabled),
        tenant_id: None,
    };
    assert_eq!(config.to_string(), "AzureConfig: Main(sub-1)");
    assert!(config.is_disabled());
    let unnamed = AzureConfig {
        name: None,
        state: Some(AzureAccountState::Enabled),
        ..config
    };
    assert_eq!(unnamed.to_string(), "AzureConfig: (sub-1)");
    assert!(!unnamed.is_disabled());
    let cluster = AzureAksCluster {
        ClusterName: "aks-1".to_string(),
        ResourceGroup: "rg".to_string(),
    };
    assert_eq!(cluster.to_string(), "AKS Cluster: aks-1(rg)");
}

#[test]
fn development_token_carries_its_expiry() {
    assert_eq!(
        insecure_claims_json(86400),
        "{\"iss\":\"http://example.com\",\"sub\":\"1234567890\",\"exp\":86400,\
         \"name\":\"John Doe\",\"admin\":true,\
         \"scope\":\"products:read products:write orders:read\"}"
    );
    let token = generate_jwt(1, 0).unwrap();
    let claims = Claims::decode(&token).unwrap();
    assert_eq!(claims.exp, Some(86400));
    assert_eq!(claims.scope, Some("products:read products:write orders:read".to_string()));
    assert_eq!(token.split('.').count(), 3);
    assert_eq!(
        token.split('.').next().unwrap(),
        "eyJhbGciOiJIUzI1NiIsInR5cCI6IkpXVCJ9"
    );
    assert_eq!(generate_jwt(2, 1_700_000_000).map(|t| Claims::decode(&t).unwrap().exp), Some(Some(1_700_172_800)));
    assert_eq!(generate_jwt(1, i64::MAX), None);
}

#[test]
fn device_code_request_decides_what_to_do() {
    let request = DeviceCodeRequest::new("client", "https://api.example/");
    assert_eq!(request.scope, "openid email offline_access");
    let token = "r".to_string();
    assert_eq!(request.exchange_for_token(None, true), Exchange::NotLoggedIn);
    assert_eq!(
        request.exchange_for_token(Some(&token), true),
        Exchange::Refresh {
            refresh_token: "r".to_string()
        }
    );
    assert_eq!(request.exchange_for_token(Some(&token), false), Exchange::Current);
    let forced = DeviceCodeRequest::new("client", "aud").force_new();
    assert_eq!(forced.exchange_for_token(None, false), Exchange::DeviceFlow);
    assert_eq!(forced.exchange_for_token(Some(&token), false), Exchange::DeviceFlow);
    let silent = DeviceCodeRequest::new("client", "aud").force_new().interactive(false);
    assert_eq!(
        silent.exchange_for_token(Some(&token), true),
        Exchange::NotInteractive { force: true }
    );
    let quiet = DeviceCodeRequest::new("client", "aud").interactive(false);
    assert_eq!(quiet.exchange_for_token(None, true), Exchange::NotLoggedIn);
    assert_eq!(quiet.exchange_for_token(Some(&token), false), Exchange::Current);
}

#[test]
fn device_code_request_keeps_scopes_sorted_and_unique() {
    let request = DeviceCodeRequest::new("client", "aud").with_scope("email").with_scope("admin");
    assert_eq!(request.scope, "admin email offline_access openid");
    let granted = "openid zeta".to_string();
    let narrowed = DeviceCodeRequest::new("client", "aud").with_organization("org_1", Some(&granted));
    assert_eq!(narrowed.scope, "openid org:org_1 zeta");
    let fields = narrowed.refresh(&"r-1".to_string());
    assert_eq!(fields.get("grant_type"), Some(&"refresh_token".to_string()));
    assert_eq!(fields.get("client_id"), Some(&"client".to_string()));
    assert_eq!(fields.get("refresh_token"), Some(&"r-1".to_string()));
    assert_eq!(
        fields.get("acr_values"),
        Some(&"urn:auth:acr:organization-id:org_1".to_string())
    );
    let plain = DeviceCodeRequest::new("client", "aud").with_organization("org_2", None);
    assert_eq!(plain.scope, "email offline_access openid org:org_2");
    let sent = plain.send();
    assert_eq!(sent.get("audience"), Some(&"aud".to_string()));
    assert_eq!(sent.get("scope"), Some(&"email offline_access openid org:org_2".to_string()));
    assert_eq!(sent.len(), 3);
    assert_eq!(DeviceCodeRequest::new("c", "a").refresh(&"r".to_string()).len(), 3);
}
