//! The settings that switch the local tools to the artifacts of an
//! organization: registries, addresses and credentials for Maven, NPM and
//! Poetry.

use crate::git::Organization;
use crate::models::StorageProvider;
use crate::text::concat;
use crate::text::replace;
use crate::text::replaced;
use vstd::prelude::*;
use vstd::utf8::encode_utf8;

verus! {

/// The credentials of the storage providers. Those of a provider that is
/// not the active one are empty.
#[derive(Debug, PartialEq, Eq)]
pub struct Credentials {
    pub artifactory_username: String,
    pub artifactory_identity_token: String,
    pub cloudsmith_username: String,
    pub cloudsmith_api_key: String,
}

/// What the templates of the tool configurations are filled with.
#[derive(Debug, PartialEq, Eq)]
pub struct ContextSettings {
    pub organization_name: String,
    /// The registry of the organization for NPM.
    pub registry_url: String,
    /// The registry of the platform for NPM.
    pub platform_registry_url: String,
    /// The line of `.npmrc` that authenticates.
    pub auth_config: String,
    /// The name of the organization as Poetry spells it.
    pub poetry_organization_name: String,
    pub username: String,
    pub password: String,
    /// Where Poetry publishes to.
    pub alt_publishing_url: String,
}

/// What a [`Credentials`] holds.
pub struct CredentialsView {
    pub artifactory_username: Seq<char>,
    pub artifactory_identity_token: Seq<char>,
    pub cloudsmith_username: Seq<char>,
    pub cloudsmith_api_key: Seq<char>,
}

/// What a [`ContextSettings`] holds.
pub struct SettingsView {
    pub organization_name: Seq<char>,
    pub registry_url: Seq<char>,
    pub platform_registry_url: Seq<char>,
    pub auth_config: Seq<char>,
    pub poetry_organization_name: Seq<char>,
    pub username: Seq<char>,
    pub password: Seq<char>,
    pub alt_publishing_url: Seq<char>,
}

impl View for Credentials {
    type V = CredentialsView;

    open spec fn view(&self) -> CredentialsView {
        CredentialsView {
            artifactory_username: self.artifactory_username@,
            artifactory_identity_token: self.artifactory_identity_token@,
            cloudsmith_username: self.cloudsmith_username@,
            cloudsmith_api_key: self.cloudsmith_api_key@,
        }
    }
}

impl View for ContextSettings {
    type V = SettingsView;

    open spec fn view(&self) -> SettingsView {
        SettingsView {
            organization_name: self.organization_name@,
            registry_url: self.registry_url@,
            platform_registry_url: self.platform_registry_url@,
            auth_config: self.auth_config@,
            poetry_organization_name: self.poetry_organization_name@,
            username: self.username@,
            password: self.password@,
            alt_publishing_url: self.alt_publishing_url@,
        }
    }
}

/// The bytes in base64 with the standard alphabet and padding, as
/// `base64` encodes them.
pub uninterp spec fn base64_standard(bytes: Seq<u8>) -> Seq<char>;

/// `base64::Engine::encode` of the engine `STANDARD` encodes the bytes in
/// base64 with the standard alphabet and padding.
#[verifier::external_body]
fn encode_base64(bytes: &[u8]) -> (r: String)
    ensures
        r@ == base64_standard(bytes@),
{
    base64::Engine::encode(&base64::engine::general_purpose::STANDARD, bytes)
}

/// The environment variables that hold the credentials of a provider:
/// first the user, then the secret.
pub open spec fn credential_variables(provider: StorageProvider) -> (Seq<char>, Seq<char>) {
    match provider {
        StorageProvider::Artifactory => ("ARTIFACTORY_USERNAME"@, "ARTIFACTORY_IDENTITY_TOKEN"@),
        StorageProvider::Cloudsmith => ("CLOUDSMITH_USERNAME"@, "CLOUDSMITH_API_KEY"@),
    }
}

/// The environment variables that have to be set for `provider`.
pub fn required_variables(provider: StorageProvider) -> (r: (&'static str, &'static str))
    ensures
        (r.0@, r.1@) == credential_variables(provider),
{
    match provider {
        StorageProvider::Artifactory => ("ARTIFACTORY_USERNAME", "ARTIFACTORY_IDENTITY_TOKEN"),
        StorageProvider::Cloudsmith => ("CLOUDSMITH_USERNAME", "CLOUDSMITH_API_KEY"),
    }
}

/// What is said of a variable that is not set.
pub fn missing_variable_message(name: &str) -> (r: String)
    ensures
        r@ == name@ + " environment variable must be set."@,
{
    concat(name, " environment variable must be set.")
}

/// The credentials read from the variables of the active provider.
pub fn credentials_of(provider: StorageProvider, user: String, secret: String) -> (r: Credentials)
    ensures
        r@ == (match provider {
            StorageProvider::Artifactory => CredentialsView {
                artifactory_username: user@,
                artifactory_identity_token: secret@,
                cloudsmith_username: Seq::empty(),
                cloudsmith_api_key: Seq::empty(),
            },
            StorageProvider::Cloudsmith => CredentialsView {
                artifactory_username: Seq::empty(),
                artifactory_identity_token: Seq::empty(),
                cloudsmith_username: user@,
                cloudsmith_api_key: secret@,
            },
        }),
{
    match provider {
        StorageProvider::Artifactory => Credentials {
            artifactory_username: user,
            artifactory_identity_token: secret,
            cloudsmith_username: String::new(),
            cloudsmith_api_key: String::new(),
        },
        StorageProvider::Cloudsmith => Credentials {
            artifactory_username: String::new(),
            artifactory_identity_token: String::new(),
            cloudsmith_username: user,
            cloudsmith_api_key: secret,
        },
    }
}

/// The settings for the organization `name` with `provider` active.
pub open spec fn settings_of(name: Seq<char>, provider: StorageProvider, c: CredentialsView)
    -> SettingsView {
    SettingsView {
        organization_name: name,
        registry_url: match provider {
            StorageProvider::Artifactory => "p6m.jfrog.io/artifactory/api/npm/"@ + name + "-npm/"@,
            StorageProvider::Cloudsmith => "npm.cloudsmith.io/p6m-dev/"@ + name + "/"@,
        },
        platform_registry_url: match provider {
            StorageProvider::Artifactory => "p6m.jfrog.io/artifactory/api/npm/p6m-npm/"@,
            StorageProvider::Cloudsmith => "npm.cloudsmith.io/p6m-dev/p6m-run/"@,
        },
        auth_config: match provider {
            StorageProvider::Artifactory => "_auth="@ + base64_standard(
                encode_utf8(c.artifactory_username + ":"@ + c.artifactory_identity_token),
            ),
            StorageProvider::Cloudsmith => "_authToken="@ + c.cloudsmith_api_key,
        },
        poetry_organization_name: replaced(name, "-"@, "_"@),
        username: match provider {
            StorageProvider::Artifactory => c.artifactory_username,
            StorageProvider::Cloudsmith => c.cloudsmith_username,
        },
        password: match provider {
            StorageProvider::Artifactory => c.artifactory_identity_token,
            StorageProvider::Cloudsmith => c.cloudsmith_api_key,
        },
        alt_publishing_url: match provider {
            StorageProvider::Artifactory => "https://p6m.jfrog.io/artifactory/api/pypi/"@ + name
                + "-pypi/"@,
            StorageProvider::Cloudsmith => "https://python.cloudsmith.io/p6m-dev/"@ + name + "/"@,
        },
    }
}

/// Works out the settings of the tools for an organization.
pub fn set_context(
    organization: &Organization,
    active_storage: &StorageProvider,
    credentials: &Credentials,
) -> (r: ContextSettings)
    ensures
        r@ == settings_of(organization@, *active_storage, credentials@),
{
    let name = organization.name();
    let registry_url = match active_storage {
        StorageProvider::Artifactory => {
            let head = concat("p6m.jfrog.io/artifactory/api/npm/", name);
            concat(head.as_str(), "-npm/")
        },
        StorageProvider::Cloudsmith => {
            let head = concat("npm.cloudsmith.io/p6m-dev/", name);
            concat(head.as_str(), "/")
        },
    };
    let platform_registry_url = match active_storage {
        StorageProvider::Artifactory => "p6m.jfrog.io/artifactory/api/npm/p6m-npm/".to_owned(),
        StorageProvider::Cloudsmith => "npm.cloudsmith.io/p6m-dev/p6m-run/".to_owned(),
    };
    let auth_config = match active_storage {
        StorageProvider::Artifactory => {
            let user = concat(credentials.artifactory_username.as_str(), ":");
            let pair = concat(user.as_str(), credentials.artifactory_identity_token.as_str());
            let encoded = encode_base64(pair.as_str().as_bytes());
            concat("_auth=", encoded.as_str())
        },
        StorageProvider::Cloudsmith => concat(
            "_authToken=",
            credentials.cloudsmith_api_key.as_str(),
        ),
    };
    let username = match active_storage {
        StorageProvider::Artifactory => credentials.artifactory_username.clone(),
        StorageProvider::Cloudsmith => credentials.cloudsmith_username.clone(),
    };
    let password = match active_storage {
        StorageProvider::Artifactory => credentials.artifactory_identity_token.clone(),
        StorageProvider::Cloudsmith => credentials.cloudsmith_api_key.clone(),
    };
    let alt_publishing_url = match active_storage {
        StorageProvider::Artifactory => {
            let head = concat("https://p6m.jfrog.io/artifactory/api/pypi/", name);
            concat(head.as_str(), "-pypi/")
        },
        StorageProvider::Cloudsmith => {
            let head = concat("https://python.cloudsmith.io/p6m-dev/", name);
            concat(head.as_str(), "/")
        },
    };
    ContextSettings {
        organization_name: name.to_owned(),
        registry_url,
        platform_registry_url,
        auth_config,
        poetry_organization_name: replace(name, "-", "_"),
        username,
        password,
        alt_publishing_url,
    }
}

} // verus!
