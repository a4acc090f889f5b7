//! Plain records of the cloud providers and of the command line.

use crate::text::concat;
use vstd::prelude::*;

verus! {

/// Where artifacts are stored.
#[derive(Clone, Copy, Debug, PartialEq, Eq, Structural)]
pub enum StorageProvider {
    Artifactory,
    Cloudsmith,
}

impl Default for StorageProvider {
    fn default() -> (r: StorageProvider)
        ensures
            r == StorageProvider::Artifactory,
    {
        StorageProvider::Artifactory
    }
}

/// The name of a storage provider on the command line.
pub open spec fn storage_provider_name(provider: StorageProvider) -> Seq<char> {
    match provider {
        StorageProvider::Artifactory => "artifactory"@,
        StorageProvider::Cloudsmith => "cloudsmith"@,
    }
}

impl StorageProvider {
    /// The name of the provider on the command line and in templates.
    pub fn name(&self) -> (r: &'static str)
        ensures
            r@ == storage_provider_name(*self),
    {
        match self {
            StorageProvider::Artifactory => "artifactory",
            StorageProvider::Cloudsmith => "cloudsmith",
        }
    }
}

/// The installation that the command line talks to.
#[derive(Clone, Copy, Debug, PartialEq, Eq, Structural)]
pub enum Environment {
    Dev,
    Staging,
    Prod,
}

/// The cached session of the single sign-on of AWS.
#[allow(non_snake_case)]
#[derive(Debug, PartialEq, Eq)]
pub struct AwsConfig {
    pub accessToken: String,
    /// When the session expires, in seconds since the epoch.
    pub expiresAt: i64,
}

/// An account that the single sign-on of AWS gives access to.
#[derive(Debug, PartialEq, Eq)]
pub struct AwsAccountInfo {
    pub account_id: String,
    pub account_slug: String,
}

impl Clone for AwsAccountInfo {
    fn clone(&self) -> (r: AwsAccountInfo)
        ensures
            r.account_id@ == self.account_id@,
            r.account_slug@ == self.account_slug@,
    {
        AwsAccountInfo {
            account_id: self.account_id.clone(),
            account_slug: self.account_slug.clone(),
        }
    }
}

/// An account together with the role to take in it.
#[derive(Debug, PartialEq, Eq)]
pub struct AwsAccountRoleInfo {
    pub account_id: String,
    pub account_slug: String,
    pub role_name: String,
}

/// What `aws eks list-clusters` prints.
#[derive(Debug, PartialEq, Eq)]
pub struct AwsEksListClustersResponse {
    pub clusters: Vec<String>,
}

/// Whether a subscription of Azure can be used.
#[derive(Clone, Copy, Debug, PartialEq, Eq, Structural)]
pub enum AzureAccountState {
    Enabled,
    Disabled,
}

/// A subscription of Azure.
#[derive(Debug, PartialEq, Eq)]
pub struct AzureConfig {
    pub cloud_name: Option<String>,
    pub home_tenant_id: Option<String>,
    pub id: String,
    pub is_default: Option<bool>,
    pub name: Option<String>,
    pub state: Option<AzureAccountState>,
    pub tenant_id: Option<String>,
}

/// The name of an optional text, the empty text for none.
pub open spec fn name_or_empty(name: Option<Seq<char>>) -> Seq<char> {
    match name {
        Some(n) => n,
        None => Seq::empty(),
    }
}

impl AzureConfig {
    /// The subscription in one line: its name, and its id in brackets.
    pub fn to_string(&self) -> (r: String)
        ensures
            r@ == "AzureConfig: "@ + name_or_empty(self.name.deep_view()) + "("@ + self.id@ + ")"@,
    {
        let name = match &self.name {
            Some(n) => n.clone(),
            None => String::new(),
        };
        let a = concat("AzureConfig: ", name.as_str());
        let b = concat(a.as_str(), "(");
        let c = concat(b.as_str(), self.id.as_str());
        concat(c.as_str(), ")")
    }

    /// Whether the subscription is to be passed over: it is disabled.
    pub fn is_disabled(&self) -> (r: bool)
        ensures
            r == (self.state == Some(AzureAccountState::Disabled)),
    {
        match self.state {
            Some(AzureAccountState::Disabled) => true,
            _ => false,
        }
    }
}

/// An access token as the command line of Azure prints it.
#[allow(non_snake_case)]
#[derive(Debug, PartialEq, Eq)]
pub struct AzureAccessToken {
    pub accessToken: String,
    pub expiresOn: String,
    pub subscription: String,
    pub tenant: String,
    pub tokenType: String,
}

/// A Kubernetes cluster of Azure.
#[allow(non_snake_case)]
#[derive(Debug, PartialEq, Eq)]
pub struct AzureAksCluster {
    pub ClusterName: String,
    pub ResourceGroup: String,
}

impl AzureAksCluster {
    /// The cluster in one line: its name, and its resource group in
    /// brackets.
    pub fn to_string(&self) -> (r: String)
        ensures
            r@ == "AKS Cluster: "@ + self.ClusterName@ + "("@ + self.ResourceGroup@ + ")"@,
    {
        let a = concat("AKS Cluster: ", self.ClusterName.as_str());
        let b = concat(a.as_str(), "(");
        let c = concat(b.as_str(), self.ResourceGroup.as_str());
        concat(c.as_str(), ")")
    }
}

} // verus!
