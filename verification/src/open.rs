//! The pages of an organization that the command line opens in a browser.

use crate::text::concat;
use vstd::prelude::*;

verus! {

/// The page of the deployments of an organization.
pub fn argocd_page(organization_name: &str) -> (r: String)
    ensures
        r@ == "https://"@ + organization_name@ + "-argocd.run-studio.p6m.run/applications"@,
{
    let head = concat("https://", organization_name);
    concat(head.as_str(), "-argocd.run-studio.p6m.run/applications")
}

/// The page of the packages of an organization.
pub fn artifactory_page(organization_name: &str) -> (r: String)
    ensures
        r@ == "https://ybor.jfrog.io/ui/packages?projectKey="@ + organization_name@,
{
    concat("https://ybor.jfrog.io/ui/packages?projectKey=", organization_name)
}

} // verus!
