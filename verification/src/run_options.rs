//! The immutable run configuration — organization name and bearer
//! credential — and the construction of the three request URLs.

use vstd::prelude::*;
use vstd::string::StringExecFns;
use crate::decimal::i64_to_decimal;
use crate::decimal::spec_decimal;

verus! {

/// The configuration of one cleaning run. The credential authorizes
/// the requests and must never appear in a log line or a URL.
pub struct RunOptions {
    /// GitHub organization name.
    pub organization: String,
    /// Personal access token for listing and deleting packages in the
    /// organization's scope.
    pub personal_access_token: String,
}

/// The URL that lists the organization's container packages.
pub open spec fn spec_url_list_packages(org: Seq<char>) -> Seq<char> {
    "https://api.github.com/orgs/"@ + org + "/packages?package_type=container"@
}

/// The URL that lists the versions of one container package.
pub open spec fn spec_url_list_package_versions(org: Seq<char>, package: Seq<char>) -> Seq<char> {
    "https://api.github.com/orgs/"@ + org + "/packages/container/"@ + package + "/versions"@
}

/// The URL that deletes one version of one container package.
pub open spec fn spec_url_delete_package_version(
    org: Seq<char>,
    package: Seq<char>,
    id: int,
) -> Seq<char> {
    spec_url_list_package_versions(org, package) + "/"@ + spec_decimal(id)
}

impl RunOptions {
    /// Both configuration fields are non-empty.
    pub open spec fn wf(&self) -> bool {
        self.organization@.len() > 0 && self.personal_access_token@.len() > 0
    }

    pub fn new(organization: String, personal_access_token: String) -> (r: RunOptions)
        requires
            organization@.len() > 0,
            personal_access_token@.len() > 0,
        ensures
            r.wf(),
            r.organization == organization,
            r.personal_access_token == personal_access_token,
    {
        RunOptions { organization, personal_access_token }
    }

    pub fn get_url_org_list_packages(&self) -> (url: String)
        ensures
            url@ == spec_url_list_packages(self.organization@),
    {
        let mut url = "https://api.github.com/orgs/".to_owned();
        url.append(self.organization.as_str());
        url.append("/packages?package_type=container");
        proof {
            assert(url@ =~= spec_url_list_packages(self.organization@));
        }
        url
    }

    pub fn get_url_org_list_package_versions(&self, package_name: &str) -> (url: String)
        ensures
            url@ == spec_url_list_package_versions(self.organization@, package_name@),
    {
        let mut url = "https://api.github.com/orgs/".to_owned();
        url.append(self.organization.as_str());
        url.append("/packages/container/");
        url.append(package_name);
        url.append("/versions");
        proof {
            assert(url@ =~= spec_url_list_package_versions(self.organization@, package_name@));
        }
        url
    }

    pub fn get_url_org_delete_package_version(&self, package_name: &str, package_id: i64) -> (url:
        String)
        ensures
            url@ == spec_url_delete_package_version(
                self.organization@,
                package_name@,
                package_id as int,
            ),
    {
        let mut url = self.get_url_org_list_package_versions(package_name);
        url.append("/");
        let id_text = i64_to_decimal(package_id);
        url.append(id_text.as_str());
        proof {
            assert(url@ =~= spec_url_delete_package_version(
                self.organization@,
                package_name@,
                package_id as int,
            ));
        }
        url
    }
}

} // verus!
