//! Per-deployment configuration as the core consumes it. Discovery and
//! parsing of the configuration file happen outside this crate; the core
//! only reads the loaded records: which deployment is the default, whether a
//! record carries everything needed to authenticate, and which host the
//! token exchange should talk to.

use vstd::prelude::*;

verus! {

/// Credentials a deployment authenticates with: the key id and client id
/// registered with the platform, and the path of the RSA private key file.
#[derive(Debug, Default, Clone)]
pub struct DeploymentAuth {
    pub kid: String,
    pub client_id: String,
    pub private_key_file: String,
}

/// One deployment of the platform, as configured.
#[derive(Debug, Default, Clone)]
pub struct Deployment {
    pub name: String,
    pub auth_host: Option<String>,
    pub api_host: String,
    pub default: Option<bool>,
    pub default_org: Option<i32>,
    pub auth: DeploymentAuth,
}

impl Deployment {
    /// The host the token exchange talks to: the dedicated auth host when
    /// one is configured, otherwise the API host.
    pub open spec fn spec_effective_auth_host(self) -> Seq<char> {
        match self.auth_host {
            Some(h) => h@,
            None => self.api_host@,
        }
    }

    /// The auth host with its fallback: a missing `auth_host` falls back to
    /// `api_host`.
    pub fn effective_auth_host(&self) -> (r: &String)
        ensures
            r@ == self.spec_effective_auth_host(),
    {
        match &self.auth_host {
            Some(h) => h,
            None => &self.api_host,
        }
    }

    /// Everything the core requires of a deployment record: the API host
    /// and the three auth fields are non-empty.
    pub open spec fn spec_is_complete(self) -> bool {
        self.api_host@.len() > 0 && self.auth.kid@.len() > 0 && self.auth.client_id@.len() > 0
            && self.auth.private_key_file@.len() > 0
    }

    /// Whether this record carries everything needed to build a client.
    pub fn is_complete(&self) -> (r: bool)
        ensures
            r == self.spec_is_complete(),
    {
        !self.api_host.as_str().is_empty() && !self.auth.kid.as_str().is_empty()
            && !self.auth.client_id.as_str().is_empty()
            && !self.auth.private_key_file.as_str().is_empty()
    }

    /// Whether this record is marked as the default deployment.
    pub open spec fn spec_is_default(self) -> bool {
        self.default == Some(true)
    }

    /// Whether this record is marked as the default deployment.
    pub fn is_default(&self) -> (r: bool)
        ensures
            r == self.spec_is_default(),
    {
        match self.default {
            Some(b) => b,
            None => false,
        }
    }
}

/// The whole loaded configuration: the list of deployments.
#[derive(Debug, Default, Clone)]
pub struct Configuration {
    pub deployments: Vec<Deployment>,
}

impl Configuration {
    /// The first deployment marked as default, if any.
    pub fn default_deployment(&self) -> (r: Option<&Deployment>)
        ensures
            match r {
                Some(d) => {
                    &&& exists|i: int|
                        0 <= i < self.deployments@.len() && self.deployments@[i].spec_is_default()
                            && *d == self.deployments@[i] && forall|j: int|
                            0 <= j < i ==> !self.deployments@[j].spec_is_default()
                },
                None => forall|i: int|
                    0 <= i < self.deployments@.len() ==> !self.deployments@[i].spec_is_default(),
            },
    {
        let n = self.deployments.len();
        let mut k: usize = 0;
        while k < n
            invariant
                n == self.deployments@.len(),
                k <= n,
                forall|j: int| 0 <= j < k ==> !self.deployments@[j].spec_is_default(),
            decreases n - k,
        {
            if self.deployments[k].is_default() {
                return Some(&self.deployments[k]);
            }
            k = k + 1;
        }
        None
    }
}

} // verus!
