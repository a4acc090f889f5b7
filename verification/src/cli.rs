//! Where the command line keeps its files, and which client of the
//! identity provider it is.

use crate::auth0::AuthN;
use crate::auth0::AuthNView;
use crate::auth0::AuthToken;
use crate::paths::join_path;
use crate::paths::path_join;
use crate::string_map::put;
use crate::string_map::StringMap;
use vstd::prelude::*;

verus! {

/// The directories and the client configuration of one run.
#[derive(Debug)]
pub struct P6mEnvironment {
    pub config_dir: String,
    pub kube_dir: String,
    pub auth_dir: String,
    pub auth_n: AuthN,
}

/// What a [`P6mEnvironment`] holds.
pub struct EnvironmentDirs {
    pub config_dir: Seq<char>,
    pub kube_dir: Seq<char>,
    pub auth_dir: Seq<char>,
    pub auth_n: AuthNView,
}

impl View for P6mEnvironment {
    type V = EnvironmentDirs;

    open spec fn view(&self) -> EnvironmentDirs {
        EnvironmentDirs {
            config_dir: self.config_dir@,
            kube_dir: self.kube_dir@,
            auth_dir: self.auth_dir@,
            auth_n: self.auth_n@,
        }
    }
}

/// The client that the command line is to the identity provider. The
/// development installation lists its applications elsewhere and says so
/// in its authentication context.
pub open spec fn default_auth_n(dev: bool) -> AuthNView {
    AuthNView {
        client_id: Some("j4jEhWwe2od1eacxuocy0sfmbf7V4H8V"@),
        discovery_uri: Some("https://auth.p6m.run/.well-known/openid-configuration"@),
        token_preference: Some(AuthToken::Id),
        params: Some(put(Seq::empty(), "audience"@, "https://api.p6m.run/v1/"@)),
        acr_values: if dev {
            Some(seq!["urn:auth:dev:true"@])
        } else {
            None
        },
        apps_uri: Some(
            if dev {
                "https://9b6hcz5ny6.execute-api.us-east-2.amazonaws.com/api"@
            } else {
                "https://auth.p6m.dev/api"@
            },
        ),
    }
}

/// The name of the configuration directory below the home directory.
pub open spec fn config_dir_name(dev: bool) -> Seq<char> {
    if dev {
        ".p6m-dev"@
    } else {
        ".p6m"@
    }
}

/// The environment of a run below the home directory `home`.
pub open spec fn environment_of(home: Seq<char>, dev: bool) -> EnvironmentDirs {
    EnvironmentDirs {
        config_dir: path_join(home, config_dir_name(dev)),
        kube_dir: path_join(home, ".kube"@),
        auth_dir: path_join(path_join(home, config_dir_name(dev)), "auth"@),
        auth_n: default_auth_n(dev),
    }
}

impl P6mEnvironment {
    /// The environment of a run. The caller finds the home directory and
    /// sees to it that the configuration directory exists.
    pub fn init(home_dir: &str, dev: bool) -> (r: P6mEnvironment)
        ensures
            r@ == environment_of(home_dir@, dev),
    {
        let config_dir = if dev {
            join_path(home_dir, ".p6m-dev")
        } else {
            join_path(home_dir, ".p6m")
        };
        let mut params = StringMap::new();
        params.insert("audience".to_owned(), "https://api.p6m.run/v1/".to_owned());
        let acr_values = if dev {
            let mut values: Vec<String> = Vec::new();
            values.push("urn:auth:dev:true".to_owned());
            assert(values.deep_view() =~= seq!["urn:auth:dev:true"@]);
            Some(values)
        } else {
            None
        };
        let auth_n = AuthN {
            client_id: Some("j4jEhWwe2od1eacxuocy0sfmbf7V4H8V".to_owned()),
            discovery_uri: Some("https://auth.p6m.run/.well-known/openid-configuration".to_owned()),
            token_preference: Some(AuthToken::Id),
            params: Some(params),
            acr_values,
            apps_uri: Some(
                if dev {
                    "https://9b6hcz5ny6.execute-api.us-east-2.amazonaws.com/api".to_owned()
                } else {
                    "https://auth.p6m.dev/api".to_owned()
                },
            ),
        };
        P6mEnvironment {
            kube_dir: join_path(home_dir, ".kube"),
            auth_dir: join_path(config_dir.as_str(), "auth"),
            config_dir,
            auth_n,
        }
    }

    pub fn config_dir(&self) -> (r: &str)
        ensures
            r@ == self@.config_dir,
    {
        self.config_dir.as_str()
    }

    pub fn kube_dir(&self) -> (r: &str)
        ensures
            r@ == self@.kube_dir,
    {
        self.kube_dir.as_str()
    }
}

} // verus!
