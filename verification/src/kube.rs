//! A plain-data model of a kube configuration: the clusters, users and
//! contexts a caller may connect with, and the lookups that resolve the
//! current context to a cluster and a user.
//!
//! Loading the configuration from disk is the caller's concern; this module
//! only models the data and the resolution rules.

use vstd::prelude::*;

verus! {

/// A named Kubernetes endpoint definition: where the API server is and how
/// to trust it.
#[derive(Debug)]
pub struct Cluster {
    /// The name given to the cluster.
    pub name: String,
    /// The HTTP address of the server, including the protocol.
    pub server: String,
    /// Path to a file holding the cluster's certificate authority.
    pub certificate_authority: Option<String>,
    /// The cluster's certificate authority as inline base64 data.
    pub certificate_authority_data: Option<String>,
}

/// A named client identity that can log in to one of the clusters.
#[derive(Debug)]
pub struct User {
    /// The name given to the user.
    pub name: String,
    /// Path to a file holding the user's certificate.
    pub client_certificate: Option<String>,
    /// The user's certificate as inline base64 data.
    pub client_certificate_data: Option<String>,
    /// Path to a file holding the user's private key.
    pub client_key: Option<String>,
    /// The user's private key as inline base64 data.
    pub client_key_data: Option<String>,
}

/// A named pairing of a cluster and a user.
#[derive(Debug)]
pub struct Context {
    /// The name given to this context.
    pub name: String,
    /// The name of the cluster this context refers to.
    pub cluster: String,
    /// The name of the user this context refers to.
    pub user: String,
}

/// The structured store of contexts, clusters and users consulted to
/// resolve connection details.
#[derive(Debug)]
pub struct Config {
    /// The name of the currently active context, if any.
    pub current_context: Option<String>,
    /// The clusters the configuration defines.
    pub clusters: Vec<Cluster>,
    /// The contexts the configuration defines.
    pub contexts: Vec<Context>,
    /// The users the configuration defines.
    pub users: Vec<User>,
}

/// The first context in `contexts` whose name is `name`, if any.
pub open spec fn spec_find_context(contexts: Seq<Context>, name: Seq<char>) -> Option<Context>
    decreases contexts.len(),
{
    if contexts.len() == 0 {
        None
    } else if contexts[0].name@ == name {
        Some(contexts[0])
    } else {
        spec_find_context(contexts.drop_first(), name)
    }
}

/// The first cluster in `clusters` whose name is `name`, if any.
pub open spec fn spec_find_cluster(clusters: Seq<Cluster>, name: Seq<char>) -> Option<Cluster>
    decreases clusters.len(),
{
    if clusters.len() == 0 {
        None
    } else if clusters[0].name@ == name {
        Some(clusters[0])
    } else {
        spec_find_cluster(clusters.drop_first(), name)
    }
}

/// The first user in `users` whose name is `name`, if any.
pub open spec fn spec_find_user(users: Seq<User>, name: Seq<char>) -> Option<User>
    decreases users.len(),
{
    if users.len() == 0 {
        None
    } else if users[0].name@ == name {
        Some(users[0])
    } else {
        spec_find_user(users.drop_first(), name)
    }
}

impl Config {
    /// The currently active context: the first context whose name equals the
    /// `current_context` key, or nothing when that key is absent or dangling.
    pub fn get_current_context(&self) -> (r: Option<&Context>)
        ensures
            match self.current_context {
                Some(ref n) => match spec_find_context(self.contexts@, n@) {
                    Some(c) => r matches Some(rc) && *rc == c,
                    None => r is None,
                },
                None => r is None,
            },
    {
        match &self.current_context {
            None => None,
            Some(name) => {
                let n = self.contexts.len();
                let mut i: usize = 0;
                proof {
                    assert(self.contexts@.skip(0) =~= self.contexts@);
                }
                while i < n
                    invariant
                        i <= n,
                        n == self.contexts@.len(),
                        self.current_context == Some(*name),
                        spec_find_context(self.contexts@, name@) == spec_find_context(
                            self.contexts@.skip(i as int),
                            name@,
                        ),
                    decreases n - i,
                {
                    if self.contexts[i].name == *name {
                        proof {
                            assert(self.contexts@.skip(i as int)[0] == self.contexts@[i as int]);
                        }
                        return Some(&self.contexts[i]);
                    }
                    proof {
                        assert(self.contexts@.skip(i as int).drop_first() =~= self.contexts@.skip(
                            i as int + 1,
                        ));
                    }
                    i += 1;
                }
                None
            },
        }
    }
}

impl Context {
    /// The cluster this context refers to, if the configuration defines it.
    pub fn get_cluster<'a>(&self, config: &'a Config) -> (r: Option<&'a Cluster>)
        ensures
            match spec_find_cluster(config.clusters@, self.cluster@) {
                Some(c) => r matches Some(rc) && *rc == c,
                None => r is None,
            },
    {
        let n = config.clusters.len();
        let mut i: usize = 0;
        proof {
            assert(config.clusters@.skip(0) =~= config.clusters@);
        }
        while i < n
            invariant
                i <= n,
                n == config.clusters@.len(),
                spec_find_cluster(config.clusters@, self.cluster@) == spec_find_cluster(
                    config.clusters@.skip(i as int),
                    self.cluster@,
                ),
            decreases n - i,
        {
            if config.clusters[i].name == self.cluster {
                proof {
                    assert(config.clusters@.skip(i as int)[0] == config.clusters@[i as int]);
                }
                return Some(&config.clusters[i]);
            }
            proof {
                assert(config.clusters@.skip(i as int).drop_first() =~= config.clusters@.skip(
                    i as int + 1,
                ));
            }
            i += 1;
        }
        None
    }

    /// The user this context refers to, if the configuration defines it.
    pub fn get_user<'a>(&self, config: &'a Config) -> (r: Option<&'a User>)
        ensures
            match spec_find_user(config.users@, self.user@) {
                Some(u) => r matches Some(ru) && *ru == u,
                None => r is None,
            },
    {
        let n = config.users.len();
        let mut i: usize = 0;
        proof {
            assert(config.users@.skip(0) =~= config.users@);
        }
        while i < n
            invariant
                i <= n,
                n == config.users@.len(),
                spec_find_user(config.users@, self.user@) == spec_find_user(
                    config.users@.skip(i as int),
                    self.user@,
                ),
            decreases n - i,
        {
            if config.users[i].name == self.user {
                proof {
                    assert(config.users@.skip(i as int)[0] == config.users@[i as int]);
                }
                return Some(&config.users[i]);
            }
            proof {
                assert(config.users@.skip(i as int).drop_first() =~= config.users@.skip(
                    i as int + 1,
                ));
            }
            i += 1;
        }
        None
    }
}

} // verus!
