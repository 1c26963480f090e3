//! Connection details for a Kubernetes API server: the server endpoint, the
//! user identity, and the rules that resolve both from a kube configuration.
//!
//! Each credential field (cluster CA, user key, user certificate) may be
//! given inline as base64 data or as a path reference. Inline data always
//! wins; a path reference is consulted only when no inline data is present;
//! when neither is present resolution fails with a field-specific error.
//!
//! Reading files is the caller's concern: the caller collects the contents
//! of the paths named by [`paths_to_read`] as [`FileRead`] records and hands
//! them in. A path that is absent from the records, or recorded without
//! contents, counts as a failed read.

use vstd::prelude::*;

use crate::errors::{CredFailure, CredField, KrewWasmSDKError};
use crate::kube::{
    spec_find_cluster, spec_find_context, spec_find_user, Cluster, Config, User,
};
use crate::outbound::{
    decimal_of, Certificate, CertificateEncoding, Identity, OutboundHttp, RequestConfig,
};

verus! {

/// What `base64::decode` yields on the given characters: the decoded bytes,
/// or nothing when the input is not valid base64.
pub uninterp spec fn base64_decoding(data: Seq<char>) -> Option<Seq<u8>>;

/// Relies on `base64::decode`: success and the decoded bytes are a function
/// of the input characters alone.
#[verifier::external_body]
fn b64_decode(data: &str) -> (r: Option<Vec<u8>>)
    ensures
        match r {
            Some(v) => base64_decoding(data@) == Some(v@),
            None => base64_decoding(data@) is None,
        },
{
    base64::decode(data).ok()
}

/// The recorded outcome of reading one file: its path and its contents,
/// or no contents when the read failed.
#[derive(Debug)]
pub struct FileRead {
    /// The path that was read.
    pub path: String,
    /// The bytes read, or nothing when the read failed.
    pub content: Option<Vec<u8>>,
}

/// The first record in `reads` for the given path, if any.
pub open spec fn spec_lookup_file(reads: Seq<FileRead>, path: Seq<char>) -> Option<FileRead>
    decreases reads.len(),
{
    if reads.len() == 0 {
        None
    } else if reads[0].path@ == path {
        Some(reads[0])
    } else {
        spec_lookup_file(reads.drop_first(), path)
    }
}

fn lookup_file<'a>(reads: &'a Vec<FileRead>, path: &String) -> (r: Option<&'a FileRead>)
    ensures
        match spec_lookup_file(reads@, path@) {
            Some(f) => r matches Some(rf) && *rf == f,
            None => r is None,
        },
{
    let n = reads.len();
    let mut i: usize = 0;
    proof {
        assert(reads@.skip(0) =~= reads@);
    }
    while i < n
        invariant
            i <= n,
            n == reads@.len(),
            spec_lookup_file(reads@, path@) == spec_lookup_file(reads@.skip(i as int), path@),
        decreases n - i,
    {
        if reads[i].path == *path {
            proof {
                assert(reads@.skip(i as int)[0] == reads@[i as int]);
            }
            return Some(&reads[i]);
        }
        proof {
            assert(reads@.skip(i as int).drop_first() =~= reads@.skip(i as int + 1));
        }
        i += 1;
    }
    None
}

/// The outcome of resolving one credential field from optional inline data,
/// an optional path reference, and the recorded file reads: inline data is
/// decoded when present; otherwise the path's recorded contents are taken;
/// otherwise the field cannot be determined.
pub open spec fn spec_resolve_material(
    data: Option<String>,
    path: Option<String>,
    reads: Seq<FileRead>,
    field: CredField,
) -> Result<Seq<u8>, KrewWasmSDKError> {
    match data {
        Some(d) => match base64_decoding(d@) {
            Some(b) => Ok(b),
            None => Err(
                KrewWasmSDKError::KubeConfigCredentialError(field, CredFailure::CannotDecode),
            ),
        },
        None => match path {
            Some(p) => match spec_lookup_file(reads, p@) {
                Some(f) => match f.content {
                    Some(b) => Ok(b@),
                    None => Err(
                        KrewWasmSDKError::KubeConfigCredentialError(field, CredFailure::CannotRead),
                    ),
                },
                None => Err(
                    KrewWasmSDKError::KubeConfigCredentialError(field, CredFailure::CannotRead),
                ),
            },
            None => Err(
                KrewWasmSDKError::KubeConfigCredentialError(field, CredFailure::CannotDetermine),
            ),
        },
    }
}

/// Resolve one credential field; see [`spec_resolve_material`] for the rule
/// it follows.
pub fn resolve_material(
    data: &Option<String>,
    path: &Option<String>,
    reads: &Vec<FileRead>,
    field: CredField,
) -> (r: Result<Vec<u8>, KrewWasmSDKError>)
    ensures
        ({
            let s = spec_resolve_material(*data, *path, reads@, field);
            match r {
                Ok(v) => s matches Ok(b) && v@ == b,
                Err(e) => s matches Err(e2) && e == e2,
            }
        }),
{
    match data {
        Some(d) => match b64_decode(d.as_str()) {
            Some(v) => Ok(v),
            None => Err(
                KrewWasmSDKError::KubeConfigCredentialError(field, CredFailure::CannotDecode),
            ),
        },
        None => match path {
            Some(p) => match lookup_file(reads, p) {
                Some(f) => match &f.content {
                    Some(b) => {
                        let copy = b.clone();
                        proof {
                            assert(copy@ =~= b@);
                        }
                        Ok(copy)
                    },
                    None => Err(
                        KrewWasmSDKError::KubeConfigCredentialError(field, CredFailure::CannotRead),
                    ),
                },
                None => Err(
                    KrewWasmSDKError::KubeConfigCredentialError(field, CredFailure::CannotRead),
                ),
            },
            None => Err(
                KrewWasmSDKError::KubeConfigCredentialError(field, CredFailure::CannotDetermine),
            ),
        },
    }
}

/// Inline credential data always wins: when it is present, the resolution
/// outcome is the decoding of that data, whatever path reference stands
/// beside it and whatever the recorded file reads hold.
pub proof fn lemma_inline_wins(
    data: Option<String>,
    path1: Option<String>,
    path2: Option<String>,
    reads1: Seq<FileRead>,
    reads2: Seq<FileRead>,
    field: CredField,
)
    requires
        data is Some,
    ensures
        spec_resolve_material(data, path1, reads1, field) == spec_resolve_material(
            data,
            path2,
            reads2,
            field,
        ),
{
}

/// With no inline data and a path reference present, the outcome is exactly
/// the recorded read of that path: decoding is never consulted.
pub proof fn lemma_path_form_reads_path(
    data: Option<String>,
    path: Option<String>,
    reads: Seq<FileRead>,
    field: CredField,
)
    requires
        data is None,
        path is Some,
    ensures
        spec_resolve_material(data, path, reads, field) == (match spec_lookup_file(
            reads,
            path.unwrap()@,
        ) {
            Some(f) => match f.content {
                Some(b) => Ok::<Seq<u8>, KrewWasmSDKError>(b@),
                None => Err(
                    KrewWasmSDKError::KubeConfigCredentialError(field, CredFailure::CannotRead),
                ),
            },
            None => Err(
                KrewWasmSDKError::KubeConfigCredentialError(field, CredFailure::CannotRead),
            ),
        }),
{
}

/// With neither inline data nor a path reference, resolution fails with the
/// field-specific error, whatever the recorded file reads hold.
pub proof fn lemma_missing_field_fails(
    data: Option<String>,
    path: Option<String>,
    reads: Seq<FileRead>,
    field: CredField,
)
    requires
        data is None,
        path is None,
    ensures
        spec_resolve_material(data, path, reads, field) == Err::<Seq<u8>, KrewWasmSDKError>(
            KrewWasmSDKError::KubeConfigCredentialError(field, CredFailure::CannotDetermine),
        ),
{
}

/// The identity to be used when connecting to the Kubernetes API server.
#[derive(Debug)]
pub struct UserIdentity {
    /// Private key assigned to the user.
    pub key: Vec<u8>,
    /// Certificate assigned to the user.
    pub cert: Vec<u8>,
    /// CA that issued the certificate.
    pub ca: Vec<u8>,
}

/// The outcome of resolving a full identity: the cluster CA, then the user
/// key, then the user certificate, in that order; the first failure aborts
/// the whole resolution. On success, yields `(key, cert, ca)`.
pub open spec fn spec_resolve_identity(
    user: User,
    cluster: Cluster,
    reads: Seq<FileRead>,
) -> Result<(Seq<u8>, Seq<u8>, Seq<u8>), KrewWasmSDKError> {
    match spec_resolve_material(
        cluster.certificate_authority_data,
        cluster.certificate_authority,
        reads,
        CredField::ClusterCa,
    ) {
        Err(e) => Err(e),
        Ok(ca) => match spec_resolve_material(
            user.client_key_data,
            user.client_key,
            reads,
            CredField::UserKey,
        ) {
            Err(e) => Err(e),
            Ok(key) => match spec_resolve_material(
                user.client_certificate_data,
                user.client_certificate,
                reads,
                CredField::UserCert,
            ) {
                Err(e) => Err(e),
                Ok(cert) => Ok((key, cert, ca)),
            },
        },
    }
}

impl UserIdentity {
    /// Creates a `UserIdentity` from the user and cluster records of a kube
    /// configuration, with the recorded file reads standing in for the
    /// filesystem. All three fields resolve or the whole call fails with the
    /// first error, in the order cluster CA, user key, user certificate.
    pub fn from_kube_user_and_cluster(
        user: &User,
        cluster: &Cluster,
        reads: &Vec<FileRead>,
    ) -> (r: Result<UserIdentity, KrewWasmSDKError>)
        ensures
            ({
                let s = spec_resolve_identity(*user, *cluster, reads@);
                match r {
                    Ok(id) => s matches Ok(t) && id.key@ == t.0 && id.cert@ == t.1 && id.ca@
                        == t.2,
                    Err(e) => s matches Err(e2) && e == e2,
                }
            }),
    {
        let ca = match resolve_material(
            &cluster.certificate_authority_data,
            &cluster.certificate_authority,
            reads,
            CredField::ClusterCa,
        ) {
            Ok(v) => v,
            Err(e) => {
                return Err(e);
            },
        };
        let key = match resolve_material(
            &user.client_key_data,
            &user.client_key,
            reads,
            CredField::UserKey,
        ) {
            Ok(v) => v,
            Err(e) => {
                return Err(e);
            },
        };
        let cert = match resolve_material(
            &user.client_certificate_data,
            &user.client_certificate,
            reads,
            CredField::UserCert,
        ) {
            Ok(v) => v,
            Err(e) => {
                return Err(e);
            },
        };
        Ok(UserIdentity { key, cert, ca })
    }

    /// The wire identity carrying copies of the key, certificate and CA.
    pub fn to_wire_identity(&self) -> (r: Identity)
        ensures
            r.key@ == self.key@,
            r.cert@ == self.cert@,
            r.ca@ == self.ca@,
    {
        let key = self.key.clone();
        let cert = self.cert.clone();
        let ca = self.ca.clone();
        proof {
            assert(key@ =~= self.key@);
            assert(cert@ =~= self.cert@);
            assert(ca@ =~= self.ca@);
        }
        Identity { key, cert, ca }
    }
}

/// The minimum information required to reach a Kubernetes API server.
#[derive(Debug)]
pub struct Server {
    /// URL of the server, including the protocol and the port number.
    pub url: String,
    /// CA of the server.
    pub ca: Vec<u8>,
}

/// The outcome of resolving the server endpoint: the declared server URL is
/// taken verbatim, and the cluster CA resolves under the same precedence
/// rule as the identity fields. On success, yields `(url, ca)`.
pub open spec fn spec_resolve_server(
    cluster: Cluster,
    reads: Seq<FileRead>,
) -> Result<(Seq<char>, Seq<u8>), KrewWasmSDKError> {
    match spec_resolve_material(
        cluster.certificate_authority_data,
        cluster.certificate_authority,
        reads,
        CredField::ClusterCa,
    ) {
        Err(e) => Err(e),
        Ok(ca) => Ok((cluster.server@, ca)),
    }
}

impl Server {
    /// Creates a `Server` from the cluster record of a kube configuration,
    /// with the recorded file reads standing in for the filesystem.
    pub fn from_cluster(cluster: &Cluster, reads: &Vec<FileRead>) -> (r: Result<
        Server,
        KrewWasmSDKError,
    >)
        ensures
            ({
                let s = spec_resolve_server(*cluster, reads@);
                match r {
                    Ok(srv) => s matches Ok(t) && srv.url@ == t.0 && srv.ca@ == t.1,
                    Err(e) => s matches Err(e2) && e == e2,
                }
            }),
    {
        let ca = match resolve_material(
            &cluster.certificate_authority_data,
            &cluster.certificate_authority,
            reads,
            CredField::ClusterCa,
        ) {
            Ok(v) => v,
            Err(e) => {
                return Err(e);
            },
        };
        Ok(Server { url: cluster.server.clone(), ca })
    }
}

/// Connection details for a Kubernetes API server: the server endpoint and
/// the user identity to be used.
#[derive(Debug)]
pub struct ConnectionConfig {
    /// The identity presented to the server.
    pub identity: UserIdentity,
    /// The server endpoint and its CA.
    pub server: Server,
}

/// The outcome of resolving a whole connection configuration from a kube
/// configuration: the current context is selected, its cluster and user are
/// looked up, and the identity and the server endpoint are resolved from
/// that pair, in that order, the first failure aborting the rest.
pub open spec fn spec_from_kube_config(config: Config, reads: Seq<FileRead>) -> Result<
    ((Seq<u8>, Seq<u8>, Seq<u8>), (Seq<char>, Seq<u8>)),
    KrewWasmSDKError,
> {
    match config.current_context {
        None => Err(KrewWasmSDKError::KubeConfigNoContextError),
        Some(n) => match spec_find_context(config.contexts@, n@) {
            None => Err(KrewWasmSDKError::KubeConfigNoContextError),
            Some(ctx) => match spec_find_cluster(config.clusters@, ctx.cluster@) {
                None => Err(KrewWasmSDKError::KubeConfigNoClusterDefinitionError),
                Some(cluster) => match spec_find_user(config.users@, ctx.user@) {
                    None => Err(KrewWasmSDKError::KubeConfigNoUserDefinitionError),
                    Some(user) => match spec_resolve_identity(user, cluster, reads) {
                        Err(e) => Err(e),
                        Ok(id) => match spec_resolve_server(cluster, reads) {
                            Err(e) => Err(e),
                            Ok(srv) => Ok((id, srv)),
                        },
                    },
                },
            },
        },
    }
}

impl ConnectionConfig {
    /// Creates a `ConnectionConfig` from a kube configuration's current
    /// context, with the recorded file reads standing in for the filesystem.
    pub fn from_kube_config(config: &Config, reads: &Vec<FileRead>) -> (r: Result<
        ConnectionConfig,
        KrewWasmSDKError,
    >)
        ensures
            ({
                let s = spec_from_kube_config(*config, reads@);
                match r {
                    Ok(cc) => s matches Ok(t) && cc.identity.key@ == t.0.0 && cc.identity.cert@
                        == t.0.1 && cc.identity.ca@ == t.0.2 && cc.server.url@ == t.1.0
                        && cc.server.ca@ == t.1.1,
                    Err(e) => s matches Err(e2) && e == e2,
                }
            }),
    {
        let kube_ctx = match config.get_current_context() {
            Some(c) => c,
            None => {
                return Err(KrewWasmSDKError::KubeConfigNoContextError);
            },
        };
        let cluster = match kube_ctx.get_cluster(config) {
            Some(c) => c,
            None => {
                return Err(KrewWasmSDKError::KubeConfigNoClusterDefinitionError);
            },
        };
        let user = match kube_ctx.get_user(config) {
            Some(u) => u,
            None => {
                return Err(KrewWasmSDKError::KubeConfigNoUserDefinitionError);
            },
        };
        let identity = match UserIdentity::from_kube_user_and_cluster(user, cluster, reads) {
            Ok(id) => id,
            Err(e) => {
                return Err(e);
            },
        };
        let server = match Server::from_cluster(cluster, reads) {
            Ok(s) => s,
            Err(e) => {
                return Err(e);
            },
        };
        Ok(ConnectionConfig { identity, server })
    }

    /// Registers this configuration with the outbound HTTP capability and
    /// returns the handle that identifies it. Hostname and certificate
    /// verification are always strict; the server CA is the single extra
    /// root certificate, PEM-encoded; the user identity is attached for
    /// mutual TLS. The method can be called as many times as wanted, but it
    /// will always mint a new handle.
    pub fn register(&self, host: &mut OutboundHttp) -> (r: Result<String, KrewWasmSDKError>)
        ensures
            final(host).configs@.len() == old(host).configs@.len() + 1,
            final(host).configs@.drop_last() == old(host).configs@,
            ({
                let c = final(host).configs@.last();
                &&& c.accept_invalid_hostnames == false
                &&& c.accept_invalid_certificates == false
                &&& c.extra_root_certificates@.len() == 1
                &&& c.extra_root_certificates@[0].encoding == CertificateEncoding::Pem
                &&& c.extra_root_certificates@[0].data@ == self.server.ca@
                &&& c.identity matches Some(i) && i.key@ == self.identity.key@ && i.cert@
                    == self.identity.cert@ && i.ca@ == self.identity.ca@
            }),
            r matches Ok(h) && h@ == decimal_of(old(host).configs@.len() as nat),
    {
        let accept_invalid_hostnames = false;
        let accept_invalid_certificates = false;

        let data = self.server.ca.clone();
        proof {
            assert(data@ =~= self.server.ca@);
        }
        let server_cert = Certificate { encoding: CertificateEncoding::Pem, data };
        let mut extra_root_certificates: Vec<Certificate> = Vec::new();
        extra_root_certificates.push(server_cert);

        let identity = self.identity.to_wire_identity();

        let req_cfg = RequestConfig {
            accept_invalid_hostnames,
            accept_invalid_certificates,
            extra_root_certificates,
            identity: Some(identity),
        };

        let cfg_id = host.register_request_config(req_cfg);
        proof {
            assert(final(host).configs@.drop_last() =~= old(host).configs@);
        }
        Ok(cfg_id)
    }
}

/// The paths that resolving this user and cluster will consult, in the
/// order cluster CA, user key, user certificate: exactly the fields that
/// carry no inline data but do carry a path reference. A caller reads these
/// files and hands the outcomes to the resolution functions.
pub open spec fn spec_paths_to_read(user: User, cluster: Cluster) -> Seq<Seq<char>> {
    (if cluster.certificate_authority_data is None && cluster.certificate_authority is Some {
        seq![cluster.certificate_authority.unwrap()@]
    } else {
        Seq::<Seq<char>>::empty()
    }) + (if user.client_key_data is None && user.client_key is Some {
        seq![user.client_key.unwrap()@]
    } else {
        Seq::<Seq<char>>::empty()
    }) + (if user.client_certificate_data is None && user.client_certificate is Some {
        seq![user.client_certificate.unwrap()@]
    } else {
        Seq::<Seq<char>>::empty()
    })
}

/// Lists the paths that resolution will consult; see [`spec_paths_to_read`].
/// When every field carries inline data, the list is empty: nothing is read.
pub fn paths_to_read(user: &User, cluster: &Cluster) -> (r: Vec<String>)
    ensures
        r.deep_view() == spec_paths_to_read(*user, *cluster),
{
    let mut r: Vec<String> = Vec::new();
    if cluster.certificate_authority_data.is_none() {
        if let Some(p) = &cluster.certificate_authority {
            r.push(p.clone());
        }
    }
    if user.client_key_data.is_none() {
        if let Some(p) = &user.client_key {
            r.push(p.clone());
        }
    }
    if user.client_certificate_data.is_none() {
        if let Some(p) = &user.client_certificate {
            r.push(p.clone());
        }
    }
    proof {
        assert(r.deep_view() =~= spec_paths_to_read(*user, *cluster));
    }
    r
}

} // verus!
