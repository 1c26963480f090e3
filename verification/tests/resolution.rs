//! Tests for credential and endpoint resolution.

use krew_wasm_sdk::errors::{CredFailure, CredField, KrewWasmSDKError};
use krew_wasm_sdk::kube::{Cluster, Config, Context, User};
use krew_wasm_sdk::kube_config::{
    paths_to_read, ConnectionConfig, FileRead, Server, UserIdentity,
};
use krew_wasm_sdk::outbound::OutboundHttp;

fn inline_cluster() -> Cluster {
    Cluster {
        name: "prod".to_string(),
        server: "https://10.0.0.1:6443".to_string(),
        certificate_authority: None,
        certificate_authority_data: Some(base64::encode(b"cluster-ca-bytes")),
    }
}

fn inline_user() -> User {
    User {
        name: "alice".to_string(),
        client_certificate: None,
        client_certificate_data: Some(base64::encode(b"user-cert-bytes")),
        client_key: None,
        client_key_data: Some(base64::encode(b"user-key-bytes")),
    }
}

fn no_reads() -> Vec<FileRead> {
    Vec::new()
}

#[test]
fn inline_data_is_decoded() {
    let cluster = inline_cluster();
    let user = inline_user();
    let id = UserIdentity::from_kube_user_and_cluster(&user, &cluster, &no_reads()).unwrap();
    assert_eq!(id.ca, b"cluster-ca-bytes".to_vec());
    assert_eq!(id.key, b"user-key-bytes".to_vec());
    assert_eq!(id.cert, b"user-cert-bytes".to_vec());
}

#[test]
fn inline_form_wins_over_path() {
    let mut cluster = inline_cluster();
    cluster.certificate_authority = Some("/pki/ca.crt".to_string());
    let user = inline_user();
    // A recorded read for the path holds different bytes; inline data must
    // win, so those bytes never appear.
    let reads = vec![FileRead {
        path: "/pki/ca.crt".to_string(),
        content: Some(b"from-the-file".to_vec()),
    }];
    let id = UserIdentity::from_kube_user_and_cluster(&user, &cluster, &reads).unwrap();
    assert_eq!(id.ca, b"cluster-ca-bytes".to_vec());
    // And nothing needs to be read at all.
    assert!(paths_to_read(&user, &cluster).is_empty());
}

#[test]
fn path_form_reads_exact_path() {
    let mut cluster = inline_cluster();
    cluster.certificate_authority_data = None;
    cluster.certificate_authority = Some("/pki/ca.crt".to_string());
    let user = inline_user();
    assert_eq!(paths_to_read(&user, &cluster), vec!["/pki/ca.crt".to_string()]);
    let reads = vec![
        FileRead { path: "/other/file".to_string(), content: Some(b"wrong".to_vec()) },
        FileRead { path: "/pki/ca.crt".to_string(), content: Some(b"file-ca-bytes".to_vec()) },
    ];
    let id = UserIdentity::from_kube_user_and_cluster(&user, &cluster, &reads).unwrap();
    assert_eq!(id.ca, b"file-ca-bytes".to_vec());
}

#[test]
fn missing_field_fails_with_field_specific_error() {
    let mut cluster = inline_cluster();
    cluster.certificate_authority_data = None;
    cluster.certificate_authority = None;
    let user = inline_user();
    let r = UserIdentity::from_kube_user_and_cluster(&user, &cluster, &no_reads());
    assert_eq!(
        r.unwrap_err(),
        KrewWasmSDKError::KubeConfigCredentialError(
            CredField::ClusterCa,
            CredFailure::CannotDetermine
        )
    );

    let cluster = inline_cluster();
    let mut user = inline_user();
    user.client_key_data = None;
    user.client_key = None;
    let r = UserIdentity::from_kube_user_and_cluster(&user, &cluster, &no_reads());
    assert_eq!(
        r.unwrap_err(),
        KrewWasmSDKError::KubeConfigCredentialError(
            CredField::UserKey,
            CredFailure::CannotDetermine
        )
    );

    let cluster = inline_cluster();
    let mut user = inline_user();
    user.client_certificate_data = None;
    user.client_certificate = None;
    let r = UserIdentity::from_kube_user_and_cluster(&user, &cluster, &no_reads());
    assert_eq!(
        r.unwrap_err(),
        KrewWasmSDKError::KubeConfigCredentialError(
            CredField::UserCert,
            CredFailure::CannotDetermine
        )
    );
}

#[test]
fn undecodable_inline_data_fails() {
    let mut cluster = inline_cluster();
    cluster.certificate_authority_data = Some("%%%not-base64%%%".to_string());
    let user = inline_user();
    let r = UserIdentity::from_kube_user_and_cluster(&user, &cluster, &no_reads());
    assert_eq!(
        r.unwrap_err(),
        KrewWasmSDKError::KubeConfigCredentialError(
            CredField::ClusterCa,
            CredFailure::CannotDecode
        )
    );
}

#[test]
fn unreadable_path_fails() {
    let mut cluster = inline_cluster();
    cluster.certificate_authority_data = None;
    cluster.certificate_authority = Some("/pki/ca.crt".to_string());
    let user = inline_user();
    // A recorded failed read.
    let reads = vec![FileRead { path: "/pki/ca.crt".to_string(), content: None }];
    let r = UserIdentity::from_kube_user_and_cluster(&user, &cluster, &reads);
    assert_eq!(
        r.unwrap_err(),
        KrewWasmSDKError::KubeConfigCredentialError(CredField::ClusterCa, CredFailure::CannotRead)
    );
    // A path with no recorded read at all counts as a failed read too.
    let r = UserIdentity::from_kube_user_and_cluster(&user, &cluster, &no_reads());
    assert_eq!(
        r.unwrap_err(),
        KrewWasmSDKError::KubeConfigCredentialError(CredField::ClusterCa, CredFailure::CannotRead)
    );
}

#[test]
fn server_takes_url_verbatim() {
    let cluster = inline_cluster();
    let server = Server::from_cluster(&cluster, &no_reads()).unwrap();
    assert_eq!(server.url, "https://10.0.0.1:6443");
    assert_eq!(server.ca, b"cluster-ca-bytes".to_vec());
}

fn full_config() -> Config {
    Config {
        current_context: Some("prod-admin".to_string()),
        clusters: vec![inline_cluster()],
        contexts: vec![Context {
            name: "prod-admin".to_string(),
            cluster: "prod".to_string(),
            user: "alice".to_string(),
        }],
        users: vec![inline_user()],
    }
}

#[test]
fn end_to_end_inline_resolution_and_registration() {
    let config = full_config();
    let cc = ConnectionConfig::from_kube_config(&config, &no_reads()).unwrap();
    assert_eq!(cc.server.url, "https://10.0.0.1:6443");
    assert_eq!(cc.server.ca, b"cluster-ca-bytes".to_vec());
    assert_eq!(cc.identity.key, b"user-key-bytes".to_vec());
    assert_eq!(cc.identity.cert, b"user-cert-bytes".to_vec());
    assert_eq!(cc.identity.ca, b"cluster-ca-bytes".to_vec());

    let mut host = OutboundHttp::new();
    let handle = cc.register(&mut host).unwrap();
    assert!(!handle.is_empty());
    let cfg = &host.configs[0];
    assert!(!cfg.accept_invalid_hostnames);
    assert!(!cfg.accept_invalid_certificates);
    assert_eq!(cfg.extra_root_certificates.len(), 1);
    assert_eq!(cfg.extra_root_certificates[0].data, b"cluster-ca-bytes".to_vec());
    let identity = cfg.identity.as_ref().unwrap();
    assert_eq!(identity.key, b"user-key-bytes".to_vec());
}

#[test]
fn registering_twice_yields_distinct_handles() {
    let config = full_config();
    let cc = ConnectionConfig::from_kube_config(&config, &no_reads()).unwrap();
    let mut host = OutboundHttp::new();
    let h1 = cc.register(&mut host).unwrap();
    let h2 = cc.register(&mut host).unwrap();
    assert_ne!(h1, h2);
    assert!(!h1.is_empty());
    assert!(!h2.is_empty());
    assert_eq!(host.configs.len(), 2);
    // Each registration recorded the full configuration independently.
    assert_eq!(
        host.configs[0].extra_root_certificates[0].data,
        host.configs[1].extra_root_certificates[0].data
    );
}

#[test]
fn many_registrations_all_yield_distinct_handles() {
    let config = full_config();
    let cc = ConnectionConfig::from_kube_config(&config, &no_reads()).unwrap();
    let mut host = OutboundHttp::new();
    let mut handles: Vec<String> = Vec::new();
    for _ in 0..12 {
        handles.push(cc.register(&mut host).unwrap());
    }
    for i in 0..handles.len() {
        assert!(!handles[i].is_empty());
        for j in 0..i {
            assert_ne!(handles[i], handles[j]);
        }
    }
    assert_eq!(host.configs.len(), 12);
}

#[test]
fn missing_context_cluster_and_user_fail_distinctly() {
    let mut config = full_config();
    config.current_context = None;
    assert_eq!(
        ConnectionConfig::from_kube_config(&config, &no_reads()).unwrap_err(),
        KrewWasmSDKError::KubeConfigNoContextError
    );

    let mut config = full_config();
    config.current_context = Some("nowhere".to_string());
    assert_eq!(
        ConnectionConfig::from_kube_config(&config, &no_reads()).unwrap_err(),
        KrewWasmSDKError::KubeConfigNoContextError
    );

    let mut config = full_config();
    config.clusters = Vec::new();
    assert_eq!(
        ConnectionConfig::from_kube_config(&config, &no_reads()).unwrap_err(),
        KrewWasmSDKError::KubeConfigNoClusterDefinitionError
    );

    let mut config = full_config();
    config.users = Vec::new();
    assert_eq!(
        ConnectionConfig::from_kube_config(&config, &no_reads()).unwrap_err(),
        KrewWasmSDKError::KubeConfigNoUserDefinitionError
    );
}

#[test]
fn paths_to_read_lists_path_form_fields_in_order() {
    let mut cluster = inline_cluster();
    cluster.certificate_authority_data = None;
    cluster.certificate_authority = Some("/pki/ca.crt".to_string());
    let mut user = inline_user();
    user.client_key_data = None;
    user.client_key = Some("/pki/key.pem".to_string());
    user.client_certificate_data = None;
    user.client_certificate = Some("/pki/cert.pem".to_string());
    assert_eq!(
        paths_to_read(&user, &cluster),
        vec![
            "/pki/ca.crt".to_string(),
            "/pki/key.pem".to_string(),
            "/pki/cert.pem".to_string()
        ]
    );
}
