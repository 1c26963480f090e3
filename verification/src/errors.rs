//! Errors raised by this crate.

use vstd::prelude::*;

verus! {

/// The credential field whose resolution failed.
#[derive(Debug, Clone, Copy, PartialEq, Eq, Structural)]
pub enum CredField {
    /// The certificate authority declared by the cluster.
    ClusterCa,
    /// The private key assigned to the user.
    UserKey,
    /// The certificate assigned to the user.
    UserCert,
}

/// How the resolution of a credential field failed.
#[derive(Debug, Clone, Copy, PartialEq, Eq, Structural)]
pub enum CredFailure {
    /// Inline data was present but could not be decoded.
    CannotDecode,
    /// A path reference was present but its contents could not be read.
    CannotRead,
    /// Neither inline data nor a path reference was present.
    CannotDetermine,
}

/// Errors produced while resolving connection details or translating
/// a request.
#[derive(Debug, Clone, Copy, PartialEq, Eq, Structural)]
pub enum KrewWasmSDKError {
    /// The kube configuration names no current context.
    KubeConfigNoContextError,
    /// The current context references a cluster that is not defined.
    KubeConfigNoClusterDefinitionError,
    /// The current context references a user that is not defined.
    KubeConfigNoUserDefinitionError,
    /// A credential field could not be resolved.
    KubeConfigCredentialError(CredField, CredFailure),
    /// The HTTP method of the request has no wire equivalent.
    KubeWasiHttpMethodConversionError,
    /// A URI could not be parsed, or carries no usable path and query.
    HttpInvalidUriError,
    /// The resolved server URL has no authority component.
    ServerUrlNoAuthorityError,
}

} // verus!
