//! Configuration of the remote signer service.

use vstd::prelude::*;

use crate::backend::{SecureBackend, WaypointConfig};

verus! {

/// TLS material of the server. With `client_ca_cert_path` set the server
/// requires and verifies client certificates (mutual TLS).
#[derive(Clone, Debug, PartialEq, Eq)]
pub struct ServerTlsConfig {
    /// Server certificate (PEM).
    pub cert_path: String,
    /// Server private key (PEM).
    pub key_path: String,
    /// CA certificate that client certificates must be signed by (PEM).
    pub client_ca_cert_path: Option<String>,
}

/// How the signer learns the validator's identity at start-up.
#[derive(Clone, Debug, PartialEq, Eq)]
pub enum InitialConfig {
    /// Read the identity from files.
    FromFile {
        /// Identity blob holding the primary consensus key.
        identity_blob_path: String,
        /// Further identity blobs whose consensus keys are installed beside
        /// the primary one, for key rotation.
        overriding_identity_paths: Vec<String>,
        /// Waypoint for chain verification.
        waypoint: WaypointConfig,
    },
    /// Storage must already be initialised (written `none` in configuration
    /// files).
    Unset,
}

/// Configuration of the remote signer service.
#[derive(Clone, Debug, PartialEq, Eq)]
pub struct RemoteSignerServerConfig {
    /// Address to listen on, such as `0.0.0.0:8443`.
    pub listen_address: String,
    /// TLS material; without it the service runs insecurely (testing only).
    pub tls: Option<ServerTlsConfig>,
    /// Secure storage of safety data and keys.
    pub backend: SecureBackend,
    pub initial_safety_rules_config: InitialConfig,
    /// Keep safety data cached in memory.
    pub enable_cached_safety_data: bool,
}

/// Safety data is cached unless configured otherwise.
pub fn default_enable_cached_safety_data() -> (b: bool)
    ensures
        b,
{
    true
}

} // verus!
