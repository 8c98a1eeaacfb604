//! Where the signer keeps its secrets and where it learns its waypoint.

use vstd::prelude::*;

verus! {

/// How the client authenticates to a Vault server.
#[derive(Clone, Debug, PartialEq, Eq)]
pub enum Token {
    /// The token itself.
    FromConfig(String),
    /// A file that holds the token.
    FromDisk(String),
}

/// A Vault server used as secure storage.
#[derive(Clone, Debug, PartialEq, Eq)]
pub struct VaultConfig {
    /// CA certificate file for the connection, if any.
    pub ca_certificate: Option<String>,
    pub namespace: Option<String>,
    pub renew_ttl_secs: Option<u32>,
    pub server: String,
    pub token: Token,
    pub disable_cas: Option<bool>,
    pub connection_timeout_ms: Option<u64>,
    pub response_timeout_ms: Option<u64>,
}

/// A JSON file used as secure storage.
#[derive(Clone, Debug, PartialEq, Eq)]
pub struct OnDiskStorageConfig {
    /// The storage file, relative to `data_dir` unless absolute.
    pub path: String,
    pub namespace: Option<String>,
    /// The node's data directory (not part of the written configuration).
    pub data_dir: String,
}

impl OnDiskStorageConfig {
    /// Records the node's data directory.
    pub fn set_data_dir(&mut self, data_dir: String)
        ensures
            final(self).data_dir == data_dir,
            final(self).path == old(self).path,
            final(self).namespace == old(self).namespace,
    {
        self.data_dir = data_dir;
    }
}

/// Secure storage for keys and safety data.
#[derive(Clone, Debug, PartialEq, Eq)]
pub enum SecureBackend {
    InMemoryStorage,
    Vault(VaultConfig),
    OnDiskStorage(OnDiskStorageConfig),
}

impl SecureBackend {
    /// Whether the storage lives only in memory.
    pub fn is_in_memory(&self) -> (b: bool)
        ensures
            b == (self is InMemoryStorage),
    {
        match self {
            SecureBackend::InMemoryStorage => true,
            _ => false,
        }
    }
}

/// A trusted point of the ledger: a version and the hash of the ledger info
/// there.
#[derive(Clone, Copy, Debug, PartialEq, Eq)]
pub struct Waypoint {
    pub version: u64,
    pub value: [u8; 32],
}

/// Where the waypoint comes from.
#[derive(Clone, Debug, PartialEq, Eq)]
pub enum WaypointConfig {
    FromConfig(Waypoint),
    /// A file that holds the waypoint.
    FromFile(String),
    FromStorage(SecureBackend),
    /// No waypoint is configured (written `none` in configuration files).
    Unset,
}

} // verus!
