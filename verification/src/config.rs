//! Configuration of the safety rules on a node: where they keep their data,
//! how they run (locally or through a remote signer), how they are first
//! initialised, and the checks a mainnet validator's configuration must pass.

use vstd::prelude::*;

use std::time::Duration;

use crate::backend::{SecureBackend, Waypoint, WaypointConfig};
use crate::error::Error;
use crate::text::{debug_quoted, decimal, write_debug_quoted, write_decimal};

verus! {

/// How the safety rules learn the validator's identity at start-up.
#[derive(Clone, Debug, PartialEq, Eq)]
pub enum InitialSafetyRulesConfig {
    FromFile {
        /// File holding the identity blob.
        identity_blob_path: String,
        /// Files holding further identity blobs whose consensus keys are
        /// also installed (for key rotation).
        overriding_identity_paths: Vec<String>,
        waypoint: WaypointConfig,
    },
    /// No initial configuration (written `none` in configuration files).
    Unset,
}

/// Why an identity blob could not be had.
#[derive(Clone, Debug, PartialEq, Eq)]
pub enum BlobLoadError<E> {
    /// No initial configuration names the blob; the text says what was being
    /// loaded.
    MissingConfig(String),
    /// Reading or parsing a blob failed.
    Load(E),
}

/// Whether `load` can succeed on `path`.
pub open spec fn loads_ok<B, E, F: Fn(&String) -> Result<B, E>>(load: F, path: &String) -> bool {
    exists|b: B| load.ensures((path,), Ok(b))
}

/// Whether loading the paths in order fails first at position `k`, with `e`.
pub open spec fn fails_first_at<B, E, F: Fn(&String) -> Result<B, E>>(
    load: F,
    paths: Seq<String>,
    k: int,
    e: E,
) -> bool {
    &&& 0 <= k < paths.len()
    &&& load.ensures((&paths[k],), Err(e))
    &&& forall|i: int| 0 <= i < k ==> #[trigger] loads_ok(load, &paths[i])
}

impl InitialSafetyRulesConfig {
    /// An initial configuration that reads the identity from files.
    pub fn from_file(
        identity_blob_path: String,
        overriding_identity_paths: Vec<String>,
        waypoint: WaypointConfig,
    ) -> (c: Self)
        ensures
            c == (InitialSafetyRulesConfig::FromFile {
                identity_blob_path,
                overriding_identity_paths,
                waypoint,
            }),
    {
        InitialSafetyRulesConfig::FromFile { identity_blob_path, overriding_identity_paths, waypoint }
    }

    /// The waypoint configuration of a configuration that reads the identity
    /// from files (a configuration without identity files has none).
    pub fn waypoint(&self) -> (w: &WaypointConfig)
        requires
            *self is FromFile,
        ensures
            *w == self->waypoint,
    {
        match self {
            InitialSafetyRulesConfig::FromFile { waypoint, .. } => waypoint,
            InitialSafetyRulesConfig::Unset => {
                proof {
                    assert(false);
                }
                unreached()
            },
        }
    }

    /// Whether an identity blob is configured.
    pub fn has_identity_blob(&self) -> (b: bool)
        ensures
            b == (self is FromFile),
    {
        match self {
            InitialSafetyRulesConfig::FromFile { .. } => true,
            InitialSafetyRulesConfig::Unset => false,
        }
    }

    /// Loads the identity blob with `load`, which reads and parses the file
    /// at a path.
    pub fn identity_blob<B, E, F: Fn(&String) -> Result<B, E>>(&self, load: F) -> (r: Result<
        B,
        BlobLoadError<E>,
    >)
        requires
            forall|p: String| #[trigger] load.requires((&p,)),
        ensures
            match self {
                InitialSafetyRulesConfig::FromFile { identity_blob_path, .. } => match r {
                    Ok(b) => load.ensures((identity_blob_path,), Ok(b)),
                    Err(BlobLoadError::Load(e)) => load.ensures((identity_blob_path,), Err(e)),
                    Err(BlobLoadError::MissingConfig(_)) => false,
                },
                InitialSafetyRulesConfig::Unset => r matches Err(BlobLoadError::MissingConfig(m))
                    && m@
                    == "loading identity blob failed with missing initial safety rules config"@,
            },
    {
        match self {
            InitialSafetyRulesConfig::FromFile { identity_blob_path, .. } => {
                match load(identity_blob_path) {
                    Ok(b) => Ok(b),
                    Err(e) => Err(BlobLoadError::Load(e)),
                }
            },
            InitialSafetyRulesConfig::Unset => Err(
                BlobLoadError::MissingConfig(
                    String::from_str(
                        "loading identity blob failed with missing initial safety rules config",
                    ),
                ),
            ),
        }
    }

    /// Loads every overriding identity blob with `load`, in the order of the
    /// paths, stopping at the first that fails.
    pub fn overriding_identity_blobs<B, E, F: Fn(&String) -> Result<B, E>>(&self, load: F) -> (r:
        Result<Vec<B>, BlobLoadError<E>>)
        requires
            forall|p: String| #[trigger] load.requires((&p,)),
        ensures
            match self {
                InitialSafetyRulesConfig::FromFile { overriding_identity_paths: paths, .. } => match r {
                    Ok(blobs) => blobs@.len() == paths@.len() && forall|i: int|
                        0 <= i < paths@.len() ==> load.ensures((&paths@[i],), Ok(#[trigger] blobs@[i])),
                    Err(BlobLoadError::Load(e)) => exists|k: int| #[trigger] fails_first_at(load, paths@, k, e),
                    Err(BlobLoadError::MissingConfig(_)) => false,
                },
                InitialSafetyRulesConfig::Unset => r matches Err(BlobLoadError::MissingConfig(m))
                    && m@
                    == "loading overriding identity blobs failed with missing initial safety rules config"@,
            },
    {
        match self {
            InitialSafetyRulesConfig::FromFile { overriding_identity_paths, .. } => {
                let mut blobs: Vec<B> = Vec::new();
                let n = overriding_identity_paths.len();
                let mut i: usize = 0;
                while i < n
                    invariant
                        *self is FromFile,
                        (*self)->overriding_identity_paths == *overriding_identity_paths,
                        n == overriding_identity_paths@.len(),
                        i <= n,
                        blobs@.len() == i,
                        forall|p: String| #[trigger] load.requires((&p,)),
                        forall|j: int|
                            0 <= j < i ==> load.ensures(
                                (&overriding_identity_paths@[j],),
                                Ok(#[trigger] blobs@[j]),
                            ),
                    decreases n - i,
                {
                    let path = &overriding_identity_paths[i];
                    match load(path) {
                        Ok(b) => {
                            blobs.push(b);
                        },
                        Err(e) => {
                            assert forall|j: int| 0 <= j < i implies #[trigger] loads_ok(
                                load,
                                &overriding_identity_paths@[j],
                            ) by {
                                assert(load.ensures((&overriding_identity_paths@[j],), Ok(blobs@[j])));
                            }
                            assert(fails_first_at(load, overriding_identity_paths@, i as int, e));
                            let r: Result<Vec<B>, BlobLoadError<E>> = Err(BlobLoadError::Load(e));
                            assert(r matches Err(BlobLoadError::Load(x)) && x == e);
                            return r;
                        },
                    }
                    i = i + 1;
                }
                Ok(blobs)
            },
            InitialSafetyRulesConfig::Unset => Err(
                BlobLoadError::MissingConfig(
                    String::from_str(
                        "loading overriding identity blobs failed with missing initial safety rules config",
                    ),
                ),
            ),
        }
    }

    /// The list of overriding identity files, for editing in place.
    pub fn overriding_identity_blob_paths_mut(&mut self) -> (paths: &mut Vec<String>)
        requires
            *old(self) is FromFile,
        ensures
            *paths == (*old(self))->overriding_identity_paths,
            *final(self) == (InitialSafetyRulesConfig::FromFile {
                identity_blob_path: (*old(self))->identity_blob_path,
                overriding_identity_paths: *final(paths),
                waypoint: (*old(self))->waypoint,
            }),
    {
        match self {
            InitialSafetyRulesConfig::FromFile { overriding_identity_paths, .. } => {
                overriding_identity_paths
            },
            InitialSafetyRulesConfig::Unset => {
                proof {
                    assert(false);
                }
                unreached()
            },
        }
    }
}

/// TLS material of the remote signer client: all three files are needed for
/// mutual TLS.
#[derive(Clone, Debug, PartialEq, Eq)]
pub struct RemoteSignerTlsConfig {
    /// CA certificate for verifying the server (PEM).
    pub ca_cert_path: String,
    /// Client certificate presented to the server (PEM).
    pub client_cert_path: String,
    /// Client private key (PEM).
    pub client_key_path: String,
}

/// How the validator reaches a remote signer.
#[derive(Clone, Debug, PartialEq, Eq)]
pub struct RemoteSignerConfig {
    /// Server address with scheme and port, such as
    /// `https://signer.internal:8443`.
    pub server_address: String,
    /// TLS material; required unless `allow_insecure` is set.
    pub tls_config: Option<RemoteSignerTlsConfig>,
    /// Allow a connection without TLS (testing only).
    pub allow_insecure: bool,
    /// How long to wait for a connection, in milliseconds.
    pub connect_timeout_ms: u64,
    /// How long to wait for each request, in milliseconds.
    pub request_timeout_ms: u64,
    /// How many times a failed request is retried after its first try.
    pub max_retries: u32,
    /// First pause between tries, in milliseconds; it doubles after each
    /// retry, every pause being at most 30 seconds.
    pub initial_backoff_ms: u64,
}

/// `Duration::from_millis(ms)`: the duration of `ms` milliseconds.
pub uninterp spec fn duration_from_millis(ms: u64) -> Duration;

/// Builds the duration of `ms` milliseconds (`Duration::from_millis`).
#[verifier::external_body]
fn millis(ms: u64) -> (d: Duration)
    ensures
        d == duration_from_millis(ms),
{
    Duration::from_millis(ms)
}

/// The text of the error returned when neither TLS nor an insecure
/// connection is configured.
pub open spec fn tls_required_text() -> Seq<char> {
    "TLS configuration is required. Set allow_insecure=true for testing without TLS."@
}

impl RemoteSignerConfig {
    /// Default connection timeout: 5 seconds.
    pub fn default_connect_timeout_ms() -> (ms: u64)
        ensures
            ms == 5000,
    {
        5000
    }

    /// Default request timeout: 10 seconds.
    pub fn default_request_timeout_ms() -> (ms: u64)
        ensures
            ms == 10000,
    {
        10000
    }

    /// Default number of tries: 3.
    pub fn default_max_retries() -> (n: u32)
        ensures
            n == 3,
    {
        3
    }

    /// Default first pause between tries: 100 milliseconds.
    pub fn default_initial_backoff_ms() -> (ms: u64)
        ensures
            ms == 100,
    {
        100
    }

    /// The connection timeout.
    pub fn connect_timeout(&self) -> (d: Duration)
        ensures
            d == duration_from_millis(self.connect_timeout_ms),
    {
        millis(self.connect_timeout_ms)
    }

    /// The request timeout.
    pub fn request_timeout(&self) -> (d: Duration)
        ensures
            d == duration_from_millis(self.request_timeout_ms),
    {
        millis(self.request_timeout_ms)
    }

    /// The TLS material to connect with: `Some` when TLS is configured,
    /// `None` for an insecure connection, which is allowed only when asked
    /// for; otherwise the connection is refused.
    pub fn transport_security(&self) -> (r: Result<Option<&RemoteSignerTlsConfig>, Error>)
        ensures
            match self.tls_config {
                Some(tls) => r == Ok::<Option<&RemoteSignerTlsConfig>, Error>(Some(&tls)),
                None => if self.allow_insecure {
                    r == Ok::<Option<&RemoteSignerTlsConfig>, Error>(None)
                } else {
                    r matches Err(Error::InternalError(m)) && m@ == tls_required_text()
                },
            },
    {
        match &self.tls_config {
            Some(tls) => Ok(Some(tls)),
            None => {
                if self.allow_insecure {
                    Ok(None)
                } else {
                    Err(
                        Error::InternalError(
                            String::from_str(
                                "TLS configuration is required. Set allow_insecure=true for testing without TLS.",
                            ),
                        ),
                    )
                }
            },
        }
    }
}

/// A safety-rules process reached over the network.
#[derive(Clone, Debug, PartialEq, Eq)]
pub struct RemoteService {
    /// Network address of the service, such as `/ip4/127.0.0.1/tcp/6191`.
    pub server_address: String,
}

/// How the safety rules are run.
#[derive(Clone, Debug, PartialEq, Eq)]
pub enum SafetyRulesService {
    /// In the same thread as the event processor.
    Local,
    /// In a separate process.
    Process(RemoteService),
    /// In the same thread, with data passed through a serializer.
    Serializer,
    /// In a separate thread.
    Thread,
    /// In a remote signer reached over gRPC.
    RemoteSigner(RemoteSignerConfig),
}

impl SafetyRulesService {
    /// Whether the safety rules run locally.
    pub fn is_local(&self) -> (b: bool)
        ensures
            b == (self is Local),
    {
        match self {
            SafetyRulesService::Local => true,
            _ => false,
        }
    }

    /// How the service is written in debug output (see `service_text`).
    pub fn debug_text(&self) -> (s: String)
        ensures
            s@ == service_text(*self),
    {
        let mut s = String::new();
        match self {
            SafetyRulesService::Local => {
                s.append("Local");
            },
            SafetyRulesService::Process(r) => {
                s.append("Process(RemoteService { server_address: ");
                s.append(r.server_address.as_str());
                s.append(" })");
            },
            SafetyRulesService::Serializer => {
                s.append("Serializer");
            },
            SafetyRulesService::Thread => {
                s.append("Thread");
            },
            SafetyRulesService::RemoteSigner(c) => {
                s.append("RemoteSigner(");
                write_remote_signer_config_text(&mut s, c);
                s.append(")");
            },
        }
        assert(s@ =~= service_text(*self));
        s
    }
}

/// Appends the debug text of TLS settings (see `tls_config_text`).
fn write_tls_config_text(out: &mut String, t: &RemoteSignerTlsConfig)
    ensures
        final(out)@ == old(out)@ + tls_config_text(*t),
{
    let ghost start = out@;
    out.append("RemoteSignerTlsConfig { ca_cert_path: ");
    write_debug_quoted(out, t.ca_cert_path.as_str(), true);
    out.append(", client_cert_path: ");
    write_debug_quoted(out, t.client_cert_path.as_str(), true);
    out.append(", client_key_path: ");
    write_debug_quoted(out, t.client_key_path.as_str(), true);
    out.append(" }");
    assert(out@ =~= start + tls_config_text(*t));
}

/// Appends the debug text of a remote signer's settings (see
/// `remote_signer_config_text`).
fn write_remote_signer_config_text(out: &mut String, c: &RemoteSignerConfig)
    ensures
        final(out)@ == old(out)@ + remote_signer_config_text(*c),
{
    let ghost start = out@;
    out.append("RemoteSignerConfig { server_address: ");
    write_debug_quoted(out, c.server_address.as_str(), false);
    out.append(", tls_config: ");
    let ghost after_address = out@;
    match &c.tls_config {
        Some(t) => {
            out.append("Some(");
            write_tls_config_text(out, t);
            out.append(")");
        },
        None => {
            out.append("None");
        },
    }
    assert(out@ =~= after_address + match c.tls_config {
        Some(t) => "Some("@ + tls_config_text(t) + ")"@,
        None => "None"@,
    });
    out.append(", allow_insecure: ");
    if c.allow_insecure {
        out.append("true");
    } else {
        out.append("false");
    }
    out.append(", connect_timeout_ms: ");
    write_decimal(out, c.connect_timeout_ms);
    out.append(", request_timeout_ms: ");
    write_decimal(out, c.request_timeout_ms);
    out.append(", max_retries: ");
    write_decimal(out, c.max_retries as u64);
    out.append(", initial_backoff_ms: ");
    write_decimal(out, c.initial_backoff_ms);
    out.append(" }");
    assert(out@ =~= start + remote_signer_config_text(*c));
}

/// `true` or `false`.
pub open spec fn bool_text(b: bool) -> Seq<char> {
    if b {
        "true"@
    } else {
        "false"@
    }
}

/// How TLS settings are written in debug output: the struct's name and
/// each path, quoted as a path is.
pub open spec fn tls_config_text(t: RemoteSignerTlsConfig) -> Seq<char> {
    "RemoteSignerTlsConfig { ca_cert_path: "@ + debug_quoted(t.ca_cert_path@, true)
        + ", client_cert_path: "@ + debug_quoted(t.client_cert_path@, true)
        + ", client_key_path: "@ + debug_quoted(t.client_key_path@, true) + " }"@
}

/// How a remote signer's settings are written in debug output: the struct's
/// name and each field in order, the address quoted as a string is.
pub open spec fn remote_signer_config_text(c: RemoteSignerConfig) -> Seq<char> {
    "RemoteSignerConfig { server_address: "@ + debug_quoted(c.server_address@, false)
        + ", tls_config: "@ + match c.tls_config {
        Some(t) => "Some("@ + tls_config_text(t) + ")"@,
        None => "None"@,
    } + ", allow_insecure: "@ + bool_text(c.allow_insecure) + ", connect_timeout_ms: "@
        + decimal(c.connect_timeout_ms as nat) + ", request_timeout_ms: "@ + decimal(
        c.request_timeout_ms as nat,
    ) + ", max_retries: "@ + decimal(c.max_retries as nat) + ", initial_backoff_ms: "@
        + decimal(c.initial_backoff_ms as nat) + " }"@
}

/// How a safety-rules service is written in debug output: the variant's
/// name, and for a variant with settings those settings in brackets. A
/// network address is written as its text, without quotes.
pub open spec fn service_text(s: SafetyRulesService) -> Seq<char> {
    match s {
        SafetyRulesService::Local => "Local"@,
        SafetyRulesService::Process(r) => "Process(RemoteService { server_address: "@
            + r.server_address@ + " })"@,
        SafetyRulesService::Serializer => "Serializer"@,
        SafetyRulesService::Thread => "Thread"@,
        SafetyRulesService::RemoteSigner(c) => "RemoteSigner("@ + remote_signer_config_text(c)
            + ")"@,
    }
}

/// Settings used only by tests: a fixed author, and optionally a fixed
/// consensus key and waypoint.
#[derive(Clone, Debug, PartialEq, Eq)]
pub struct SafetyRulesTestConfig {
    /// The author's account address.
    pub author: [u8; 32],
    /// Bytes of the BLS12-381 consensus private key.
    pub consensus_key: Option<Vec<u8>>,
    pub waypoint: Option<Waypoint>,
}

impl SafetyRulesTestConfig {
    /// Test settings for `author`, with no key and no waypoint.
    pub fn new(author: [u8; 32]) -> (c: Self)
        ensures
            c.author == author,
            c.consensus_key is None,
            c.waypoint is None,
    {
        SafetyRulesTestConfig { author, consensus_key: None, waypoint: None }
    }

    /// Sets the consensus key.
    pub fn consensus_key(&mut self, key: Vec<u8>)
        ensures
            final(self).consensus_key == Some(key),
            final(self).author == old(self).author,
            final(self).waypoint == old(self).waypoint,
    {
        self.consensus_key = Some(key);
    }
}

/// Configuration of the safety rules of a node.
#[derive(Clone, Debug, PartialEq, Eq)]
pub struct SafetyRulesConfig {
    pub backend: SecureBackend,
    pub service: SafetyRulesService,
    pub test: Option<SafetyRulesTestConfig>,
    /// Read, write and connect timeout of network operations, in
    /// milliseconds.
    pub network_timeout_ms: u64,
    pub enable_cached_safety_data: bool,
    pub initial_safety_rules_config: InitialSafetyRulesConfig,
}

impl Default for SafetyRulesConfig {
    fn default() -> (c: Self)
        ensures
            c.backend == SecureBackend::InMemoryStorage,
            c.service == SafetyRulesService::Local,
            c.test is None,
            c.network_timeout_ms == 30000,
            c.enable_cached_safety_data,
            c.initial_safety_rules_config == InitialSafetyRulesConfig::Unset,
    {
        SafetyRulesConfig {
            backend: SecureBackend::InMemoryStorage,
            service: SafetyRulesService::Local,
            test: None,
            network_timeout_ms: 30_000,
            enable_cached_safety_data: true,
            initial_safety_rules_config: InitialSafetyRulesConfig::Unset,
        }
    }
}

/// The role of a node.
#[derive(Clone, Copy, Debug, PartialEq, Eq)]
pub enum NodeType {
    Validator,
    ValidatorFullnode,
    PublicFullnode,
}

impl NodeType {
    /// Whether the node is a validator.
    pub fn is_validator(&self) -> (b: bool)
        ensures
            b == (*self is Validator),
    {
        match self {
            NodeType::Validator => true,
            _ => false,
        }
    }
}

/// The identifier of a chain.
#[derive(Clone, Copy, Debug, PartialEq, Eq)]
pub struct ChainId(u8);

/// The identifier of mainnet.
pub const MAINNET_CHAIN_ID: u8 = 1;

impl ChainId {
    /// The number of the chain.
    pub closed spec fn spec_id(self) -> u8 {
        self.0
    }

    /// The chain numbered `id`.
    pub fn new(id: u8) -> (c: ChainId)
        ensures
            c.spec_id() == id,
    {
        ChainId(id)
    }

    /// The number of the chain.
    pub fn id(&self) -> (id: u8)
        ensures
            id == self.spec_id(),
    {
        self.0
    }

    /// Mainnet.
    pub fn mainnet() -> (c: ChainId)
        ensures
            c.spec_id() == MAINNET_CHAIN_ID,
    {
        ChainId(MAINNET_CHAIN_ID)
    }

    /// Whether this is mainnet.
    pub fn is_mainnet(&self) -> (b: bool)
        ensures
            b == (self.spec_id() == MAINNET_CHAIN_ID),
    {
        self.0 == MAINNET_CHAIN_ID
    }
}

/// A configuration that a node refuses to start with.
#[derive(Clone, Debug, PartialEq, Eq)]
pub enum ConfigError {
    /// A sanitizer, named by the first text, refused the configuration for
    /// the reason given by the second.
    ConfigSanitizerFailed(String, String),
}

/// The name under which the safety-rules sanitizer reports.
pub open spec fn sanitizer_name() -> Seq<char> {
    "SafetyRulesConfigSanitizer"@
}

/// Why a mainnet validator keeping its secrets in memory is refused.
pub open spec fn in_memory_on_mainnet_text() -> Seq<char> {
    "The secure backend should not be set to in memory storage in mainnet!"@
}

/// How the refusal of safety rules that do not run locally on mainnet
/// begins; the service's debug text follows.
pub open spec fn non_local_on_mainnet_prefix() -> Seq<char> {
    "The safety rules service should be set to local in mainnet for optimal performance! Given config: "@
}

/// Why test settings on mainnet are refused.
pub open spec fn test_config_on_mainnet_text() -> Seq<char> {
    "The safety rules test config should not be used in mainnet!"@
}

impl SafetyRulesConfig {
    /// Points on-disk storage at the node's data directory; other backends
    /// are left as they are.
    pub fn set_data_dir(&mut self, data_dir: String)
        ensures
            match old(self).backend {
                SecureBackend::OnDiskStorage(b) => final(self).backend == SecureBackend::OnDiskStorage(
                    crate::backend::OnDiskStorageConfig { data_dir, ..b },
                ),
                _ => final(self).backend == old(self).backend,
            },
            final(self).service == old(self).service,
            final(self).test == old(self).test,
            final(self).network_timeout_ms == old(self).network_timeout_ms,
            final(self).enable_cached_safety_data == old(self).enable_cached_safety_data,
            final(self).initial_safety_rules_config == old(self).initial_safety_rules_config,
    {
        if let SecureBackend::OnDiskStorage(backend) = &mut self.backend {
            backend.set_data_dir(data_dir);
        }
    }

    /// Checks the configuration of a node of type `node_type` on the chain
    /// `chain_id`: a mainnet validator must not keep its secrets in memory,
    /// and on mainnet the safety rules must run locally and without test
    /// settings. Other nodes and other chains pass.
    pub fn sanitize(&self, node_type: NodeType, chain_id: Option<ChainId>) -> (r: Result<
        (),
        ConfigError,
    >)
        ensures
            ({
                let mainnet = chain_id matches Some(c) && c.spec_id() == MAINNET_CHAIN_ID;
                if !(node_type is Validator) || !mainnet {
                    r is Ok
                } else if self.backend is InMemoryStorage {
                    r matches Err(ConfigError::ConfigSanitizerFailed(n, m)) && n@ == sanitizer_name()
                        && m@ == in_memory_on_mainnet_text()
                } else if !(self.service is Local) {
                    r matches Err(ConfigError::ConfigSanitizerFailed(n, m)) && n@ == sanitizer_name()
                        && m@ == non_local_on_mainnet_prefix() + service_text(self.service)
                } else if self.test is Some {
                    r matches Err(ConfigError::ConfigSanitizerFailed(n, m)) && n@ == sanitizer_name()
                        && m@ == test_config_on_mainnet_text()
                } else {
                    r is Ok
                }
            }),
    {
        if !node_type.is_validator() {
            return Ok(());
        }
        if let Some(chain_id) = chain_id {
            if chain_id.is_mainnet() && node_type.is_validator() && self.backend.is_in_memory() {
                return Err(
                    ConfigError::ConfigSanitizerFailed(
                        String::from_str("SafetyRulesConfigSanitizer"),
                        String::from_str(
                            "The secure backend should not be set to in memory storage in mainnet!",
                        ),
                    ),
                );
            }
            if chain_id.is_mainnet() && !self.service.is_local() {
                let mut message = String::from_str(
                    "The safety rules service should be set to local in mainnet for optimal performance! Given config: ",
                );
                let debug = self.service.debug_text();
                message.append(debug.as_str());
                return Err(
                    ConfigError::ConfigSanitizerFailed(String::from_str("SafetyRulesConfigSanitizer"), message),
                );
            }
            if chain_id.is_mainnet() && self.test.is_some() {
                return Err(
                    ConfigError::ConfigSanitizerFailed(
                        String::from_str("SafetyRulesConfigSanitizer"),
                        String::from_str("The safety rules test config should not be used in mainnet!"),
                    ),
                );
            }
        }
        Ok(())
    }
}

} // verus!
