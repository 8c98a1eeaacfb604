use aptos_remote_signer::backend::{OnDiskStorageConfig, SecureBackend, Waypoint, WaypointConfig};
use aptos_remote_signer::config::{
    BlobLoadError, ChainId, ConfigError, InitialSafetyRulesConfig, NodeType, RemoteService,
    RemoteSignerConfig, RemoteSignerTlsConfig, SafetyRulesConfig, SafetyRulesService,
    SafetyRulesTestConfig,
};
use aptos_remote_signer::error::Error;
use std::time::Duration;

fn insecure_config() -> RemoteSignerConfig {
    RemoteSignerConfig {
        server_address: "http://localhost:8080".to_string(),
        tls_config: None,
        allow_insecure: true,
        connect_timeout_ms: 5000,
        request_timeout_ms: 10000,
        max_retries: 3,
        initial_backoff_ms: 100,
    }
}

#[test]
fn test_sanitize_invalid_backend_for_mainnet() {
    let safety_rules = SafetyRulesConfig {
        backend: SecureBackend::InMemoryStorage,
        ..Default::default()
    };
    let error = safety_rules
        .sanitize(NodeType::Validator, Some(ChainId::mainnet()))
        .unwrap_err();
    assert!(matches!(error, ConfigError::ConfigSanitizerFailed(_, _)));
}

#[test]
fn test_sanitize_backend_for_mainnet_fullnodes() {
    let safety_rules = SafetyRulesConfig {
        backend: SecureBackend::InMemoryStorage,
        ..Default::default()
    };
    safety_rules
        .sanitize(NodeType::PublicFullnode, Some(ChainId::mainnet()))
        .unwrap();
}

#[test]
fn test_sanitize_invalid_service_for_mainnet() {
    let safety_rules = SafetyRulesConfig {
        service: SafetyRulesService::Serializer,
        ..Default::default()
    };
    let error = safety_rules
        .sanitize(NodeType::Validator, Some(ChainId::mainnet()))
        .unwrap_err();
    assert!(matches!(error, ConfigError::ConfigSanitizerFailed(_, _)));
}

#[test]
fn test_sanitize_test_config_on_mainnet() {
    let safety_rules = SafetyRulesConfig {
        test: Some(SafetyRulesTestConfig::new([7u8; 32])),
        ..Default::default()
    };
    let error = safety_rules
        .sanitize(NodeType::Validator, Some(ChainId::mainnet()))
        .unwrap_err();
    assert!(matches!(error, ConfigError::ConfigSanitizerFailed(_, _)));
}

fn on_disk() -> SecureBackend {
    SecureBackend::OnDiskStorage(OnDiskStorageConfig {
        path: "secure_storage.json".to_string(),
        namespace: None,
        data_dir: "/opt/aptos/data".to_string(),
    })
}

#[test]
fn sanitize_reports_each_mainnet_rule() {
    let base = SafetyRulesConfig { backend: on_disk(), ..Default::default() };
    assert_eq!(base.sanitize(NodeType::Validator, Some(ChainId::mainnet())), Ok(()));

    let in_memory = SafetyRulesConfig::default();
    assert_eq!(
        in_memory.sanitize(NodeType::Validator, Some(ChainId::mainnet())),
        Err(ConfigError::ConfigSanitizerFailed(
            "SafetyRulesConfigSanitizer".to_string(),
            "The secure backend should not be set to in memory storage in mainnet!".to_string()
        ))
    );

    let thread = SafetyRulesConfig {
        backend: on_disk(),
        service: SafetyRulesService::Thread,
        ..Default::default()
    };
    match thread.sanitize(NodeType::Validator, Some(ChainId::mainnet())) {
        Err(ConfigError::ConfigSanitizerFailed(name, message)) => {
            assert_eq!(name, "SafetyRulesConfigSanitizer");
            assert_eq!(
                message,
                "The safety rules service should be set to local in mainnet for optimal performance! Given config: Thread"
            );
        },
        other => panic!("unexpected {:?}", other),
    }

    let with_test = SafetyRulesConfig {
        backend: on_disk(),
        test: Some(SafetyRulesTestConfig::new([1u8; 32])),
        ..Default::default()
    };
    assert_eq!(
        with_test.sanitize(NodeType::Validator, Some(ChainId::mainnet())),
        Err(ConfigError::ConfigSanitizerFailed(
            "SafetyRulesConfigSanitizer".to_string(),
            "The safety rules test config should not be used in mainnet!".to_string()
        ))
    );
}

#[test]
fn sanitize_passes_other_chains_and_nodes() {
    let bad = SafetyRulesConfig {
        service: SafetyRulesService::Process(RemoteService {
            server_address: "/ip4/127.0.0.1/tcp/5555".to_string(),
        }),
        test: Some(SafetyRulesTestConfig::new([0u8; 32])),
        ..Default::default()
    };
    assert_eq!(bad.sanitize(NodeType::Validator, Some(ChainId::new(2))), Ok(()));
    assert_eq!(bad.sanitize(NodeType::Validator, None), Ok(()));
    assert_eq!(bad.sanitize(NodeType::ValidatorFullnode, Some(ChainId::mainnet())), Ok(()));
}

#[test]
fn default_safety_rules_config() {
    let config = SafetyRulesConfig::default();
    assert_eq!(config.backend, SecureBackend::InMemoryStorage);
    assert_eq!(config.service, SafetyRulesService::Local);
    assert!(config.test.is_none());
    assert_eq!(config.network_timeout_ms, 30_000);
    assert!(config.enable_cached_safety_data);
    assert_eq!(config.initial_safety_rules_config, InitialSafetyRulesConfig::Unset);
    assert!(config.service.is_local());
    assert!(!SafetyRulesService::Serializer.is_local());
}

#[test]
fn set_data_dir_only_moves_on_disk_storage() {
    let mut config = SafetyRulesConfig { backend: on_disk(), ..Default::default() };
    config.set_data_dir("/tmp/node".to_string());
    match &config.backend {
        SecureBackend::OnDiskStorage(b) => {
            assert_eq!(b.data_dir, "/tmp/node");
            assert_eq!(b.path, "secure_storage.json");
        },
        other => panic!("unexpected {:?}", other),
    }
    let mut in_memory = SafetyRulesConfig::default();
    in_memory.set_data_dir("/tmp/node".to_string());
    assert_eq!(in_memory.backend, SecureBackend::InMemoryStorage);
}

#[test]
fn test_config_keys() {
    let mut test = SafetyRulesTestConfig::new([3u8; 32]);
    assert!(test.consensus_key.is_none());
    test.consensus_key(vec![1, 2, 3]);
    assert_eq!(test.consensus_key, Some(vec![1, 2, 3]));
    assert_eq!(test.author, [3u8; 32]);
}

#[test]
fn chain_ids() {
    assert!(ChainId::mainnet().is_mainnet());
    assert_eq!(ChainId::mainnet().id(), 1);
    assert!(!ChainId::new(4).is_mainnet());
    assert!(NodeType::Validator.is_validator());
    assert!(!NodeType::PublicFullnode.is_validator());
}

fn from_file_config() -> InitialSafetyRulesConfig {
    InitialSafetyRulesConfig::from_file(
        "identity.yaml".to_string(),
        vec!["a.yaml".to_string(), "b.yaml".to_string(), "c.yaml".to_string()],
        WaypointConfig::FromConfig(Waypoint { version: 0, value: [9u8; 32] }),
    )
}

#[test]
fn identity_blob_loads_the_configured_file() {
    let config = from_file_config();
    assert!(config.has_identity_blob());
    let blob: Result<String, BlobLoadError<String>> =
        config.identity_blob(|p: &String| Ok::<String, String>(format!("blob of {}", p)));
    assert_eq!(blob, Ok("blob of identity.yaml".to_string()));
    let failed: Result<String, BlobLoadError<String>> =
        config.identity_blob(|p: &String| Err::<String, String>(format!("cannot read {}", p)));
    assert_eq!(failed, Err(BlobLoadError::Load("cannot read identity.yaml".to_string())));
}

#[test]
fn identity_blob_without_initial_config() {
    let config = InitialSafetyRulesConfig::Unset;
    assert!(!config.has_identity_blob());
    let blob: Result<String, BlobLoadError<String>> =
        config.identity_blob(|p: &String| Ok::<String, String>(p.clone()));
    assert_eq!(
        blob,
        Err(BlobLoadError::MissingConfig(
            "loading identity blob failed with missing initial safety rules config".to_string()
        ))
    );
    let blobs: Result<Vec<String>, BlobLoadError<String>> =
        config.overriding_identity_blobs(|p: &String| Ok::<String, String>(p.clone()));
    assert_eq!(
        blobs,
        Err(BlobLoadError::MissingConfig(
            "loading overriding identity blobs failed with missing initial safety rules config"
                .to_string()
        ))
    );
}

#[test]
fn overriding_identity_blobs_in_order_until_first_failure() {
    let config = from_file_config();
    let blobs: Result<Vec<String>, BlobLoadError<String>> =
        config.overriding_identity_blobs(|p: &String| Ok::<String, String>(p.to_uppercase()));
    assert_eq!(
        blobs,
        Ok(vec!["A.YAML".to_string(), "B.YAML".to_string(), "C.YAML".to_string()])
    );
    let failing: Result<Vec<String>, BlobLoadError<String>> =
        config.overriding_identity_blobs(|p: &String| {
            if p == "a.yaml" {
                Ok::<String, String>(p.clone())
            } else {
                Err(format!("bad {}", p))
            }
        });
    assert_eq!(failing, Err(BlobLoadError::Load("bad b.yaml".to_string())));
}

#[test]
fn overriding_paths_can_be_edited() {
    let mut config = from_file_config();
    config.overriding_identity_blob_paths_mut().push("d.yaml".to_string());
    match &config {
        InitialSafetyRulesConfig::FromFile { overriding_identity_paths, identity_blob_path, .. } => {
            assert_eq!(overriding_identity_paths.len(), 4);
            assert_eq!(overriding_identity_paths[3], "d.yaml");
            assert_eq!(identity_blob_path, "identity.yaml");
        },
        InitialSafetyRulesConfig::Unset => panic!("expected identity files"),
    }
    assert_eq!(
        config.waypoint(),
        &WaypointConfig::FromConfig(Waypoint { version: 0, value: [9u8; 32] })
    );
}

#[test]
fn test_remote_signer_config_timeout_conversion() {
    let config = RemoteSignerConfig {
        server_address: "https://localhost:8443".to_string(),
        tls_config: None,
        allow_insecure: false,
        connect_timeout_ms: 5000,
        request_timeout_ms: 10000,
        max_retries: 3,
        initial_backoff_ms: 100,
    };
    assert_eq!(config.connect_timeout(), Duration::from_millis(5000));
    assert_eq!(config.request_timeout(), Duration::from_millis(10000));
}

#[test]
fn test_remote_signer_config_custom_timeouts() {
    let config = RemoteSignerConfig {
        server_address: "https://localhost:8443".to_string(),
        tls_config: None,
        allow_insecure: true,
        connect_timeout_ms: 1000,
        request_timeout_ms: 2000,
        max_retries: 5,
        initial_backoff_ms: 200,
    };
    assert_eq!(config.connect_timeout(), Duration::from_millis(1000));
    assert_eq!(config.request_timeout(), Duration::from_millis(2000));
}

#[test]
fn test_remote_signer_config_insecure_mode() {
    let config = RemoteSignerConfig {
        server_address: "http://localhost:8080".to_string(),
        tls_config: None,
        allow_insecure: true,
        connect_timeout_ms: 5000,
        request_timeout_ms: 10000,
        max_retries: 3,
        initial_backoff_ms: 100,
    };
    assert!(config.allow_insecure);
    assert!(config.tls_config.is_none());
}

#[test]
fn remote_signer_defaults() {
    assert_eq!(RemoteSignerConfig::default_connect_timeout_ms(), 5000);
    assert_eq!(RemoteSignerConfig::default_request_timeout_ms(), 10000);
    assert_eq!(RemoteSignerConfig::default_max_retries(), 3);
    assert_eq!(RemoteSignerConfig::default_initial_backoff_ms(), 100);
}

#[test]
fn transport_security_requires_tls_unless_insecure_is_allowed() {
    let insecure = insecure_config();
    assert_eq!(insecure.transport_security(), Ok(None));

    let refused = RemoteSignerConfig { allow_insecure: false, ..insecure_config() };
    assert_eq!(
        refused.transport_security(),
        Err(Error::InternalError(
            "TLS configuration is required. Set allow_insecure=true for testing without TLS."
                .to_string()
        ))
    );

    let tls = RemoteSignerTlsConfig {
        ca_cert_path: "/etc/aptos/certs/ca.pem".to_string(),
        client_cert_path: "/etc/aptos/certs/validator.pem".to_string(),
        client_key_path: "/etc/aptos/certs/validator-key.pem".to_string(),
    };
    let secure = RemoteSignerConfig {
        tls_config: Some(tls.clone()),
        allow_insecure: true,
        ..insecure_config()
    };
    assert_eq!(secure.transport_security(), Ok(Some(&tls)));
}

#[test]
fn service_debug_text_of_each_kind() {
    assert_eq!(SafetyRulesService::Local.debug_text(), "Local");
    assert_eq!(SafetyRulesService::Thread.debug_text(), "Thread");
    assert_eq!(SafetyRulesService::Serializer.debug_text(), "Serializer");
    assert_eq!(
        SafetyRulesService::Process(RemoteService {
            server_address: "/ip4/127.0.0.1/tcp/6191".to_string()
        })
        .debug_text(),
        "Process(RemoteService { server_address: /ip4/127.0.0.1/tcp/6191 })"
    );
    assert_eq!(
        SafetyRulesService::RemoteSigner(insecure_config()).debug_text(),
        format!("RemoteSigner({:?})", insecure_config())
    );
    let mut secure = insecure_config();
    secure.allow_insecure = false;
    secure.tls_config = Some(RemoteSignerTlsConfig {
        ca_cert_path: "/etc/certs/ca.pem".to_string(),
        client_cert_path: "/etc/certs/client.pem".to_string(),
        client_key_path: "/etc/certs/client-key.pem".to_string(),
    });
    assert_eq!(
        SafetyRulesService::RemoteSigner(secure.clone()).debug_text(),
        format!("RemoteSigner({:?})", secure)
    );
}

#[test]
fn service_debug_text_escapes_quoted_texts() {
    let mut config = insecure_config();
    config.server_address = "http://a\"b\\c\n\t\u{1b}'".to_string();
    config.tls_config = Some(RemoteSignerTlsConfig {
        ca_cert_path: "it's".to_string(),
        client_cert_path: "c".to_string(),
        client_key_path: "k\u{7f}".to_string(),
    });
    assert_eq!(
        SafetyRulesService::RemoteSigner(config).debug_text(),
        "RemoteSigner(RemoteSignerConfig { server_address: \"http://a\\\"b\\\\c\\n\\t\\u{1b}'\", \
         tls_config: Some(RemoteSignerTlsConfig { ca_cert_path: \"it\\'s\", client_cert_path: \"c\", \
         client_key_path: \"k\\u{7f}\" }), allow_insecure: true, connect_timeout_ms: 5000, \
         request_timeout_ms: 10000, max_retries: 3, initial_backoff_ms: 100 })"
    );
}

#[test]
fn service_debug_text_escapes_unprintable_unicode() {
    let mut config = insecure_config();
    config.server_address = "h\u{e9}\u{200b}x\u{301}\u{85}".to_string();
    let text = SafetyRulesService::RemoteSigner(config.clone()).debug_text();
    assert_eq!(text, format!("RemoteSigner({:?})", config));
    assert!(text.contains("\"h\u{e9}\\u{200b}x\\u{301}\\u{85}\""));
}
