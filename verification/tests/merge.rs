use tabby::config::to_local_config;
use tabby::config::Device;
use tabby::config::HostAddress;
use tabby::config::LocalModel;
use tabby::config::ModelRoleConfig;
use tabby::config::ModelSettings;
use tabby::config::RemoteModel;
use tabby::config::ServerConfig;
use tabby::config::ServerSettings;
use tabby::config::DEFAULT_PARALLELISM;
use tabby::config::DEFAULT_PORT;
use tabby::serve::load_model;
use tabby::serve::merge_args;
use tabby::serve::MergeWarning;
use tabby::serve::ServeArgs;

fn remote(endpoint: &str) -> ModelRoleConfig {
    ModelRoleConfig::Remote(RemoteModel {
        endpoint: endpoint.to_string(),
        auth: Some("token".to_string()),
        kind: "openai/completion".to_string(),
    })
}

fn local(path: &str) -> ModelRoleConfig {
    ModelRoleConfig::Local(LocalModel { path: path.to_string(), parallelism: 1, device: Device::Cpu })
}

fn base(completion: Option<ModelRoleConfig>) -> ServerConfig {
    ServerConfig {
        model: ModelSettings {
            completion,
            chat: Some(remote("https://chat.example")),
            embedding: Some(remote("https://embed.example")),
        },
        server: ServerSettings {
            host: HostAddress::V4(127, 0, 0, 1),
            port: 9090,
            completion_timeout: 30,
            allowed_repositories: vec!["https://git.example/a".to_string()],
        },
    }
}

fn args(model: Option<&str>) -> ServeArgs {
    ServeArgs {
        model: model.map(|m| m.to_string()),
        host: HostAddress::V4(0, 0, 0, 0),
        port: 8080,
        device: Device::Metal,
        parallelism: 4,
    }
}

#[test]
fn default_arguments_name_no_model() {
    let args = ServeArgs::default();
    assert_eq!(args.model, None);
    assert_eq!(args.host, HostAddress::V4(0, 0, 0, 0));
    assert_eq!(args.host, HostAddress::wildcard());
    assert_eq!(args.port, 8080);
    assert_eq!(DEFAULT_PORT, 8080);
    assert_eq!(args.device, Device::Cpu);
    assert_eq!(args.parallelism, 1);
    assert_eq!(DEFAULT_PARALLELISM, 1);
}

#[test]
fn local_entry_from_the_command_line() {
    let entry = to_local_config("TabbyML/StarCoder-1B", 2, Device::Cuda);
    assert_eq!(
        entry,
        ModelRoleConfig::Local(LocalModel {
            path: "TabbyML/StarCoder-1B".to_string(),
            parallelism: 2,
            device: Device::Cuda,
        })
    );
    assert!(entry.is_local());
    assert_eq!(entry.identifier(), "TabbyML/StarCoder-1B");
}

#[test]
fn remote_entry_is_listed_by_its_endpoint() {
    let entry = remote("https://a.example");
    assert!(!entry.is_local());
    assert_eq!(entry.identifier(), "https://a.example");
}

#[test]
fn override_replaces_configured_completion_and_warns_once() {
    let config = base(Some(remote("https://completion.example")));
    let merged = merge_args(&config, &args(Some("StarCoder-1B")));
    assert_eq!(
        merged.config.model.completion,
        Some(ModelRoleConfig::Local(LocalModel {
            path: "StarCoder-1B".to_string(),
            parallelism: 4,
            device: Device::Metal,
        }))
    );
    assert_eq!(merged.warnings, vec![MergeWarning::CompletionOverridden]);
    assert_eq!(merged.warnings.len(), 1);
}

#[test]
fn override_of_a_configured_local_completion_warns_too() {
    let config = base(Some(local("/models/old")));
    let merged = merge_args(&config, &args(Some("/models/new")));
    assert_eq!(
        merged.config.model.completion,
        Some(ModelRoleConfig::Local(LocalModel {
            path: "/models/new".to_string(),
            parallelism: 4,
            device: Device::Metal,
        }))
    );
    assert_eq!(merged.warnings, vec![MergeWarning::CompletionOverridden]);
}

#[test]
fn override_without_configured_completion_is_silent() {
    let config = base(None);
    let merged = merge_args(&config, &args(Some("StarCoder-1B")));
    assert_eq!(
        merged.config.model.completion,
        Some(to_local_config("StarCoder-1B", 4, Device::Metal))
    );
    assert!(merged.warnings.is_empty());
}

#[test]
fn merge_without_override_changes_nothing() {
    let config = base(Some(remote("https://completion.example")));
    let merged = merge_args(&config, &args(None));
    assert_eq!(merged.config, config);
    assert!(merged.warnings.is_empty());
}

#[test]
fn merge_passes_every_other_field_through() {
    let config = base(Some(remote("https://completion.example")));
    let merged = merge_args(&config, &args(Some("m")));
    assert_eq!(merged.config.model.chat, config.model.chat);
    assert_eq!(merged.config.model.embedding, config.model.embedding);
    assert_eq!(merged.config.server, config.server);
    assert_eq!(merged.config.server.host, HostAddress::V4(127, 0, 0, 1));
    assert_eq!(merged.config.server.port, 9090);
}

#[test]
fn merge_leaves_the_base_configuration_alone() {
    let config = base(Some(remote("https://completion.example")));
    let before = config.clone();
    let _ = merge_args(&config, &args(Some("m")));
    assert_eq!(config, before);
}

#[test]
fn clone_of_a_configuration_is_equal() {
    let config = base(Some(local("/models/a")));
    assert_eq!(config.clone(), config);
    let args = args(Some("m"));
    assert_eq!(args.clone(), args);
}

#[test]
fn probe_lists_local_completion_then_local_embedding() {
    let mut config = base(Some(local("/models/completion")));
    config.model.embedding = Some(local("/models/embedding"));
    config.model.chat = Some(local("/models/chat"));
    assert_eq!(
        load_model(&config),
        vec!["/models/completion".to_string(), "/models/embedding".to_string()]
    );
}

#[test]
fn probe_lists_nothing_for_remote_models() {
    let config = base(Some(remote("https://completion.example")));
    assert!(load_model(&config).is_empty());
}

#[test]
fn probe_lists_only_the_local_embedding() {
    let mut config = base(None);
    config.model.embedding = Some(local("/models/embedding"));
    assert_eq!(load_model(&config), vec!["/models/embedding".to_string()]);
}
