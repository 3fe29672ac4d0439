use tabby::config::Device;
use tabby::config::LocalModel;
use tabby::config::ModelRoleConfig;
use tabby::config::RemoteModel;
use tabby::config::Role;
use tabby::download::report;
use tabby::download::DownloadArgs;
use tabby::services::clone_prompt;
use tabby::services::model::clone_remote;
use tabby::services::model::download_model_if_needed;
use tabby::services::model::load_code_generation_and_chat;
use tabby::services::model::load_completion_and_chat;
use tabby::services::model::load_embedding;
use tabby::services::model::resolve;
use tabby::services::model::BackendPlan;
use tabby::services::model::Diagnostic;
use tabby::services::model::GenerationPlan;
use tabby::services::model::Level;
use tabby::services::model::PromptInfo;
use tabby::services::model::ResolveError;
use tabby::services::Handle;
use tabby::services::ResolvedServices;

fn remote_model(endpoint: &str) -> RemoteModel {
    RemoteModel {
        endpoint: endpoint.to_string(),
        auth: Some("key".to_string()),
        kind: "llama.cpp/completion".to_string(),
    }
}

fn remote(endpoint: &str) -> ModelRoleConfig {
    ModelRoleConfig::Remote(remote_model(endpoint))
}

fn local(path: &str) -> ModelRoleConfig {
    ModelRoleConfig::Local(LocalModel { path: path.to_string(), parallelism: 1, device: Device::Cpu })
}

#[test]
fn resolve_passes_over_a_role_without_configuration() {
    for role in [Role::Completion, Role::Chat, Role::Embedding] {
        assert_eq!(resolve(role, &None), Ok(None));
    }
}

#[test]
fn resolve_gives_the_remote_model() {
    for role in [Role::Completion, Role::Chat, Role::Embedding] {
        assert_eq!(resolve(role, &Some(remote("A"))), Ok(Some(remote_model("A"))));
    }
}

#[test]
fn resolve_refuses_a_local_model_on_every_role() {
    for role in [Role::Completion, Role::Chat, Role::Embedding] {
        assert_eq!(resolve(role, &Some(local("/m"))), Err(ResolveError::UnsupportedLocal(role)));
    }
}

#[test]
fn embedding_from_a_remote_model() {
    assert_eq!(load_embedding(&remote("B")), Ok(remote_model("B")));
}

#[test]
fn embedding_from_a_local_model_is_refused() {
    assert_eq!(
        load_embedding(&local("/models/embedding")),
        Err(ResolveError::UnsupportedLocal(Role::Embedding))
    );
}

#[test]
fn completion_and_chat_both_remote() {
    assert_eq!(
        load_completion_and_chat(Some(remote("A")), Some(remote("H"))),
        Ok(BackendPlan { completion: Some(remote_model("A")), chat: Some(remote_model("H")) })
    );
}

#[test]
fn completion_and_chat_both_absent() {
    assert_eq!(
        load_completion_and_chat(None, None),
        Ok(BackendPlan { completion: None, chat: None })
    );
}

#[test]
fn completion_without_chat_and_chat_without_completion() {
    assert_eq!(
        load_completion_and_chat(Some(remote("A")), None),
        Ok(BackendPlan { completion: Some(remote_model("A")), chat: None })
    );
    assert_eq!(
        load_completion_and_chat(None, Some(remote("H"))),
        Ok(BackendPlan { completion: None, chat: Some(remote_model("H")) })
    );
}

#[test]
fn local_completion_is_refused_first() {
    assert_eq!(
        load_completion_and_chat(Some(local("/c")), Some(local("/h"))),
        Err(ResolveError::UnsupportedLocal(Role::Completion))
    );
    assert_eq!(
        load_completion_and_chat(Some(local("/c")), None),
        Err(ResolveError::UnsupportedLocal(Role::Completion))
    );
}

#[test]
fn local_chat_is_refused() {
    assert_eq!(
        load_completion_and_chat(Some(remote("A")), Some(local("/h"))),
        Err(ResolveError::UnsupportedLocal(Role::Chat))
    );
    assert_eq!(
        load_completion_and_chat(None, Some(local("/h"))),
        Err(ResolveError::UnsupportedLocal(Role::Chat))
    );
}

#[test]
fn code_generation_follows_the_completion_model() {
    assert_eq!(
        load_code_generation_and_chat(Some(remote("A")), Some(remote("H"))),
        Ok(GenerationPlan {
            code: Some(remote_model("A")),
            completion: Some(remote_model("A")),
            chat: Some(remote_model("H")),
        })
    );
    assert_eq!(
        load_code_generation_and_chat(None, Some(remote("H"))),
        Ok(GenerationPlan { code: None, completion: None, chat: Some(remote_model("H")) })
    );
}

#[test]
fn code_generation_refuses_local_models() {
    assert_eq!(
        load_code_generation_and_chat(Some(local("/c")), None),
        Err(ResolveError::UnsupportedLocal(Role::Completion))
    );
    assert_eq!(
        load_code_generation_and_chat(None, Some(local("/h"))),
        Err(ResolveError::UnsupportedLocal(Role::Chat))
    );
}

#[test]
fn model_found_at_local_path() {
    assert_eq!(
        download_model_if_needed("/models/a", true),
        Diagnostic {
            level: Level::Info,
            message: "Loading model from local path /models/a".to_string(),
        }
    );
}

#[test]
fn model_missing_at_local_path() {
    assert_eq!(
        download_model_if_needed("/models/a", false),
        Diagnostic {
            level: Level::Warn,
            message: "Model not found at local path: /models/a".to_string(),
        }
    );
}

#[test]
fn presence_check_reports_what_was_found() {
    let args = DownloadArgs { model: "/models/b".to_string() };
    assert_eq!(
        report(&args, true),
        Diagnostic { level: Level::Info, message: "Model exists at local path: /models/b".to_string() }
    );
    assert_eq!(
        report(&args, false),
        Diagnostic {
            level: Level::Warn,
            message: "Model not found at local path: /models/b".to_string(),
        }
    );
}

#[test]
fn copies_are_equal_to_what_they_copy() {
    let prompt = PromptInfo {
        prompt_template: Some("{prefix}".to_string()),
        chat_template: Some("{chat}".to_string()),
    };
    assert_eq!(prompt.clone(), prompt);
    assert_eq!(clone_prompt(&None), None);
    let services = ResolvedServices {
        embedding: Some(Handle { id: 1 }),
        search: None,
        completion: Some(Handle { id: 2 }),
        chat: None,
        prompt: Some(prompt),
    };
    assert_eq!(services.clone(), services);
    assert_eq!(clone_remote(&Some(remote_model("A"))), Some(remote_model("A")));
    assert_eq!(clone_remote(&None), None);
}
