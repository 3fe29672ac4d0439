//! Turning the configuration entry of a role into the backend to connect to.

use vstd::prelude::*;

use crate::config::clone_text;
use crate::config::entry_view;
use crate::config::text_view;
use crate::config::ModelRoleConfig;
use crate::config::ModelRoleView;
use crate::config::RemoteModel;
use crate::config::RemoteModelView;
use crate::config::Role;

verus! {

/// The templates that a completion backend reports.
#[derive(Debug, PartialEq, Eq)]
pub struct PromptInfo {
    pub prompt_template: Option<String>,
    pub chat_template: Option<String>,
}

/// The templates, as sequences of characters.
pub struct PromptInfoView {
    pub prompt_template: Option<Seq<char>>,
    pub chat_template: Option<Seq<char>>,
}

impl View for PromptInfo {
    type V = PromptInfoView;

    open spec fn view(&self) -> PromptInfoView {
        PromptInfoView {
            prompt_template: text_view(self.prompt_template),
            chat_template: text_view(self.chat_template),
        }
    }
}

impl Clone for PromptInfo {
    fn clone(&self) -> (copy: Self)
        ensures
            copy@ == self@,
    {
        PromptInfo {
            prompt_template: clone_text(&self.prompt_template),
            chat_template: clone_text(&self.chat_template),
        }
    }
}

/// Why a role has no backend although one was asked for.
#[derive(Clone, Copy, Debug, PartialEq, Eq, Structural)]
pub enum ResolveError {
    /// The role is configured with a local model, which no role supports.
    UnsupportedLocal(Role),
    /// The backend of the role could not be reached.
    BackendFailed(Role),
}

/// What resolving the entry of a role comes to: nothing to do for a role
/// that is not configured, the remote model to connect to, or the refusal
/// of a local model.
pub open spec fn resolution(role: Role, entry: Option<ModelRoleView>) -> Result<
    Option<RemoteModelView>,
    ResolveError,
> {
    match entry {
        None => Ok(None),
        Some(ModelRoleView::Remote(remote)) => Ok(Some(remote)),
        Some(ModelRoleView::Local(_)) => Err(ResolveError::UnsupportedLocal(role)),
    }
}

/// The view of an optional remote model.
pub open spec fn remote_view(remote: Option<RemoteModel>) -> Option<RemoteModelView> {
    match remote {
        Some(r) => Some(r@),
        None => None,
    }
}

/// The view of the outcome of resolving one role.
pub open spec fn resolved_view(outcome: Result<Option<RemoteModel>, ResolveError>) -> Result<
    Option<RemoteModelView>,
    ResolveError,
> {
    match outcome {
        Ok(remote) => Ok(remote_view(remote)),
        Err(e) => Err(e),
    }
}

/// Resolves the entry of a role to the remote model to connect to. A role
/// that is not configured needs nothing; a local model is refused.
pub fn resolve(role: Role, entry: &Option<ModelRoleConfig>) -> (outcome: Result<
    Option<RemoteModel>,
    ResolveError,
>)
    ensures
        resolved_view(outcome) == resolution(role, entry_view(*entry)),
{
    match entry {
        None => Ok(None),
        Some(ModelRoleConfig::Remote(remote)) => Ok(Some(remote.clone())),
        Some(ModelRoleConfig::Local(_)) => Err(ResolveError::UnsupportedLocal(role)),
    }
}

/// The embedding model to connect to. A local model is refused.
pub fn load_embedding(config: &ModelRoleConfig) -> (outcome: Result<RemoteModel, ResolveError>)
    ensures
        match config@ {
            ModelRoleView::Remote(remote) => outcome is Ok && outcome.unwrap()@ == remote,
            ModelRoleView::Local(_) => outcome == Err::<RemoteModel, ResolveError>(
                ResolveError::UnsupportedLocal(Role::Embedding),
            ),
        },
{
    match config {
        ModelRoleConfig::Remote(remote) => Ok(remote.clone()),
        ModelRoleConfig::Local(_) => Err(ResolveError::UnsupportedLocal(Role::Embedding)),
    }
}

/// The backends to connect to for completion and chat.
#[derive(Debug, PartialEq, Eq)]
pub struct BackendPlan {
    pub completion: Option<RemoteModel>,
    pub chat: Option<RemoteModel>,
}

/// A plan for completion and chat, as a view.
pub struct BackendPlanView {
    pub completion: Option<RemoteModelView>,
    pub chat: Option<RemoteModelView>,
}

impl View for BackendPlan {
    type V = BackendPlanView;

    open spec fn view(&self) -> BackendPlanView {
        BackendPlanView {
            completion: remote_view(self.completion),
            chat: remote_view(self.chat),
        }
    }
}

/// The view of the outcome of planning the two backends.
pub open spec fn plan_view(outcome: Result<BackendPlan, ResolveError>) -> Result<
    BackendPlanView,
    ResolveError,
> {
    match outcome {
        Ok(plan) => Ok(plan@),
        Err(e) => Err(e),
    }
}

/// The backends for completion and chat: each role is resolved on its own,
/// completion first, and the first refusal is the outcome.
pub open spec fn completion_and_chat(
    completion: Option<ModelRoleView>,
    chat: Option<ModelRoleView>,
) -> Result<BackendPlanView, ResolveError> {
    match resolution(Role::Completion, completion) {
        Err(e) => Err(e),
        Ok(completion_remote) => match resolution(Role::Chat, chat) {
            Err(e) => Err(e),
            Ok(chat_remote) => Ok(
                BackendPlanView { completion: completion_remote, chat: chat_remote },
            ),
        },
    }
}

/// The backends to connect to for completion and chat. A role that is not
/// configured gets none, and that is no failure; a local model on either
/// role is refused, whatever the other role holds.
pub fn load_completion_and_chat(
    completion_model: Option<ModelRoleConfig>,
    chat_model: Option<ModelRoleConfig>,
) -> (outcome: Result<BackendPlan, ResolveError>)
    ensures
        plan_view(outcome) == completion_and_chat(
            entry_view(completion_model),
            entry_view(chat_model),
        ),
{
    let completion = match resolve(Role::Completion, &completion_model) {
        Ok(remote) => remote,
        Err(e) => {
            return Err(e);
        },
    };
    let chat = match resolve(Role::Chat, &chat_model) {
        Ok(remote) => remote,
        Err(e) => {
            return Err(e);
        },
    };
    Ok(BackendPlan { completion, chat })
}

/// The backends to connect to for completion and chat, and the model that
/// code generation is set up with.
#[derive(Debug, PartialEq, Eq)]
pub struct GenerationPlan {
    /// The model behind code generation, which exists where the completion
    /// backend does.
    pub code: Option<RemoteModel>,
    pub completion: Option<RemoteModel>,
    pub chat: Option<RemoteModel>,
}

/// A plan for code generation and chat, as a view.
pub struct GenerationPlanView {
    pub code: Option<RemoteModelView>,
    pub completion: Option<RemoteModelView>,
    pub chat: Option<RemoteModelView>,
}

impl View for GenerationPlan {
    type V = GenerationPlanView;

    open spec fn view(&self) -> GenerationPlanView {
        GenerationPlanView {
            code: remote_view(self.code),
            completion: remote_view(self.completion),
            chat: remote_view(self.chat),
        }
    }
}

/// The view of the outcome of planning code generation.
pub open spec fn generation_view(outcome: Result<GenerationPlan, ResolveError>) -> Result<
    GenerationPlanView,
    ResolveError,
> {
    match outcome {
        Ok(plan) => Ok(plan@),
        Err(e) => Err(e),
    }
}

/// The plan for code generation and chat: that for completion and chat,
/// with code generation on the completion model.
pub open spec fn code_generation_and_chat(
    completion: Option<ModelRoleView>,
    chat: Option<ModelRoleView>,
) -> Result<GenerationPlanView, ResolveError> {
    match completion_and_chat(completion, chat) {
        Err(e) => Err(e),
        Ok(plan) => Ok(
            GenerationPlanView {
                code: plan.completion,
                completion: plan.completion,
                chat: plan.chat,
            },
        ),
    }
}

/// A copy of an optional remote model.
pub fn clone_remote(remote: &Option<RemoteModel>) -> (copy: Option<RemoteModel>)
    ensures
        remote_view(copy) == remote_view(*remote),
{
    match remote {
        Some(r) => Some(r.clone()),
        None => None,
    }
}

/// The backends to connect to for completion and chat, and the model that
/// code generation is set up with: the completion model, where there is a
/// completion backend, and none otherwise.
pub fn load_code_generation_and_chat(
    completion_model: Option<ModelRoleConfig>,
    chat_model: Option<ModelRoleConfig>,
) -> (outcome: Result<GenerationPlan, ResolveError>)
    ensures
        generation_view(outcome) == code_generation_and_chat(
            entry_view(completion_model),
            entry_view(chat_model),
        ),
{
    match load_completion_and_chat(completion_model, chat_model) {
        Err(e) => Err(e),
        Ok(plan) => {
            let code = clone_remote(&plan.completion);
            Ok(GenerationPlan { code, completion: plan.completion, chat: plan.chat })
        },
    }
}

/// How much a diagnostic matters.
#[derive(Clone, Copy, Debug, PartialEq, Eq, Structural)]
pub enum Level {
    Info,
    Warn,
}

/// A line for the operator. It never changes what the server does.
#[derive(Debug, PartialEq, Eq)]
pub struct Diagnostic {
    pub level: Level,
    pub message: String,
}

/// The line that reports whether a model was found at a local path.
pub open spec fn path_report(model: Seq<char>, found: bool) -> (Level, Seq<char>) {
    if found {
        (Level::Info, "Loading model from local path "@ + model)
    } else {
        (Level::Warn, "Model not found at local path: "@ + model)
    }
}

/// Reports whether a model was found at a local path, given what a look at
/// the path showed. Nothing is fetched either way.
pub fn download_model_if_needed(model: &str, found: bool) -> (report: Diagnostic)
    ensures
        (report.level, report.message@) == path_report(model@, found),
{
    if found {
        let mut message = "Loading model from local path ".to_owned();
        message.append(model);
        Diagnostic { level: Level::Info, message }
    } else {
        let mut message = "Model not found at local path: ".to_owned();
        message.append(model);
        Diagnostic { level: Level::Warn, message }
    }
}

} // verus!
