//! The configuration values that the server is composed from.
//!
//! A configuration is an immutable value: overriding a field produces a new
//! value and leaves the one it was derived from as it was. Every type here has
//! a view in which strings are sequences of characters, and the contracts of
//! the library speak of those views.

use vstd::prelude::*;

verus! {

/// A named slot that a model backend fills.
#[derive(Clone, Copy, Debug, PartialEq, Eq, Structural)]
pub enum Role {
    Completion,
    Chat,
    Embedding,
}

/// Where a locally run model would execute.
#[derive(Clone, Copy, Debug, PartialEq, Eq, Structural)]
pub enum Device {
    Cpu,
    Cuda,
    Rocm,
    Metal,
    Vulkan,
}

/// The address the server binds to.
#[derive(Clone, Copy, Debug, PartialEq, Eq, Structural)]
pub enum HostAddress {
    V4(u8, u8, u8, u8),
    V6(u16, u16, u16, u16, u16, u16, u16, u16),
}

/// The port the server listens on unless told otherwise.
pub const DEFAULT_PORT: u16 = 8080;

/// The number of requests a local model serves at once unless told otherwise.
pub const DEFAULT_PARALLELISM: u8 = 1;

impl HostAddress {
    /// The address that accepts connections on every interface.
    pub open spec fn spec_wildcard() -> HostAddress {
        HostAddress::V4(0, 0, 0, 0)
    }

    #[verifier::when_used_as_spec(spec_wildcard)]
    pub fn wildcard() -> (host: HostAddress)
        ensures
            host == Self::spec_wildcard(),
    {
        HostAddress::V4(0, 0, 0, 0)
    }
}

/// A model that would run inside this process.
#[derive(Debug, PartialEq, Eq)]
pub struct LocalModel {
    pub path: String,
    pub parallelism: u8,
    pub device: Device,
}

/// A model reached over HTTP.
#[derive(Debug, PartialEq, Eq)]
pub struct RemoteModel {
    pub endpoint: String,
    pub auth: Option<String>,
    pub kind: String,
}

/// How the backend of one role is obtained.
#[derive(Debug, PartialEq, Eq)]
pub enum ModelRoleConfig {
    Local(LocalModel),
    Remote(RemoteModel),
}

/// The model configured for each role, if any.
#[derive(Debug, PartialEq, Eq)]
pub struct ModelSettings {
    pub completion: Option<ModelRoleConfig>,
    pub chat: Option<ModelRoleConfig>,
    pub embedding: Option<ModelRoleConfig>,
}

/// Settings of the server itself.
#[derive(Debug, PartialEq, Eq)]
pub struct ServerSettings {
    pub host: HostAddress,
    pub port: u16,
    /// Seconds after which a completion request is abandoned.
    pub completion_timeout: u64,
    pub allowed_repositories: Vec<String>,
}

/// Everything the server is composed from.
#[derive(Debug, PartialEq, Eq)]
pub struct ServerConfig {
    pub model: ModelSettings,
    pub server: ServerSettings,
}

/// A local model, with its path as a sequence of characters.
pub struct LocalModelView {
    pub path: Seq<char>,
    pub parallelism: u8,
    pub device: Device,
}

/// A remote model, with its strings as sequences of characters.
pub struct RemoteModelView {
    pub endpoint: Seq<char>,
    pub auth: Option<Seq<char>>,
    pub kind: Seq<char>,
}

/// The entry of a role, with its strings as sequences of characters.
pub enum ModelRoleView {
    Local(LocalModelView),
    Remote(RemoteModelView),
}

/// The entries of the three roles, as views.
pub struct ModelSettingsView {
    pub completion: Option<ModelRoleView>,
    pub chat: Option<ModelRoleView>,
    pub embedding: Option<ModelRoleView>,
}

/// The settings of the server, with the repositories as sequences of
/// characters.
pub struct ServerSettingsView {
    pub host: HostAddress,
    pub port: u16,
    pub completion_timeout: u64,
    pub allowed_repositories: Seq<Seq<char>>,
}

/// A configuration, as the contracts of the library speak of it.
pub struct ServerConfigView {
    pub model: ModelSettingsView,
    pub server: ServerSettingsView,
}

/// The characters of an optional string.
pub open spec fn text_view(text: Option<String>) -> Option<Seq<char>> {
    match text {
        Some(s) => Some(s@),
        None => None,
    }
}

/// The characters of each string of a list, in order.
pub open spec fn texts_view(texts: Seq<String>) -> Seq<Seq<char>> {
    Seq::new(texts.len(), |i: int| texts[i]@)
}

/// The view of an optional role entry.
pub open spec fn entry_view(entry: Option<ModelRoleConfig>) -> Option<ModelRoleView> {
    match entry {
        Some(c) => Some(c@),
        None => None,
    }
}

impl View for LocalModel {
    type V = LocalModelView;

    open spec fn view(&self) -> LocalModelView {
        LocalModelView { path: self.path@, parallelism: self.parallelism, device: self.device }
    }
}

impl View for RemoteModel {
    type V = RemoteModelView;

    open spec fn view(&self) -> RemoteModelView {
        RemoteModelView {
            endpoint: self.endpoint@,
            auth: text_view(self.auth),
            kind: self.kind@,
        }
    }
}

impl View for ModelRoleConfig {
    type V = ModelRoleView;

    open spec fn view(&self) -> ModelRoleView {
        match self {
            ModelRoleConfig::Local(local) => ModelRoleView::Local(local@),
            ModelRoleConfig::Remote(remote) => ModelRoleView::Remote(remote@),
        }
    }
}

impl View for ModelSettings {
    type V = ModelSettingsView;

    open spec fn view(&self) -> ModelSettingsView {
        ModelSettingsView {
            completion: entry_view(self.completion),
            chat: entry_view(self.chat),
            embedding: entry_view(self.embedding),
        }
    }
}

impl View for ServerSettings {
    type V = ServerSettingsView;

    open spec fn view(&self) -> ServerSettingsView {
        ServerSettingsView {
            host: self.host,
            port: self.port,
            completion_timeout: self.completion_timeout,
            allowed_repositories: texts_view(self.allowed_repositories@),
        }
    }
}

impl View for ServerConfig {
    type V = ServerConfigView;

    open spec fn view(&self) -> ServerConfigView {
        ServerConfigView { model: self.model@, server: self.server@ }
    }
}

impl ModelRoleView {
    /// The string by which the model is listed: the path of a local model,
    /// the endpoint of a remote one. Credentials are never part of it.
    pub open spec fn identifier(self) -> Seq<char> {
        match self {
            ModelRoleView::Local(local) => local.path,
            ModelRoleView::Remote(remote) => remote.endpoint,
        }
    }
}

impl ModelSettingsView {
    /// The entry configured for `role`.
    pub open spec fn entry(self, role: Role) -> Option<ModelRoleView> {
        match role {
            Role::Completion => self.completion,
            Role::Chat => self.chat,
            Role::Embedding => self.embedding,
        }
    }

    /// Whether any role is configured with a local model.
    pub open spec fn has_local(self) -> bool {
        ||| self.completion matches Some(ModelRoleView::Local(_))
        ||| self.chat matches Some(ModelRoleView::Local(_))
        ||| self.embedding matches Some(ModelRoleView::Local(_))
    }
}

/// A copy of an optional string.
pub fn clone_text(text: &Option<String>) -> (copy: Option<String>)
    ensures
        text_view(copy) == text_view(*text),
{
    match text {
        Some(s) => Some(s.clone()),
        None => None,
    }
}

/// A copy of a list of strings.
pub fn clone_texts(texts: &Vec<String>) -> (copy: Vec<String>)
    ensures
        texts_view(copy@) == texts_view(texts@),
{
    let mut copy: Vec<String> = Vec::new();
    let mut i: usize = 0;
    while i < texts.len()
        invariant
            i <= texts.len(),
            copy.len() == i,
            forall|k: int| 0 <= k < i ==> copy[k]@ == texts[k]@,
        decreases texts.len() - i,
    {
        copy.push(texts[i].clone());
        i = i + 1;
    }
    assert(texts_view(copy@) =~= texts_view(texts@));
    copy
}

impl Clone for LocalModel {
    fn clone(&self) -> (copy: Self)
        ensures
            copy@ == self@,
    {
        LocalModel {
            path: self.path.clone(),
            parallelism: self.parallelism,
            device: self.device,
        }
    }
}

impl Clone for RemoteModel {
    fn clone(&self) -> (copy: Self)
        ensures
            copy@ == self@,
    {
        RemoteModel {
            endpoint: self.endpoint.clone(),
            auth: clone_text(&self.auth),
            kind: self.kind.clone(),
        }
    }
}

impl Clone for ModelRoleConfig {
    fn clone(&self) -> (copy: Self)
        ensures
            copy@ == self@,
    {
        match self {
            ModelRoleConfig::Local(local) => ModelRoleConfig::Local(local.clone()),
            ModelRoleConfig::Remote(remote) => ModelRoleConfig::Remote(remote.clone()),
        }
    }
}

/// A copy of an optional role entry.
pub fn clone_entry(entry: &Option<ModelRoleConfig>) -> (copy: Option<ModelRoleConfig>)
    ensures
        entry_view(copy) == entry_view(*entry),
{
    match entry {
        Some(c) => Some(c.clone()),
        None => None,
    }
}

impl Clone for ModelSettings {
    fn clone(&self) -> (copy: Self)
        ensures
            copy@ == self@,
    {
        ModelSettings {
            completion: clone_entry(&self.completion),
            chat: clone_entry(&self.chat),
            embedding: clone_entry(&self.embedding),
        }
    }
}

impl Clone for ServerSettings {
    fn clone(&self) -> (copy: Self)
        ensures
            copy@ == self@,
    {
        ServerSettings {
            host: self.host,
            port: self.port,
            completion_timeout: self.completion_timeout,
            allowed_repositories: clone_texts(&self.allowed_repositories),
        }
    }
}

impl Clone for ServerConfig {
    fn clone(&self) -> (copy: Self)
        ensures
            copy@ == self@,
    {
        ServerConfig { model: self.model.clone(), server: self.server.clone() }
    }
}

impl ModelRoleConfig {
    /// The string by which the model is listed.
    pub fn identifier(&self) -> (id: String)
        ensures
            id@ == self@.identifier(),
    {
        match self {
            ModelRoleConfig::Local(local) => local.path.clone(),
            ModelRoleConfig::Remote(remote) => remote.endpoint.clone(),
        }
    }

    /// Whether the model would run inside this process.
    pub fn is_local(&self) -> (local: bool)
        ensures
            local == (self@ is Local),
    {
        match self {
            ModelRoleConfig::Local(_) => true,
            ModelRoleConfig::Remote(_) => false,
        }
    }
}

/// The entry for a model named on the command line: a local model with the
/// given name as its path.
pub fn to_local_config(model: &str, parallelism: u8, device: Device) -> (entry: ModelRoleConfig)
    ensures
        entry@ == ModelRoleView::Local(
            LocalModelView { path: model@, parallelism: parallelism, device: device },
        ),
{
    ModelRoleConfig::Local(LocalModel { path: model.to_owned(), parallelism, device })
}

} // verus!
