//! Starting the server: the command line merged into the configuration, the
//! local paths worth a look before anything is loaded, and the route table
//! that follows from the services that came up.

use vstd::prelude::*;

use crate::config::clone_text;
use crate::config::clone_texts;
use crate::config::entry_view;
use crate::config::text_view;
use crate::config::texts_view;
use crate::config::to_local_config;
use crate::config::Device;
use crate::config::HostAddress;
use crate::config::LocalModelView;
use crate::config::ModelRoleConfig;
use crate::config::ModelRoleView;
use crate::config::ModelSettings;
use crate::config::ModelSettingsView;
use crate::config::ServerConfig;
use crate::config::ServerConfigView;
use crate::config::ServerSettings;
use crate::config::ServerSettingsView;
use crate::config::DEFAULT_PARALLELISM;
use crate::config::DEFAULT_PORT;
use crate::routes::dispatch_endpoint;
use crate::routes::dispatch_request;
use crate::routes::endpoints;
use crate::routes::lemma_occurrences_from;
use crate::routes::lemma_parse_inverts_path;
use crate::routes::occurrences;
use crate::routes::position;
use crate::routes::position_from;
use crate::routes::unambiguous;
use crate::routes::Dispatch;
use crate::routes::Endpoint;
use crate::routes::Guard;
use crate::routes::GuardView;
use crate::routes::Handler;
use crate::routes::HandlerView;
use crate::routes::Method;
use crate::routes::ModelSnapshot;
use crate::routes::ModelSnapshotView;
use crate::routes::Route;
use crate::routes::RouteTable;
use crate::routes::RouteView;
use crate::routes::NOT_IMPLEMENTED;
use crate::services::ResolvedServices;
use crate::services::ResolvedServicesView;
use crate::trusted::not_implemented_status;

verus! {

/// What the command line says about serving.
#[derive(Debug, PartialEq, Eq)]
pub struct ServeArgs {
    /// The model for the completions endpoint, if one is named.
    pub model: Option<String>,
    pub host: HostAddress,
    pub port: u16,
    /// The device that a model named here runs on.
    pub device: Device,
    /// How many requests a model named here serves at once.
    pub parallelism: u8,
}

/// The command line, with the model as a sequence of characters.
pub struct ServeArgsView {
    pub model: Option<Seq<char>>,
    pub host: HostAddress,
    pub port: u16,
    pub device: Device,
    pub parallelism: u8,
}

impl View for ServeArgs {
    type V = ServeArgsView;

    open spec fn view(&self) -> ServeArgsView {
        ServeArgsView {
            model: text_view(self.model),
            host: self.host,
            port: self.port,
            device: self.device,
            parallelism: self.parallelism,
        }
    }
}

impl ServeArgsView {
    /// An empty command line: no model, every interface, the default port,
    /// the CPU, one request at a time.
    pub open spec fn defaults() -> ServeArgsView {
        ServeArgsView {
            model: None,
            host: HostAddress::spec_wildcard(),
            port: DEFAULT_PORT,
            device: Device::Cpu,
            parallelism: DEFAULT_PARALLELISM,
        }
    }
}

impl Default for ServeArgs {
    fn default() -> (args: ServeArgs)
        ensures
            args@ == ServeArgsView::defaults(),
    {
        ServeArgs {
            model: None,
            host: HostAddress::wildcard(),
            port: DEFAULT_PORT,
            device: Device::Cpu,
            parallelism: DEFAULT_PARALLELISM,
        }
    }
}

impl Clone for ServeArgs {
    fn clone(&self) -> (copy: Self)
        ensures
            copy@ == self@,
    {
        ServeArgs {
            model: clone_text(&self.model),
            host: self.host,
            port: self.port,
            device: self.device,
            parallelism: self.parallelism,
        }
    }
}

/// Something the operator should know about a merge. Nothing here stops it.
#[derive(Clone, Copy, Debug, PartialEq, Eq, Structural)]
pub enum MergeWarning {
    /// The command line names a completion model although the configuration
    /// has one already; the command line wins.
    CompletionOverridden,
}

/// A merged configuration and the warnings that the merge gave rise to.
#[derive(Debug, PartialEq, Eq)]
pub struct Merged {
    pub config: ServerConfig,
    pub warnings: Vec<MergeWarning>,
}

/// The completion entry that the command line asks for, if it names a model.
pub open spec fn cli_completion(args: ServeArgsView) -> Option<ModelRoleView> {
    match args.model {
        Some(model) => Some(
            ModelRoleView::Local(
                LocalModelView { path: model, parallelism: args.parallelism, device: args.device },
            ),
        ),
        None => None,
    }
}

/// The configuration after the command line was merged in: a model named
/// there replaces the completion entry, and nothing else changes.
pub open spec fn merged_config(config: ServerConfigView, args: ServeArgsView) -> ServerConfigView {
    if args.model is Some {
        ServerConfigView {
            model: ModelSettingsView { completion: cli_completion(args), ..config.model },
            ..config
        }
    } else {
        config
    }
}

/// Whether the command line and the configuration both name a completion
/// model.
pub open spec fn completion_conflict(config: ServerConfigView, args: ServeArgsView) -> bool {
    args.model is Some && config.model.completion is Some
}

/// The warnings of a merge: one if the two sources conflict, none otherwise.
pub open spec fn merge_warnings(config: ServerConfigView, args: ServeArgsView) -> Seq<MergeWarning> {
    if completion_conflict(config, args) {
        seq![MergeWarning::CompletionOverridden]
    } else {
        Seq::empty()
    }
}

/// Merges the command line into the configuration. The configuration handed
/// in is left as it was.
pub fn merge_args(config: &ServerConfig, args: &ServeArgs) -> (merged: Merged)
    ensures
        merged.config@ == merged_config(config@, args@),
        merged.warnings@ == merge_warnings(config@, args@),
{
    let mut merged_config = config.clone();
    let mut warnings: Vec<MergeWarning> = Vec::new();
    if let Some(model) = &args.model {
        if config.model.completion.is_some() {
            warnings.push(MergeWarning::CompletionOverridden);
        }
        merged_config.model.completion = Some(
            to_local_config(model.as_str(), args.parallelism, args.device),
        );
    }
    assert(warnings@ =~= merge_warnings(config@, args@));
    Merged { config: merged_config, warnings }
}

/// A model named on the command line becomes the completion entry, and
/// that entry is a local model, whatever the configuration held before.
pub proof fn lemma_override_wins(config: ServerConfigView, args: ServeArgsView)
    requires
        args.model is Some,
    ensures
        merged_config(config, args).model.completion == cli_completion(args),
        merged_config(config, args).model.completion matches Some(ModelRoleView::Local(_)),
        merged_config(config, args).model.has_local(),
        merged_config(config, args).model.chat == config.model.chat,
        merged_config(config, args).model.embedding == config.model.embedding,
        merged_config(config, args).server == config.server,
        merge_warnings(config, args).len() == (if config.model.completion is Some {
            1nat
        } else {
            0nat
        }),
{
}

/// The path of a local model, if the entry is one.
pub open spec fn local_path(entry: Option<ModelRoleView>) -> Seq<Seq<char>> {
    match entry {
        Some(ModelRoleView::Local(local)) => seq![local.path],
        _ => Seq::empty(),
    }
}

/// The local paths whose presence is worth reporting before the models are
/// loaded: that of the completion model, then that of the embedding model.
pub open spec fn paths_to_probe(model: ModelSettingsView) -> Seq<Seq<char>> {
    local_path(model.completion) + local_path(model.embedding)
}

/// The local paths whose presence is worth reporting before the models are
/// loaded. What is found there changes nothing about what happens next.
pub fn load_model(config: &ServerConfig) -> (paths: Vec<String>)
    ensures
        texts_view(paths@) == paths_to_probe(config@.model),
{
    let mut paths: Vec<String> = Vec::new();
    if let Some(ModelRoleConfig::Local(local)) = &config.model.completion {
        paths.push(local.path.clone());
    }
    if let Some(ModelRoleConfig::Local(local)) = &config.model.embedding {
        paths.push(local.path.clone());
    }
    assert(texts_view(paths@) =~= paths_to_probe(config@.model));
    paths
}

/// The identifier of an optional role entry.
pub open spec fn identifier_of(entry: Option<ModelRoleView>) -> Option<Seq<char>> {
    match entry {
        Some(model) => Some(model.identifier()),
        None => None,
    }
}

/// What the listing endpoint shows of a configuration: the identifier of
/// each configured role, and nothing for a role that is not configured.
pub open spec fn snapshot_of(model: ModelSettingsView) -> ModelSnapshotView {
    ModelSnapshotView {
        completion: identifier_of(model.completion),
        chat: identifier_of(model.chat),
        embedding: identifier_of(model.embedding),
    }
}

/// The guard in front of the model endpoints: the request timeout and the
/// allowed repositories of the configuration.
pub open spec fn guard_of(server: ServerSettingsView) -> GuardView {
    GuardView {
        timeout_secs: server.completion_timeout,
        allowed_repositories: server.allowed_repositories,
    }
}

/// Whether the chat endpoint is offered: chat shares the routes of
/// completion, so both backends have to be there.
pub open spec fn offers_chat(services: ResolvedServicesView) -> bool {
    services.completion is Some && services.chat is Some
}

/// The route of an endpoint, given the services that came up, or nothing
/// where the endpoint is not offered. Events, models and server settings
/// are always served. Completions are served by their backend behind the
/// guard, or answered with the fixed status. Chat is served behind the
/// guard where it is offered, and has no route otherwise.
pub open spec fn binding(
    endpoint: Endpoint,
    services: ResolvedServicesView,
    config: ServerConfigView,
) -> Option<RouteView> {
    match endpoint {
        Endpoint::Events => Some(
            RouteView { endpoint, handler: HandlerView::LogEvent, guard: None },
        ),
        Endpoint::Models => Some(
            RouteView {
                endpoint,
                handler: HandlerView::Models(snapshot_of(config.model)),
                guard: None,
            },
        ),
        Endpoint::Completions => match services.completion {
            Some(completion) => Some(
                RouteView {
                    endpoint,
                    handler: HandlerView::Completions(completion),
                    guard: Some(guard_of(config.server)),
                },
            ),
            None => Some(
                RouteView { endpoint, handler: HandlerView::Fixed(NOT_IMPLEMENTED), guard: None },
            ),
        },
        Endpoint::ChatCompletions => if offers_chat(services) {
            Some(
                RouteView {
                    endpoint,
                    handler: HandlerView::ChatCompletions(services.chat.unwrap()),
                    guard: Some(guard_of(config.server)),
                },
            )
        } else {
            None
        },
        Endpoint::ServerSetting => Some(
            RouteView { endpoint, handler: HandlerView::ServerSetting, guard: None },
        ),
    }
}

/// The route of an endpoint as a piece of the table: one route, or none.
pub open spec fn fragment(
    endpoint: Endpoint,
    services: ResolvedServicesView,
    config: ServerConfigView,
) -> Seq<RouteView> {
    match binding(endpoint, services, config) {
        Some(route) => seq![route],
        None => Seq::empty(),
    }
}

/// The route table that follows from the services that came up: events,
/// models, completions, chat where it is offered, and the server settings,
/// listed in this order.
pub open spec fn route_plan(services: ResolvedServicesView, config: ServerConfigView) -> Seq<
    RouteView,
> {
    fragment(Endpoint::Events, services, config) + fragment(Endpoint::Models, services, config)
        + fragment(Endpoint::Completions, services, config) + fragment(
        Endpoint::ChatCompletions,
        services,
        config,
    ) + fragment(Endpoint::ServerSetting, services, config)
}

/// The endpoints of the table, given which of the two model endpoints have
/// a backend.
pub open spec fn shape(completion: bool, chat: bool) -> Seq<Endpoint> {
    if completion && chat {
        seq![
            Endpoint::Events,
            Endpoint::Models,
            Endpoint::Completions,
            Endpoint::ChatCompletions,
            Endpoint::ServerSetting,
        ]
    } else {
        seq![Endpoint::Events, Endpoint::Models, Endpoint::Completions, Endpoint::ServerSetting]
    }
}

impl ModelSnapshot {
    /// What the listing endpoint shows of a configuration.
    pub fn of(model: &ModelSettings) -> (snapshot: ModelSnapshot)
        ensures
            snapshot@ == snapshot_of(model@),
    {
        ModelSnapshot {
            completion: identifier(&model.completion),
            chat: identifier(&model.chat),
            embedding: identifier(&model.embedding),
        }
    }
}

impl Guard {
    /// The guard in front of the model endpoints.
    pub fn of(server: &ServerSettings) -> (guard: Guard)
        ensures
            guard@ == guard_of(server@),
    {
        Guard {
            timeout_secs: server.completion_timeout,
            allowed_repositories: clone_texts(&server.allowed_repositories),
        }
    }
}

/// The identifier of an optional role entry.
fn identifier(entry: &Option<ModelRoleConfig>) -> (id: Option<String>)
    ensures
        text_view(id) == identifier_of(entry_view(*entry)),
{
    match entry {
        Some(model) => Some(model.identifier()),
        None => None,
    }
}

/// Builds the route table from the services that came up. Events, models
/// and server settings are always served. Completions are served by their
/// backend behind the guard of the configuration, or answered with the
/// fixed status where there is no backend. Chat is served, behind the same
/// guard, only where both backends are there.
pub fn api_router(config: &ServerConfig, services: &ResolvedServices) -> (table: RouteTable)
    ensures
        table@ == route_plan(services@, config@),
        unambiguous(table@),
{
    proof {
        reveal_with_fuel(position_from, 6);
    }
    let table = RouteTable::new();
    let table = table.insert(
        Route { endpoint: Endpoint::Events, handler: Handler::LogEvent, guard: None },
    );
    let table = table.insert(
        Route {
            endpoint: Endpoint::Models,
            handler: Handler::Models(ModelSnapshot::of(&config.model)),
            guard: None,
        },
    );
    let table = match services.completion {
        Some(completion) => {
            let table = table.insert(
                Route {
                    endpoint: Endpoint::Completions,
                    handler: Handler::Completions(completion),
                    guard: Some(Guard::of(&config.server)),
                },
            );
            match services.chat {
                Some(chat) => table.insert(
                    Route {
                        endpoint: Endpoint::ChatCompletions,
                        handler: Handler::ChatCompletions(chat),
                        guard: Some(Guard::of(&config.server)),
                    },
                ),
                None => table,
            }
        },
        None => table.insert(
            Route {
                endpoint: Endpoint::Completions,
                handler: Handler::Fixed(not_implemented_status()),
                guard: None,
            },
        ),
    };
    let table = table.insert(
        Route { endpoint: Endpoint::ServerSetting, handler: Handler::ServerSetting, guard: None },
    );
    assert(table@ =~= route_plan(services@, config@));
    table
}

/// The endpoints of the table depend on nothing but which of the two model
/// endpoints have a backend, and no endpoint is served by two routes.
pub proof fn lemma_route_plan_shape(services: ResolvedServicesView, config: ServerConfigView)
    ensures
        endpoints(route_plan(services, config)) == shape(
            services.completion is Some,
            services.chat is Some,
        ),
        unambiguous(route_plan(services, config)),
        forall|i: int|
            0 <= i < route_plan(services, config).len() ==> #[trigger] route_plan(
                services,
                config,
            )[i] == binding(route_plan(services, config)[i].endpoint, services, config).unwrap(),
{
    let plan = route_plan(services, config);
    assert(endpoints(plan) =~= shape(services.completion is Some, services.chat is Some));
}

/// The position of each endpoint in the table: events, models and
/// completions come first, the server settings last, and chat stands
/// between them where it is offered.
pub proof fn lemma_route_plan_positions(services: ResolvedServicesView, config: ServerConfigView)
    ensures
        position(route_plan(services, config), Endpoint::Events) == Some(0int),
        position(route_plan(services, config), Endpoint::Models) == Some(1int),
        position(route_plan(services, config), Endpoint::Completions) == Some(2int),
        position(route_plan(services, config), Endpoint::ChatCompletions) == (if offers_chat(
            services,
        ) {
            Some(3int)
        } else {
            None
        }),
        position(route_plan(services, config), Endpoint::ServerSetting) == Some(
            route_plan(services, config).len() - 1,
        ),
{
    let plan = route_plan(services, config);
    lemma_route_plan_shape(services, config);
    reveal_with_fuel(position_from, 6);
    assert(forall|i: int| 0 <= i < plan.len() ==> plan[i].endpoint == endpoints(plan)[i]);
}

/// Whatever came up, the table serves events, models, completions and the
/// server settings.
pub proof fn lemma_always_served(
    services: ResolvedServicesView,
    config: ServerConfigView,
    endpoint: Endpoint,
)
    requires
        endpoint != Endpoint::ChatCompletions,
    ensures
        occurrences(route_plan(services, config), endpoint) == 1,
        dispatch_endpoint(route_plan(services, config), endpoint) != Dispatch::NoRoute,
{
    lemma_route_plan_shape(services, config);
    lemma_route_plan_positions(services, config);
    lemma_occurrences_from(route_plan(services, config), endpoint, 0);
}

/// The table holds one chat route where both the completion and the chat
/// backend are there, and none otherwise; a request for chat is served by
/// the chat backend behind the guard, or finds no route.
pub proof fn lemma_chat_route(services: ResolvedServicesView, config: ServerConfigView)
    ensures
        occurrences(route_plan(services, config), Endpoint::ChatCompletions) == (if offers_chat(
            services,
        ) {
            1nat
        } else {
            0nat
        }),
        offers_chat(services) ==> {
            &&& dispatch_endpoint(route_plan(services, config), Endpoint::ChatCompletions)
                == Dispatch::Serve(3)
            &&& route_plan(services, config)[3] == binding(
                Endpoint::ChatCompletions,
                services,
                config,
            ).unwrap()
        },
        !offers_chat(services) ==> dispatch_endpoint(
            route_plan(services, config),
            Endpoint::ChatCompletions,
        ) == Dispatch::NoRoute,
{
    lemma_route_plan_shape(services, config);
    lemma_route_plan_positions(services, config);
    lemma_occurrences_from(route_plan(services, config), Endpoint::ChatCompletions, 0);
}

/// A request to the completions path is served by the completion backend
/// behind the guard where there is one, and is answered with the fixed
/// status where there is none. It never finds no route.
pub proof fn lemma_completions_route(services: ResolvedServicesView, config: ServerConfigView)
    ensures
        dispatch_request(route_plan(services, config), Method::Post, "/v1/completions"@) == (
        if services.completion is Some {
            Dispatch::Serve(2)
        } else {
            Dispatch::Status(NOT_IMPLEMENTED)
        }),
        route_plan(services, config)[2] == binding(
            Endpoint::Completions,
            services,
            config,
        ).unwrap(),
{
    lemma_route_plan_shape(services, config);
    lemma_route_plan_positions(services, config);
    lemma_parse_inverts_path(Endpoint::Completions, Method::Post, "/v1/completions"@);
}

/// Building twice from the same services and configuration gives the same
/// table: the same endpoints in the same order, each with the same handler
/// and guard, and the same answer to every request.
pub proof fn lemma_build_is_repeatable(
    first: Seq<RouteView>,
    second: Seq<RouteView>,
    services: ResolvedServicesView,
    config: ServerConfigView,
)
    requires
        first == route_plan(services, config),
        second == route_plan(services, config),
    ensures
        first == second,
        endpoints(first) == endpoints(second),
        forall|method: Method, path: Seq<char>|
            dispatch_request(first, method, path) == dispatch_request(second, method, path),
{
}

} // verus!
