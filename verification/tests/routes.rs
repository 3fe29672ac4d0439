use tabby::config::Device;
use tabby::config::HostAddress;
use tabby::config::LocalModel;
use tabby::config::ModelRoleConfig;
use tabby::config::ModelSettings;
use tabby::config::RemoteModel;
use tabby::config::ServerConfig;
use tabby::config::ServerSettings;
use tabby::routes::Dispatch;
use tabby::routes::Endpoint;
use tabby::routes::Guard;
use tabby::routes::Handler;
use tabby::routes::Method;
use tabby::routes::ModelSnapshot;
use tabby::routes::Route;
use tabby::routes::RouteTable;
use tabby::routes::NOT_IMPLEMENTED;
use tabby::serve::api_router;
use tabby::services::Handle;
use tabby::services::ResolvedServices;

fn remote(endpoint: &str) -> ModelRoleConfig {
    ModelRoleConfig::Remote(RemoteModel {
        endpoint: endpoint.to_string(),
        auth: Some("secret".to_string()),
        kind: "openai/completion".to_string(),
    })
}

fn config(
    completion: Option<ModelRoleConfig>,
    chat: Option<ModelRoleConfig>,
    embedding: Option<ModelRoleConfig>,
) -> ServerConfig {
    ServerConfig {
        model: ModelSettings { completion, chat, embedding },
        server: ServerSettings {
            host: HostAddress::V4(0, 0, 0, 0),
            port: 8080,
            completion_timeout: 45,
            allowed_repositories: vec!["repo-a".to_string(), "repo-b".to_string()],
        },
    }
}

fn services(completion: Option<u64>, chat: Option<u64>) -> ResolvedServices {
    ResolvedServices {
        embedding: Some(Handle { id: 1 }),
        search: Some(Handle { id: 2 }),
        completion: completion.map(|id| Handle { id }),
        chat: chat.map(|id| Handle { id }),
        prompt: None,
    }
}

fn guard() -> Guard {
    Guard {
        timeout_secs: 45,
        allowed_repositories: vec!["repo-a".to_string(), "repo-b".to_string()],
    }
}

fn listing(table: &RouteTable) -> Vec<(Method, String)> {
    table
        .routes()
        .iter()
        .map(|route| (route.endpoint.method(), route.endpoint.path().to_string()))
        .collect()
}

#[test]
fn endpoint_paths_and_methods() {
    assert_eq!(Endpoint::Events.path(), "/v1/events");
    assert_eq!(Endpoint::Events.method(), Method::Post);
    assert_eq!(Endpoint::Models.path(), "/v1/models");
    assert_eq!(Endpoint::Models.method(), Method::Get);
    assert_eq!(Endpoint::Completions.path(), "/v1/completions");
    assert_eq!(Endpoint::Completions.method(), Method::Post);
    assert_eq!(Endpoint::ChatCompletions.path(), "/v1/chat/completions");
    assert_eq!(Endpoint::ChatCompletions.method(), Method::Post);
    assert_eq!(Endpoint::ServerSetting.path(), "/v1beta/server_setting");
    assert_eq!(Endpoint::ServerSetting.method(), Method::Get);
}

#[test]
fn parse_finds_each_endpoint_by_its_own_method_and_path() {
    let all = [
        Endpoint::Events,
        Endpoint::Models,
        Endpoint::Completions,
        Endpoint::ChatCompletions,
        Endpoint::ServerSetting,
    ];
    for endpoint in all {
        assert_eq!(Endpoint::parse(endpoint.method(), endpoint.path()), Some(endpoint));
    }
}

#[test]
fn parse_rejects_unknown_paths_and_wrong_methods() {
    assert_eq!(Endpoint::parse(Method::Post, "/v1/unknown"), None);
    assert_eq!(Endpoint::parse(Method::Post, ""), None);
    assert_eq!(Endpoint::parse(Method::Post, "/v1/completions/"), None);
    assert_eq!(Endpoint::parse(Method::Post, "/V1/completions"), None);
    assert_eq!(Endpoint::parse(Method::Get, "/v1/completions"), None);
    assert_eq!(Endpoint::parse(Method::Get, "/v1/events"), None);
    assert_eq!(Endpoint::parse(Method::Post, "/v1/models"), None);
    assert_eq!(Endpoint::parse(Method::Post, "/v1beta/server_setting"), None);
}

#[test]
fn not_implemented_is_501() {
    assert_eq!(NOT_IMPLEMENTED, 501);
}

#[test]
fn table_with_completion_only() {
    let config = config(Some(remote("A")), None, Some(remote("B")));
    let table = api_router(&config, &services(Some(7), None));
    assert_eq!(
        *table.routes(),
        vec![
            Route { endpoint: Endpoint::Events, handler: Handler::LogEvent, guard: None },
            Route {
                endpoint: Endpoint::Models,
                handler: Handler::Models(ModelSnapshot {
                    completion: Some("A".to_string()),
                    chat: None,
                    embedding: Some("B".to_string()),
                }),
                guard: None,
            },
            Route {
                endpoint: Endpoint::Completions,
                handler: Handler::Completions(Handle { id: 7 }),
                guard: Some(guard()),
            },
            Route { endpoint: Endpoint::ServerSetting, handler: Handler::ServerSetting, guard: None },
        ]
    );
    assert_eq!(table.count(Endpoint::ChatCompletions), 0);
    assert!(!table.serves(Endpoint::ChatCompletions));
    assert_eq!(table.dispatch(Method::Post, "/v1/chat/completions"), Dispatch::NoRoute);
    assert_eq!(table.dispatch(Method::Post, "/v1/completions"), Dispatch::Serve(2));
}

#[test]
fn table_with_completion_and_chat() {
    let config = config(Some(remote("A")), Some(remote("C")), Some(remote("B")));
    let table = api_router(&config, &services(Some(7), Some(8)));
    assert_eq!(
        listing(&table),
        vec![
            (Method::Post, "/v1/events".to_string()),
            (Method::Get, "/v1/models".to_string()),
            (Method::Post, "/v1/completions".to_string()),
            (Method::Post, "/v1/chat/completions".to_string()),
            (Method::Get, "/v1beta/server_setting".to_string()),
        ]
    );
    assert_eq!(table.len(), 5);
    assert_eq!(table.count(Endpoint::ChatCompletions), 1);
    assert_eq!(
        table.get(3),
        Some(&Route {
            endpoint: Endpoint::ChatCompletions,
            handler: Handler::ChatCompletions(Handle { id: 8 }),
            guard: Some(guard()),
        })
    );
    assert_eq!(
        table.get(2),
        Some(&Route {
            endpoint: Endpoint::Completions,
            handler: Handler::Completions(Handle { id: 7 }),
            guard: Some(guard()),
        })
    );
    assert_eq!(table.get(5), None);
    assert_eq!(table.dispatch(Method::Post, "/v1/chat/completions"), Dispatch::Serve(3));
    assert_eq!(table.dispatch(Method::Get, "/v1beta/server_setting"), Dispatch::Serve(4));
}

#[test]
fn table_without_completion_answers_not_implemented() {
    let config = config(None, None, Some(remote("B")));
    let table = api_router(&config, &services(None, None));
    assert_eq!(
        listing(&table),
        vec![
            (Method::Post, "/v1/events".to_string()),
            (Method::Get, "/v1/models".to_string()),
            (Method::Post, "/v1/completions".to_string()),
            (Method::Get, "/v1beta/server_setting".to_string()),
        ]
    );
    assert_eq!(
        table.get(2),
        Some(&Route { endpoint: Endpoint::Completions, handler: Handler::Fixed(501), guard: None })
    );
    assert_eq!(table.dispatch(Method::Post, "/v1/completions"), Dispatch::Status(501));
    assert_ne!(table.dispatch(Method::Post, "/v1/completions"), Dispatch::NoRoute);
    assert_eq!(table.dispatch(Method::Post, "/v1/chat/completions"), Dispatch::NoRoute);
}

#[test]
fn chat_without_completion_is_not_served() {
    let config = config(None, Some(remote("C")), Some(remote("B")));
    let table = api_router(&config, &services(None, Some(8)));
    assert_eq!(table.len(), 4);
    assert_eq!(table.count(Endpoint::ChatCompletions), 0);
    assert_eq!(table.dispatch(Method::Post, "/v1/chat/completions"), Dispatch::NoRoute);
    assert_eq!(table.dispatch(Method::Post, "/v1/completions"), Dispatch::Status(501));
}

#[test]
fn always_present_routes_are_served_whatever_came_up() {
    for (completion, chat) in [(None, None), (Some(1), None), (None, Some(2)), (Some(1), Some(2))] {
        let config = config(None, None, None);
        let table = api_router(&config, &services(completion, chat));
        assert_eq!(table.dispatch(Method::Post, "/v1/events"), Dispatch::Serve(0));
        assert_eq!(table.dispatch(Method::Get, "/v1/models"), Dispatch::Serve(1));
        assert_eq!(
            table.dispatch(Method::Get, "/v1beta/server_setting"),
            Dispatch::Serve(table.len() - 1)
        );
        for endpoint in [
            Endpoint::Events,
            Endpoint::Models,
            Endpoint::Completions,
            Endpoint::ServerSetting,
        ] {
            assert_eq!(table.count(endpoint), 1);
        }
    }
}

#[test]
fn snapshot_lists_identifiers_and_never_credentials() {
    let local = ModelRoleConfig::Local(LocalModel {
        path: "/models/chat".to_string(),
        parallelism: 1,
        device: Device::Cpu,
    });
    let model = ModelSettings { completion: Some(remote("A")), chat: Some(local), embedding: None };
    assert_eq!(
        ModelSnapshot::of(&model),
        ModelSnapshot {
            completion: Some("A".to_string()),
            chat: Some("/models/chat".to_string()),
            embedding: None,
        }
    );
}

#[test]
fn guard_takes_timeout_and_repositories_from_the_configuration() {
    let config = config(None, None, None);
    assert_eq!(Guard::of(&config.server), guard());
    assert_eq!(guard().clone(), guard());
}

#[test]
fn building_twice_gives_the_same_table() {
    let config = config(Some(remote("A")), Some(remote("C")), Some(remote("B")));
    let services = services(Some(7), Some(8));
    let first = api_router(&config, &services);
    let second = api_router(&config, &services);
    assert_eq!(first, second);
    assert_eq!(listing(&first), listing(&second));
}

#[test]
fn dispatch_finds_no_route_for_unknown_requests() {
    let config = config(Some(remote("A")), Some(remote("C")), Some(remote("B")));
    let table = api_router(&config, &services(Some(7), Some(8)));
    assert_eq!(table.dispatch(Method::Get, "/v1/completions"), Dispatch::NoRoute);
    assert_eq!(table.dispatch(Method::Get, "/"), Dispatch::NoRoute);
    assert_eq!(table.dispatch(Method::Post, "/v1/health"), Dispatch::NoRoute);
}

#[test]
fn empty_table_serves_nothing() {
    let table = RouteTable::new();
    assert_eq!(table.len(), 0);
    assert_eq!(table.find(Endpoint::Events), None);
    assert_eq!(table.count(Endpoint::Events), 0);
    assert_eq!(table.dispatch(Method::Post, "/v1/events"), Dispatch::NoRoute);
    assert_eq!(table.dispatch_endpoint(Endpoint::Completions), Dispatch::NoRoute);
}

#[test]
fn insert_refuses_a_second_route_for_an_endpoint() {
    let table = RouteTable::new();
    let table =
        table.insert(Route { endpoint: Endpoint::Models, handler: Handler::ServerSetting, guard: None });
    let table =
        table.insert(Route { endpoint: Endpoint::Events, handler: Handler::LogEvent, guard: None });
    let table =
        table.insert(Route { endpoint: Endpoint::Events, handler: Handler::Fixed(503), guard: None });
    assert_eq!(table.len(), 2);
    assert_eq!(table.find(Endpoint::Events), Some(1));
    assert_eq!(table.count(Endpoint::Events), 1);
    assert_eq!(table.dispatch_endpoint(Endpoint::Events), Dispatch::Serve(1));
    assert_eq!(table.find(Endpoint::Models), Some(0));
    assert_eq!(table.find(Endpoint::Completions), None);
    assert_eq!(
        table.get(1),
        Some(&Route { endpoint: Endpoint::Events, handler: Handler::LogEvent, guard: None })
    );
}

#[test]
fn fixed_handler_answers_with_its_status() {
    let table = RouteTable::new()
        .insert(Route { endpoint: Endpoint::Events, handler: Handler::Fixed(503), guard: None });
    assert_eq!(table.dispatch(Method::Post, "/v1/events"), Dispatch::Status(503));
}
