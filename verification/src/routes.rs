//! The route table: which endpoint is answered by which handler.
//!
//! An endpoint is a path together with a method, so two routes of one table
//! never compete for a request as long as their endpoints differ. The order
//! of the routes is the order in which they are listed, nothing more.

use vstd::prelude::*;

use crate::config::clone_text;
use crate::config::clone_texts;
use crate::config::text_view;
use crate::config::texts_view;
use crate::services::Handle;
use crate::trusted::same_text;

verus! {

/// The request methods that the server answers.
#[derive(Clone, Copy, Debug, PartialEq, Eq, Structural)]
pub enum Method {
    Get,
    Post,
}

/// The endpoints that the server can offer.
#[derive(Clone, Copy, Debug, PartialEq, Eq, Structural)]
pub enum Endpoint {
    Events,
    Models,
    Completions,
    ChatCompletions,
    ServerSetting,
}

/// The status of the answer that stands in for a capability that is not
/// offered.
pub const NOT_IMPLEMENTED: u16 = 501;

impl Endpoint {
    /// The path under which the endpoint is served.
    pub open spec fn spec_path(self) -> Seq<char> {
        match self {
            Endpoint::Events => "/v1/events"@,
            Endpoint::Models => "/v1/models"@,
            Endpoint::Completions => "/v1/completions"@,
            Endpoint::ChatCompletions => "/v1/chat/completions"@,
            Endpoint::ServerSetting => "/v1beta/server_setting"@,
        }
    }

    /// The method that the endpoint answers.
    pub open spec fn spec_method(self) -> Method {
        match self {
            Endpoint::Events => Method::Post,
            Endpoint::Models => Method::Get,
            Endpoint::Completions => Method::Post,
            Endpoint::ChatCompletions => Method::Post,
            Endpoint::ServerSetting => Method::Get,
        }
    }

    /// Whether a request with this method and path is addressed to the
    /// endpoint.
    pub open spec fn accepts(self, method: Method, path: Seq<char>) -> bool {
        self.spec_method() == method && self.spec_path() == path
    }

    /// The endpoint that a request is addressed to, if there is one.
    pub open spec fn spec_parse(method: Method, path: Seq<char>) -> Option<Endpoint> {
        if Endpoint::Events.accepts(method, path) {
            Some(Endpoint::Events)
        } else if Endpoint::Models.accepts(method, path) {
            Some(Endpoint::Models)
        } else if Endpoint::Completions.accepts(method, path) {
            Some(Endpoint::Completions)
        } else if Endpoint::ChatCompletions.accepts(method, path) {
            Some(Endpoint::ChatCompletions)
        } else if Endpoint::ServerSetting.accepts(method, path) {
            Some(Endpoint::ServerSetting)
        } else {
            None
        }
    }

    pub fn path(self) -> (path: &'static str)
        ensures
            path@ == self.spec_path(),
    {
        match self {
            Endpoint::Events => "/v1/events",
            Endpoint::Models => "/v1/models",
            Endpoint::Completions => "/v1/completions",
            Endpoint::ChatCompletions => "/v1/chat/completions",
            Endpoint::ServerSetting => "/v1beta/server_setting",
        }
    }

    pub fn method(self) -> (method: Method)
        ensures
            method == self.spec_method(),
    {
        match self {
            Endpoint::Events => Method::Post,
            Endpoint::Models => Method::Get,
            Endpoint::Completions => Method::Post,
            Endpoint::ChatCompletions => Method::Post,
            Endpoint::ServerSetting => Method::Get,
        }
    }

    /// Whether a request with this method and path is addressed to the
    /// endpoint.
    fn answers(self, method: Method, path: &str) -> (yes: bool)
        ensures
            yes == self.accepts(method, path@),
    {
        self.method() == method && same_text(self.path(), path)
    }

    /// The endpoint that a request is addressed to, if there is one.
    pub fn parse(method: Method, path: &str) -> (endpoint: Option<Endpoint>)
        ensures
            endpoint == Self::spec_parse(method, path@),
    {
        if Endpoint::Events.answers(method, path) {
            Some(Endpoint::Events)
        } else if Endpoint::Models.answers(method, path) {
            Some(Endpoint::Models)
        } else if Endpoint::Completions.answers(method, path) {
            Some(Endpoint::Completions)
        } else if Endpoint::ChatCompletions.answers(method, path) {
            Some(Endpoint::ChatCompletions)
        } else if Endpoint::ServerSetting.answers(method, path) {
            Some(Endpoint::ServerSetting)
        } else {
            None
        }
    }
}

/// No two endpoints share a path.
pub proof fn lemma_paths_differ(a: Endpoint, b: Endpoint)
    ensures
        a.spec_path() == b.spec_path() ==> a == b,
{
    reveal_strlit("/v1/events");
    reveal_strlit("/v1/models");
    reveal_strlit("/v1/completions");
    reveal_strlit("/v1/chat/completions");
    reveal_strlit("/v1beta/server_setting");
    if a.spec_path() == b.spec_path() {
        assert(a.spec_path().len() == b.spec_path().len());
        assert(a.spec_path()[4] == b.spec_path()[4]);
    }
}

/// A request addressed to an endpoint by its own method and path is parsed
/// as that endpoint, and whatever a request is parsed as accepts it.
pub proof fn lemma_parse_inverts_path(endpoint: Endpoint, method: Method, path: Seq<char>)
    ensures
        Endpoint::spec_parse(endpoint.spec_method(), endpoint.spec_path()) == Some(endpoint),
        Endpoint::spec_parse(method, path) == Some(endpoint) <==> endpoint.accepts(method, path),
{
    lemma_paths_differ(endpoint, Endpoint::Events);
    lemma_paths_differ(endpoint, Endpoint::Models);
    lemma_paths_differ(endpoint, Endpoint::Completions);
    lemma_paths_differ(endpoint, Endpoint::ChatCompletions);
    lemma_paths_differ(endpoint, Endpoint::ServerSetting);
}

/// The model identifiers that the listing endpoint shows, one per
/// configured role.
#[derive(Debug, PartialEq, Eq)]
pub struct ModelSnapshot {
    pub completion: Option<String>,
    pub chat: Option<String>,
    pub embedding: Option<String>,
}

/// A snapshot, with its identifiers as sequences of characters.
pub struct ModelSnapshotView {
    pub completion: Option<Seq<char>>,
    pub chat: Option<Seq<char>>,
    pub embedding: Option<Seq<char>>,
}

impl View for ModelSnapshot {
    type V = ModelSnapshotView;

    open spec fn view(&self) -> ModelSnapshotView {
        ModelSnapshotView {
            completion: text_view(self.completion),
            chat: text_view(self.chat),
            embedding: text_view(self.embedding),
        }
    }
}

/// What stands in front of a handler: a limit on the time a request may
/// take, and the repositories that a request may name.
#[derive(Debug, PartialEq, Eq)]
pub struct Guard {
    pub timeout_secs: u64,
    pub allowed_repositories: Vec<String>,
}

/// A guard, with its repositories as sequences of characters.
pub struct GuardView {
    pub timeout_secs: u64,
    pub allowed_repositories: Seq<Seq<char>>,
}

impl View for Guard {
    type V = GuardView;

    open spec fn view(&self) -> GuardView {
        GuardView {
            timeout_secs: self.timeout_secs,
            allowed_repositories: texts_view(self.allowed_repositories@),
        }
    }
}

/// What answers the requests of a route.
#[derive(Debug, PartialEq, Eq)]
pub enum Handler {
    /// Hands the event to the logger.
    LogEvent,
    /// Lists the configured models.
    Models(ModelSnapshot),
    /// Completes code with the backend behind the handle.
    Completions(Handle),
    /// Chats with the backend behind the handle.
    ChatCompletions(Handle),
    /// Shows the settings of the server.
    ServerSetting,
    /// Answers every request with the same status and nothing else.
    Fixed(u16),
}

/// A handler, with the snapshot of the listing as a view.
pub enum HandlerView {
    LogEvent,
    Models(ModelSnapshotView),
    Completions(Handle),
    ChatCompletions(Handle),
    ServerSetting,
    Fixed(u16),
}

impl View for Handler {
    type V = HandlerView;

    open spec fn view(&self) -> HandlerView {
        match self {
            Handler::LogEvent => HandlerView::LogEvent,
            Handler::Models(snapshot) => HandlerView::Models(snapshot@),
            Handler::Completions(handle) => HandlerView::Completions(*handle),
            Handler::ChatCompletions(handle) => HandlerView::ChatCompletions(*handle),
            Handler::ServerSetting => HandlerView::ServerSetting,
            Handler::Fixed(status) => HandlerView::Fixed(*status),
        }
    }
}

/// One entry of the route table.
#[derive(Debug, PartialEq, Eq)]
pub struct Route {
    pub endpoint: Endpoint,
    pub handler: Handler,
    pub guard: Option<Guard>,
}

/// A route, as the contracts of the library speak of it.
pub struct RouteView {
    pub endpoint: Endpoint,
    pub handler: HandlerView,
    pub guard: Option<GuardView>,
}

/// The view of an optional guard.
pub open spec fn guard_view(guard: Option<Guard>) -> Option<GuardView> {
    match guard {
        Some(g) => Some(g@),
        None => None,
    }
}

impl View for Route {
    type V = RouteView;

    open spec fn view(&self) -> RouteView {
        RouteView {
            endpoint: self.endpoint,
            handler: self.handler@,
            guard: guard_view(self.guard),
        }
    }
}

/// The routes of the server, in the order in which they are listed. No
/// endpoint is served by two routes of one table.
#[derive(Debug, PartialEq, Eq)]
pub struct RouteTable {
    routes: Vec<Route>,
}

/// The views of a list of routes, in order.
pub open spec fn routes_view(routes: Seq<Route>) -> Seq<RouteView> {
    Seq::new(routes.len(), |i: int| routes[i]@)
}

impl View for RouteTable {
    type V = Seq<RouteView>;

    closed spec fn view(&self) -> Seq<RouteView> {
        routes_view(self.routes@)
    }
}

/// What becomes of a request.
#[derive(Clone, Copy, Debug, PartialEq, Eq, Structural)]
pub enum Dispatch {
    /// No route answers this method and path.
    NoRoute,
    /// The request is answered with a fixed status.
    Status(u16),
    /// The request is served by the handler of the route at this position.
    Serve(usize),
}

/// The position of the first route from `start` on that serves `endpoint`.
pub open spec fn position_from(table: Seq<RouteView>, endpoint: Endpoint, start: int) -> Option<int>
    decreases table.len() - start,
{
    if start < 0 || start >= table.len() {
        None
    } else if table[start].endpoint == endpoint {
        Some(start)
    } else {
        position_from(table, endpoint, start + 1)
    }
}

/// The position of the first route that serves `endpoint`.
pub open spec fn position(table: Seq<RouteView>, endpoint: Endpoint) -> Option<int> {
    position_from(table, endpoint, 0)
}

/// The number of routes from `start` on that serve `endpoint`.
pub open spec fn occurrences_from(table: Seq<RouteView>, endpoint: Endpoint, start: int) -> nat
    decreases table.len() - start,
{
    if start < 0 || start >= table.len() {
        0
    } else if table[start].endpoint == endpoint {
        1 + occurrences_from(table, endpoint, start + 1)
    } else {
        occurrences_from(table, endpoint, start + 1)
    }
}

/// The number of routes that serve `endpoint`.
pub open spec fn occurrences(table: Seq<RouteView>, endpoint: Endpoint) -> nat {
    occurrences_from(table, endpoint, 0)
}

/// No endpoint is served by two routes.
pub open spec fn unambiguous(table: Seq<RouteView>) -> bool {
    forall|i: int, j: int|
        0 <= i < j < table.len() ==> (#[trigger] table[i]).endpoint != (#[trigger] table[j]).endpoint
}

/// The endpoints of a table, in the order of its routes.
pub open spec fn endpoints(table: Seq<RouteView>) -> Seq<Endpoint> {
    Seq::new(table.len(), |i: int| table[i].endpoint)
}

/// What becomes of a request for `endpoint`.
pub open spec fn dispatch_endpoint(table: Seq<RouteView>, endpoint: Endpoint) -> Dispatch {
    match position(table, endpoint) {
        None => Dispatch::NoRoute,
        Some(i) => match table[i].handler {
            HandlerView::Fixed(status) => Dispatch::Status(status),
            _ => Dispatch::Serve(i as usize),
        },
    }
}

/// What becomes of a request with this method and path.
pub open spec fn dispatch_request(table: Seq<RouteView>, method: Method, path: Seq<char>) -> Dispatch {
    match Endpoint::spec_parse(method, path) {
        None => Dispatch::NoRoute,
        Some(endpoint) => dispatch_endpoint(table, endpoint),
    }
}

/// A position found is within the table, holds the endpoint, and is the
/// first that does; none is found only where no route serves the endpoint.
pub proof fn lemma_position_from(table: Seq<RouteView>, endpoint: Endpoint, start: int)
    requires
        0 <= start <= table.len(),
    ensures
        match position_from(table, endpoint, start) {
            Some(i) => {
                &&& start <= i < table.len()
                &&& table[i].endpoint == endpoint
                &&& forall|k: int| start <= k < i ==> (#[trigger] table[k]).endpoint != endpoint
            },
            None => forall|k: int|
                start <= k < table.len() ==> (#[trigger] table[k]).endpoint != endpoint,
        },
    decreases table.len() - start,
{
    if start < table.len() && table[start].endpoint != endpoint {
        lemma_position_from(table, endpoint, start + 1);
    }
}

/// In a table where no endpoint is served twice, an endpoint occurs once
/// from `start` on if a route there serves it, and not at all otherwise.
pub proof fn lemma_occurrences_from(table: Seq<RouteView>, endpoint: Endpoint, start: int)
    requires
        0 <= start <= table.len(),
        unambiguous(table),
    ensures
        occurrences_from(table, endpoint, start) == (if position_from(table, endpoint, start) is Some {
            1nat
        } else {
            0nat
        }),
    decreases table.len() - start,
{
    if start < table.len() {
        lemma_occurrences_from(table, endpoint, start + 1);
        if table[start].endpoint == endpoint {
            lemma_position_from(table, endpoint, start + 1);
            if position_from(table, endpoint, start + 1) is Some {
                let j = position_from(table, endpoint, start + 1).unwrap();
                assert(table[start].endpoint != table[j].endpoint);
            }
        }
    }
}

/// A table that serves no endpoint twice still does so with one more
/// route, if none of its routes serves the endpoint of that route.
pub proof fn lemma_push_unambiguous(table: Seq<RouteView>, route: RouteView)
    requires
        unambiguous(table),
        position(table, route.endpoint) is None,
    ensures
        unambiguous(table.push(route)),
{
    lemma_position_from(table, route.endpoint, 0);
    let longer = table.push(route);
    assert forall|i: int, j: int| 0 <= i < j < longer.len() implies (#[trigger] longer[i]).endpoint
        != (#[trigger] longer[j]).endpoint by {
        if j < table.len() {
            assert(longer[i] == table[i]);
            assert(longer[j] == table[j]);
        } else {
            assert(longer[i] == table[i]);
        }
    }
}

impl RouteTable {
    #[verifier::type_invariant]
    spec fn serves_each_endpoint_once(self) -> bool {
        unambiguous(self@)
    }

    /// A table without routes.
    pub fn new() -> (table: RouteTable)
        ensures
            table@ == Seq::<RouteView>::empty(),
    {
        let routes: Vec<Route> = Vec::new();
        assert(routes_view(routes@) =~= Seq::<RouteView>::empty());
        RouteTable { routes }
    }

    /// The number of routes.
    pub fn len(&self) -> (n: usize)
        ensures
            n == self@.len(),
    {
        self.routes.len()
    }

    /// The routes, in the order in which they are listed.
    pub fn routes(&self) -> (routes: &Vec<Route>)
        ensures
            routes_view(routes@) == self@,
            unambiguous(self@),
    {
        proof {
            use_type_invariant(self);
        }
        &self.routes
    }

    /// The table with one more route at its end. Where a route of the
    /// table serves the endpoint already, the table stays as it is.
    pub fn insert(self, route: Route) -> (next: RouteTable)
        ensures
            position(self@, route@.endpoint) is None ==> next@ == self@.push(route@),
            position(self@, route@.endpoint) is Some ==> next@ == self@,
            unambiguous(next@),
    {
        proof {
            use_type_invariant(&self);
        }
        if self.find(route.endpoint).is_some() {
            return self;
        }
        proof {
            lemma_push_unambiguous(self@, route@);
        }
        let ghost before = self@;
        let ghost added = route@;
        let mut routes = self.routes;
        routes.push(route);
        assert(routes_view(routes@) =~= before.push(added));
        RouteTable { routes }
    }

    /// The route at a position, if the table has that many.
    pub fn get(&self, index: usize) -> (route: Option<&Route>)
        ensures
            index < self@.len() ==> route is Some && route.unwrap()@ == self@[index as int],
            index >= self@.len() ==> route is None,
    {
        if index < self.routes.len() {
            Some(&self.routes[index])
        } else {
            None
        }
    }

    /// The position of the first route that serves `endpoint`.
    pub fn find(&self, endpoint: Endpoint) -> (found: Option<usize>)
        ensures
            match found {
                Some(i) => position(self@, endpoint) == Some(i as int),
                None => position(self@, endpoint) is None,
            },
    {
        let mut i: usize = 0;
        while i < self.routes.len()
            invariant
                i <= self.routes.len(),
                position(self@, endpoint) == position_from(self@, endpoint, i as int),
            decreases self.routes.len() - i,
        {
            if self.routes[i].endpoint == endpoint {
                return Some(i);
            }
            i = i + 1;
        }
        None
    }

    /// Whether a route serves `endpoint`.
    pub fn serves(&self, endpoint: Endpoint) -> (yes: bool)
        ensures
            yes == (position(self@, endpoint) is Some),
    {
        self.find(endpoint).is_some()
    }

    /// The number of routes that serve `endpoint`.
    pub fn count(&self, endpoint: Endpoint) -> (n: usize)
        ensures
            n == occurrences(self@, endpoint),
    {
        let mut n: usize = 0;
        let mut i: usize = self.routes.len();
        while i > 0
            invariant
                i <= self.routes.len(),
                n == occurrences_from(self@, endpoint, i as int),
                n <= self.routes.len() - i,
            decreases i,
        {
            i = i - 1;
            if self.routes[i].endpoint == endpoint {
                n = n + 1;
            }
        }
        n
    }

    /// What becomes of a request for `endpoint`.
    pub fn dispatch_endpoint(&self, endpoint: Endpoint) -> (outcome: Dispatch)
        ensures
            outcome == dispatch_endpoint(self@, endpoint),
    {
        match self.find(endpoint) {
            None => Dispatch::NoRoute,
            Some(i) => {
                proof {
                    lemma_position_from(self@, endpoint, 0);
                }
                match &self.routes[i].handler {
                    Handler::Fixed(status) => Dispatch::Status(*status),
                    _ => Dispatch::Serve(i),
                }
            },
        }
    }

    /// What becomes of a request with this method and path.
    pub fn dispatch(&self, method: Method, path: &str) -> (outcome: Dispatch)
        ensures
            outcome == dispatch_request(self@, method, path@),
    {
        match Endpoint::parse(method, path) {
            None => Dispatch::NoRoute,
            Some(endpoint) => self.dispatch_endpoint(endpoint),
        }
    }
}

impl Clone for ModelSnapshot {
    fn clone(&self) -> (copy: Self)
        ensures
            copy@ == self@,
    {
        ModelSnapshot {
            completion: clone_text(&self.completion),
            chat: clone_text(&self.chat),
            embedding: clone_text(&self.embedding),
        }
    }
}

impl Clone for Guard {
    fn clone(&self) -> (copy: Self)
        ensures
            copy@ == self@,
    {
        Guard {
            timeout_secs: self.timeout_secs,
            allowed_repositories: clone_texts(&self.allowed_repositories),
        }
    }
}

} // verus!
