//! Bringing the services up in their fixed order: embedding, then search
//! built on embedding, then completion, then chat.
//!
//! Connecting to a backend is the caller's work. The assembler says what is
//! to be done next, is told how it went, and decides what that means: a
//! role without configuration is passed over, a local model aborts the
//! assembly, a failed embedding backend aborts it too, and a failed
//! completion or chat backend leaves that capability out.

use vstd::prelude::*;

use crate::config::clone_entry;
use crate::config::ModelRoleConfig;
use crate::config::ModelRoleView;
use crate::config::RemoteModel;
use crate::config::RemoteModelView;
use crate::config::Role;
use crate::config::ServerConfig;
use crate::config::ServerConfigView;
use crate::routes::dispatch_request;
use crate::routes::occurrences;
use crate::routes::Dispatch;
use crate::routes::Endpoint;
use crate::routes::Method;
use crate::routes::RouteTable;
use crate::routes::NOT_IMPLEMENTED;
use crate::serve::api_router;
use crate::serve::lemma_chat_route;
use crate::serve::lemma_completions_route;
use crate::serve::route_plan;
use crate::services::clone_prompt;
use crate::services::model::completion_and_chat;
use crate::services::model::load_completion_and_chat;
use crate::services::model::load_embedding;
use crate::services::model::resolution;
use crate::services::model::PromptInfo;
use crate::services::model::PromptInfoView;
use crate::services::model::ResolveError;
use crate::services::prompt_view;
use crate::services::Handle;
use crate::services::ResolvedServices;
use crate::services::ResolvedServicesView;

verus! {

/// Where the assembly stands.
#[derive(Clone, Copy, Debug, PartialEq, Eq, Structural)]
pub enum Phase {
    /// The embedding backend is being connected.
    AwaitEmbedding,
    /// Search is being built on the embedding backend.
    AwaitSearch,
    /// The completion backend is being connected.
    AwaitCompletion,
    /// The chat backend is being connected.
    AwaitChat,
    /// Every stage is done; the services can be served.
    Ready,
    /// The assembly failed; nothing is served.
    Aborted(ResolveError),
}

impl Phase {
    /// Whether the assembly has come to its end, one way or the other.
    pub open spec fn spec_is_final(self) -> bool {
        self is Ready || self is Aborted
    }

    #[verifier::when_used_as_spec(spec_is_final)]
    pub fn is_final(self) -> (yes: bool)
        ensures
            yes == self.spec_is_final(),
    {
        match self {
            Phase::Ready => true,
            Phase::Aborted(_) => true,
            _ => false,
        }
    }

    /// The largest number of steps that can still follow.
    pub open spec fn remaining(self) -> nat {
        match self {
            Phase::AwaitEmbedding => 4,
            Phase::AwaitSearch => 3,
            Phase::AwaitCompletion => 2,
            Phase::AwaitChat => 1,
            Phase::Ready => 0,
            Phase::Aborted(_) => 0,
        }
    }
}

/// How the work that the assembler asked for went.
#[derive(Debug, PartialEq, Eq)]
pub enum Event {
    /// It is done. The handle reaches what was brought up; a completion
    /// backend may report its templates.
    Resolved { handle: Handle, prompt: Option<PromptInfo> },
    /// It could not be done.
    Failed,
}

/// An event, with its strings as sequences of characters.
pub enum EventView {
    Resolved { handle: Handle, prompt: Option<PromptInfoView> },
    Failed,
}

impl View for Event {
    type V = EventView;

    open spec fn view(&self) -> EventView {
        match self {
            Event::Resolved { handle, prompt } => EventView::Resolved {
                handle: *handle,
                prompt: prompt_view(*prompt),
            },
            Event::Failed => EventView::Failed,
        }
    }
}

impl EventView {
    /// The handle that the event brings, if it brings one.
    pub open spec fn handle(self) -> Option<Handle> {
        match self {
            EventView::Resolved { handle, .. } => Some(handle),
            EventView::Failed => None,
        }
    }

    /// The templates that the event brings, if it brings any.
    pub open spec fn prompt(self) -> Option<PromptInfoView> {
        match self {
            EventView::Resolved { prompt, .. } => prompt,
            EventView::Failed => None,
        }
    }
}

/// What the caller is to do next.
#[derive(Debug, PartialEq, Eq)]
pub enum Action {
    /// Connect to the embedding backend.
    ConnectEmbedding(RemoteModel),
    /// Build search on the embedding backend behind the handle.
    BuildSearch(Handle),
    /// Connect to the completion backend, which searches through the
    /// handle where there is one.
    ConnectCompletion { model: RemoteModel, search: Option<Handle> },
    /// Connect to the chat backend.
    ConnectChat(RemoteModel),
    /// Nothing is left to do: serve.
    Serve,
    /// Give up for the reason given.
    Abort(ResolveError),
}

/// An action, with its strings as sequences of characters.
pub enum ActionView {
    ConnectEmbedding(RemoteModelView),
    BuildSearch(Handle),
    ConnectCompletion { model: RemoteModelView, search: Option<Handle> },
    ConnectChat(RemoteModelView),
    Serve,
    Abort(ResolveError),
}

impl View for Action {
    type V = ActionView;

    open spec fn view(&self) -> ActionView {
        match self {
            Action::ConnectEmbedding(model) => ActionView::ConnectEmbedding(model@),
            Action::BuildSearch(handle) => ActionView::BuildSearch(*handle),
            Action::ConnectCompletion { model, search } => ActionView::ConnectCompletion {
                model: model@,
                search: *search,
            },
            Action::ConnectChat(model) => ActionView::ConnectChat(model@),
            Action::Serve => ActionView::Serve,
            Action::Abort(e) => ActionView::Abort(*e),
        }
    }
}

/// The state of an assembly: the configuration it follows, where it
/// stands, and the services that are up so far.
pub struct AssemblerView {
    pub config: ServerConfigView,
    pub phase: Phase,
    pub services: ResolvedServicesView,
}

/// The remote model of an entry. Meaningful only where the entry holds one.
pub open spec fn remote_of(entry: Option<ModelRoleView>) -> RemoteModelView {
    entry->Some_0->Remote_0
}

/// Whether an entry holds a remote model.
pub open spec fn is_remote(entry: Option<ModelRoleView>) -> bool {
    entry matches Some(ModelRoleView::Remote(_))
}

/// An assembly that gave up: it holds no service.
pub open spec fn aborted(config: ServerConfigView, error: ResolveError) -> AssemblerView {
    AssemblerView { config, phase: Phase::Aborted(error), services: ResolvedServicesView::none() }
}

/// The state once embedding and search are settled: a local model on
/// completion or chat aborts the assembly; otherwise the first of the two
/// that is configured is next, and with neither the assembly is ready.
pub open spec fn planned(config: ServerConfigView, services: ResolvedServicesView) -> AssemblerView {
    match completion_and_chat(config.model.completion, config.model.chat) {
        Err(e) => aborted(config, e),
        Ok(plan) => AssemblerView {
            config,
            phase: if plan.completion is Some {
                Phase::AwaitCompletion
            } else if plan.chat is Some {
                Phase::AwaitChat
            } else {
                Phase::Ready
            },
            services,
        },
    }
}

/// The state once completion is settled: chat is next where it is
/// configured, and otherwise the assembly is ready.
pub open spec fn after_completion(
    config: ServerConfigView,
    services: ResolvedServicesView,
) -> AssemblerView {
    AssemblerView {
        config,
        phase: if config.model.chat is Some {
            Phase::AwaitChat
        } else {
            Phase::Ready
        },
        services,
    }
}

impl AssemblerView {
    /// The state in which an assembly begins: a local embedding model
    /// aborts it at once, a remote one is connected first, and without an
    /// embedding model there is no search either.
    pub open spec fn start(config: ServerConfigView) -> AssemblerView {
        match resolution(Role::Embedding, config.model.embedding) {
            Err(e) => aborted(config, e),
            Ok(Some(_)) => AssemblerView {
                config,
                phase: Phase::AwaitEmbedding,
                services: ResolvedServicesView::none(),
            },
            Ok(None) => planned(config, ResolvedServicesView::none()),
        }
    }

    /// What the caller is to do in this state.
    pub open spec fn pending(self) -> ActionView {
        match self.phase {
            Phase::AwaitEmbedding => ActionView::ConnectEmbedding(
                remote_of(self.config.model.embedding),
            ),
            Phase::AwaitSearch => ActionView::BuildSearch(self.services.embedding.unwrap()),
            Phase::AwaitCompletion => ActionView::ConnectCompletion {
                model: remote_of(self.config.model.completion),
                search: self.services.search,
            },
            Phase::AwaitChat => ActionView::ConnectChat(remote_of(self.config.model.chat)),
            Phase::Ready => ActionView::Serve,
            Phase::Aborted(e) => ActionView::Abort(e),
        }
    }

    /// The state that follows when the pending work went as `event` says.
    /// A failed embedding backend aborts the assembly. Failed search, a
    /// failed completion backend and a failed chat backend leave their
    /// service out. At the end nothing changes any more.
    pub open spec fn step(self, event: EventView) -> AssemblerView {
        match self.phase {
            Phase::AwaitEmbedding => match event.handle() {
                Some(handle) => AssemblerView {
                    config: self.config,
                    phase: Phase::AwaitSearch,
                    services: ResolvedServicesView {
                        embedding: Some(handle),
                        ..ResolvedServicesView::none()
                    },
                },
                None => aborted(self.config, ResolveError::BackendFailed(Role::Embedding)),
            },
            Phase::AwaitSearch => planned(
                self.config,
                ResolvedServicesView { search: event.handle(), ..self.services },
            ),
            Phase::AwaitCompletion => after_completion(
                self.config,
                ResolvedServicesView {
                    completion: event.handle(),
                    prompt: event.prompt(),
                    ..self.services
                },
            ),
            Phase::AwaitChat => AssemblerView {
                config: self.config,
                phase: Phase::Ready,
                services: ResolvedServicesView { chat: event.handle(), ..self.services },
            },
            Phase::Ready => self,
            Phase::Aborted(_) => self,
        }
    }

    /// The state after a run of events, taken in order.
    pub open spec fn run(self, events: Seq<EventView>) -> AssemblerView
        decreases events.len(),
    {
        if events.len() == 0 {
            self
        } else {
            self.run(events.drop_last()).step(events.last())
        }
    }

    /// What holds of every state that an assembly passes through.
    ///
    /// A service that is there was configured as a remote model, search
    /// rests on embedding, and templates belong to a completion backend.
    /// An assembly that waits for a backend has that backend configured as
    /// a remote model. A ready assembly has no local model anywhere. An
    /// aborted assembly holds no service, and its reason is true of the
    /// configuration.
    pub open spec fn well_formed(self) -> bool {
        let model = self.config.model;
        let services = self.services;
        &&& services.well_formed()
        &&& services.embedding is Some ==> is_remote(model.embedding)
        &&& services.completion is Some ==> is_remote(model.completion)
        &&& services.chat is Some ==> is_remote(model.chat)
        &&& match self.phase {
            Phase::AwaitEmbedding => {
                &&& is_remote(model.embedding)
                &&& services == ResolvedServicesView::none()
            },
            Phase::AwaitSearch => {
                &&& services.embedding is Some
                &&& services.search is None
                &&& services.completion is None
                &&& services.chat is None
            },
            Phase::AwaitCompletion => {
                &&& !model.has_local()
                &&& is_remote(model.completion)
                &&& services.completion is None
                &&& services.chat is None
            },
            Phase::AwaitChat => {
                &&& !model.has_local()
                &&& is_remote(model.chat)
                &&& services.chat is None
            },
            Phase::Ready => !model.has_local(),
            Phase::Aborted(ResolveError::UnsupportedLocal(role)) => {
                &&& services == ResolvedServicesView::none()
                &&& model.entry(role) matches Some(ModelRoleView::Local(_))
            },
            Phase::Aborted(ResolveError::BackendFailed(role)) => {
                &&& services == ResolvedServicesView::none()
                &&& role == Role::Embedding
                &&& is_remote(model.embedding)
            },
        }
    }
}

/// An assembly in progress.
#[derive(Debug)]
pub struct Assembler {
    config: ServerConfig,
    phase: Phase,
    services: ResolvedServices,
}

impl View for Assembler {
    type V = AssemblerView;

    closed spec fn view(&self) -> AssemblerView {
        AssemblerView { config: self.config@, phase: self.phase, services: self.services@ }
    }
}

impl Assembler {
    #[verifier::type_invariant]
    spec fn holds_together(self) -> bool {
        self@.well_formed()
    }

    /// The state once embedding and search are settled.
    fn plan(config: ServerConfig, services: ResolvedServices) -> (next: Assembler)
        requires
            services@.well_formed(),
            services@.embedding is Some ==> is_remote(config@.model.embedding),
            !(config@.model.embedding matches Some(ModelRoleView::Local(_))),
            services@.completion is None,
            services@.chat is None,
        ensures
            next@ == planned(config@, services@),
            next@.well_formed(),
    {
        let outcome = load_completion_and_chat(
            clone_entry(&config.model.completion),
            clone_entry(&config.model.chat),
        );
        match outcome {
            Err(e) => Assembler { config, phase: Phase::Aborted(e), services: ResolvedServices::none() },
            Ok(plan) => {
                let phase = if plan.completion.is_some() {
                    Phase::AwaitCompletion
                } else if plan.chat.is_some() {
                    Phase::AwaitChat
                } else {
                    Phase::Ready
                };
                Assembler { config, phase, services }
            },
        }
    }

    /// Begins the assembly of the services that `config` asks for.
    pub fn new(config: ServerConfig) -> (assembler: Assembler)
        ensures
            assembler@ == AssemblerView::start(config@),
            assembler@.well_formed(),
    {
        match &config.model.embedding {
            None => Assembler::plan(config, ResolvedServices::none()),
            Some(entry) => match load_embedding(entry) {
                Err(e) => Assembler {
                    config,
                    phase: Phase::Aborted(e),
                    services: ResolvedServices::none(),
                },
                Ok(_) => Assembler {
                    config,
                    phase: Phase::AwaitEmbedding,
                    services: ResolvedServices::none(),
                },
            },
        }
    }

    /// Where the assembly stands.
    pub fn phase(&self) -> (phase: Phase)
        ensures
            phase == self@.phase,
    {
        self.phase
    }

    /// The configuration that the assembly follows.
    pub fn config(&self) -> (config: &ServerConfig)
        ensures
            config@ == self@.config,
    {
        &self.config
    }

    /// What the caller is to do next.
    pub fn pending(&self) -> (action: Action)
        ensures
            action@ == self@.pending(),
            self@.well_formed(),
    {
        proof {
            use_type_invariant(self);
        }
        match self.phase {
            Phase::AwaitEmbedding => match &self.config.model.embedding {
                Some(ModelRoleConfig::Remote(model)) => Action::ConnectEmbedding(model.clone()),
                _ => Action::Serve,
            },
            Phase::AwaitSearch => match self.services.embedding {
                Some(handle) => Action::BuildSearch(handle),
                None => Action::Serve,
            },
            Phase::AwaitCompletion => match &self.config.model.completion {
                Some(ModelRoleConfig::Remote(model)) => Action::ConnectCompletion {
                    model: model.clone(),
                    search: self.services.search,
                },
                _ => Action::Serve,
            },
            Phase::AwaitChat => match &self.config.model.chat {
                Some(ModelRoleConfig::Remote(model)) => Action::ConnectChat(model.clone()),
                _ => Action::Serve,
            },
            Phase::Ready => Action::Serve,
            Phase::Aborted(e) => Action::Abort(e),
        }
    }

    /// Takes in how the pending work went and moves on.
    pub fn step(self, event: Event) -> (next: Assembler)
        ensures
            next@ == self@.step(event@),
            next@.well_formed(),
    {
        proof {
            use_type_invariant(&self);
        }
        let (handle, prompt) = match event {
            Event::Resolved { handle, prompt } => (Some(handle), prompt),
            Event::Failed => (None, None),
        };
        let Assembler { config, phase, services } = self;
        match phase {
            Phase::AwaitEmbedding => match handle {
                Some(handle) => Assembler {
                    config,
                    phase: Phase::AwaitSearch,
                    services: ResolvedServices {
                        embedding: Some(handle),
                        search: None,
                        completion: None,
                        chat: None,
                        prompt: None,
                    },
                },
                None => Assembler {
                    config,
                    phase: Phase::Aborted(ResolveError::BackendFailed(Role::Embedding)),
                    services: ResolvedServices::none(),
                },
            },
            Phase::AwaitSearch => {
                let services = ResolvedServices {
                    embedding: services.embedding,
                    search: handle,
                    completion: services.completion,
                    chat: services.chat,
                    prompt: services.prompt,
                };
                Assembler::plan(config, services)
            },
            Phase::AwaitCompletion => {
                let phase = if config.model.chat.is_some() {
                    Phase::AwaitChat
                } else {
                    Phase::Ready
                };
                let services = ResolvedServices {
                    embedding: services.embedding,
                    search: services.search,
                    completion: handle,
                    chat: services.chat,
                    prompt,
                };
                Assembler { config, phase, services }
            },
            Phase::AwaitChat => {
                let services = ResolvedServices {
                    embedding: services.embedding,
                    search: services.search,
                    completion: services.completion,
                    chat: handle,
                    prompt: services.prompt,
                };
                Assembler { config, phase: Phase::Ready, services }
            },
            Phase::Ready => Assembler { config, phase, services },
            Phase::Aborted(e) => Assembler { config, phase, services },
        }
    }

    /// The services of a ready assembly, the reason of an aborted one, and
    /// nothing while the assembly is under way.
    pub fn finish(self) -> (outcome: Option<Result<ResolvedServices, ResolveError>>)
        ensures
            self@.well_formed(),
            match self@.phase {
                Phase::Ready => outcome is Some && outcome.unwrap() is Ok
                    && outcome.unwrap().unwrap()@ == self@.services,
                Phase::Aborted(e) => outcome == Some(Err::<ResolvedServices, ResolveError>(e)),
                _ => outcome is None,
            },
    {
        proof {
            use_type_invariant(&self);
        }
        match self.phase {
            Phase::Ready => Some(Ok(self.services)),
            Phase::Aborted(e) => Some(Err(e)),
            _ => None,
        }
    }

    /// The route table of a ready assembly. An assembly that is under way
    /// or aborted has no routes.
    pub fn routes(&self) -> (table: Option<RouteTable>)
        ensures
            self@.well_formed(),
            match self@.phase {
                Phase::Ready => table is Some && table.unwrap()@ == route_plan(
                    self@.services,
                    self@.config,
                ),
                _ => table is None,
            },
    {
        proof {
            use_type_invariant(self);
        }
        match self.phase {
            Phase::Ready => Some(api_router(&self.config, &self.services)),
            _ => None,
        }
    }
}

impl Clone for Event {
    fn clone(&self) -> (copy: Self)
        ensures
            copy@ == self@,
    {
        match self {
            Event::Resolved { handle, prompt } => Event::Resolved {
                handle: *handle,
                prompt: clone_prompt(prompt),
            },
            Event::Failed => Event::Failed,
        }
    }
}

/// The views of a list of events, in order.
pub open spec fn events_view(events: Seq<Event>) -> Seq<EventView> {
    Seq::new(events.len(), |i: int| events[i]@)
}

impl Assembler {
    /// Takes in a run of events, in order.
    pub fn run(self, events: &Vec<Event>) -> (next: Assembler)
        ensures
            next@ == self@.run(events_view(events@)),
            next@.well_formed(),
    {
        proof {
            use_type_invariant(&self);
        }
        let ghost begin = self@;
        let ghost all = events_view(events@);
        let mut state = self;
        let mut i: usize = 0;
        assert(all.take(0) =~= Seq::<EventView>::empty());
        while i < events.len()
            invariant
                i <= events.len(),
                all == events_view(events@),
                state@ == begin.run(all.take(i as int)),
                state@.well_formed(),
            decreases events.len() - i,
        {
            proof {
                let upto = all.take(i + 1);
                assert(upto.drop_last() =~= all.take(i as int));
                assert(upto.last() == events[i as int]@);
            }
            state = state.step(events[i].clone());
            i = i + 1;
        }
        assert(all.take(i as int) =~= all);
        state
    }
}

/// An assembly begins in a well-formed state. A local embedding model
/// aborts it before anything is connected.
pub proof fn lemma_start_well_formed(config: ServerConfigView)
    ensures
        AssemblerView::start(config).well_formed(),
        AssemblerView::start(config).config == config,
        (config.model.embedding matches Some(ModelRoleView::Local(_))) ==> AssemblerView::start(
            config,
        ) == aborted(config, ResolveError::UnsupportedLocal(Role::Embedding)),
{
}

/// A step keeps the state well formed and the configuration as it is. It
/// brings an assembly that is under way closer to its end, and changes
/// nothing about one that has ended.
pub proof fn lemma_step_well_formed(state: AssemblerView, event: EventView)
    requires
        state.well_formed(),
    ensures
        state.step(event).well_formed(),
        state.step(event).config == state.config,
        state.phase.spec_is_final() ==> state.step(event) == state,
        !state.phase.spec_is_final() ==> state.step(event).phase.remaining()
            < state.phase.remaining(),
{
}

/// A run keeps the state well formed and the configuration as it is, and
/// after four events at the latest the assembly has ended.
pub proof fn lemma_run_well_formed(state: AssemblerView, events: Seq<EventView>)
    requires
        state.well_formed(),
    ensures
        state.run(events).well_formed(),
        state.run(events).config == state.config,
        state.run(events).phase.remaining() + events.len() <= state.phase.remaining()
            || state.run(events).phase.spec_is_final(),
        events.len() >= 4 ==> state.run(events).phase.spec_is_final(),
    decreases events.len(),
{
    if events.len() > 0 {
        lemma_run_well_formed(state, events.drop_last());
        lemma_step_well_formed(state.run(events.drop_last()), events.last());
    }
}

/// With a local model on any role the assembly never becomes ready,
/// however the backends answer. It ends aborted, and an aborted assembly
/// holds no service at all.
pub proof fn lemma_local_model_aborts(config: ServerConfigView, events: Seq<EventView>)
    requires
        config.model.has_local(),
    ensures
        !(AssemblerView::start(config).run(events).phase is Ready),
        events.len() >= 4 ==> AssemblerView::start(config).run(events).phase is Aborted,
        AssemblerView::start(config).run(events).phase is Aborted ==> AssemblerView::start(
            config,
        ).run(events).services == ResolvedServicesView::none(),
{
    lemma_start_well_formed(config);
    lemma_run_well_formed(AssemblerView::start(config), events);
}

/// Whether every event of a run reports success.
pub open spec fn all_resolved(events: Seq<EventView>) -> bool {
    forall|i: int| 0 <= i < events.len() ==> (#[trigger] events[i]).handle() is Some
}

/// Without a local model, and with every backend answering, the assembly
/// becomes ready with a service for each configured role, and with search
/// where there is embedding.
pub proof fn lemma_all_backends_answer(config: ServerConfigView, events: Seq<EventView>)
    requires
        !config.model.has_local(),
        all_resolved(events),
        events.len() >= 4,
    ensures
        AssemblerView::start(config).run(events).phase is Ready,
        AssemblerView::start(config).run(events).services.embedding is Some
            <==> config.model.embedding is Some,
        AssemblerView::start(config).run(events).services.search is Some
            <==> config.model.embedding is Some,
        AssemblerView::start(config).run(events).services.completion is Some
            <==> config.model.completion is Some,
        AssemblerView::start(config).run(events).services.chat is Some
            <==> config.model.chat is Some,
{
    let begin = AssemblerView::start(config);
    lemma_start_well_formed(config);
    lemma_progress(begin, events);
    lemma_run_well_formed(begin, events);
}

/// What holds of a state on the way to a ready assembly in which every
/// configured role has its service: nothing is local, nothing failed, and
/// each stage that lies behind has settled its service as configured.
spec fn on_course(state: AssemblerView) -> bool {
    let model = state.config.model;
    let services = state.services;
    let rank = state.phase.remaining();
    &&& !model.has_local()
    &&& !(state.phase is Aborted)
    &&& rank <= 3 ==> (services.embedding is Some <==> model.embedding is Some)
    &&& rank <= 2 ==> (services.search is Some <==> model.embedding is Some)
    &&& rank <= 1 ==> (services.completion is Some <==> model.completion is Some)
    &&& rank <= 0 ==> (services.chat is Some <==> model.chat is Some)
    &&& rank == 3 ==> model.embedding is Some
    &&& rank == 2 ==> model.completion is Some
    &&& rank == 1 ==> model.chat is Some
}

/// A run in which every backend answers keeps an assembly on course.
proof fn lemma_progress(state: AssemblerView, events: Seq<EventView>)
    requires
        state.well_formed(),
        on_course(state),
        all_resolved(events),
    ensures
        on_course(state.run(events)),
    decreases events.len(),
{
    if events.len() > 0 {
        let before = events.drop_last();
        assert(all_resolved(before)) by {
            assert forall|i: int| 0 <= i < before.len() implies (#[trigger] before[i]).handle()
                is Some by {
                assert(before[i] == events[i]);
            }
        }
        lemma_progress(state, before);
        lemma_run_well_formed(state, before);
        assert(events.last() == events[events.len() - 1]);
    }
}

/// The table of a ready assembly holds no chat route where no chat model
/// is configured, and never more than one. It holds exactly one where the
/// completion and the chat backend both came up.
pub proof fn lemma_chat_route_of_config(state: AssemblerView)
    requires
        state.well_formed(),
    ensures
        state.config.model.chat is None ==> occurrences(
            route_plan(state.services, state.config),
            Endpoint::ChatCompletions,
        ) == 0,
        occurrences(route_plan(state.services, state.config), Endpoint::ChatCompletions) <= 1,
        occurrences(route_plan(state.services, state.config), Endpoint::ChatCompletions) == 1
            <==> state.services.completion is Some && state.services.chat is Some,
{
    lemma_chat_route(state.services, state.config);
}

/// Where a chat model and a completion model are configured, no model is
/// local and every backend answers, the table holds exactly one chat
/// route.
pub proof fn lemma_chat_route_when_configured(config: ServerConfigView, events: Seq<EventView>)
    requires
        config.model.chat is Some,
        config.model.completion is Some,
        !config.model.has_local(),
        all_resolved(events),
        events.len() >= 4,
    ensures
        AssemblerView::start(config).run(events).phase is Ready,
        occurrences(
            route_plan(AssemblerView::start(config).run(events).services, config),
            Endpoint::ChatCompletions,
        ) == 1,
{
    lemma_all_backends_answer(config, events);
    lemma_chat_route(AssemblerView::start(config).run(events).services, config);
}

/// Where no completion model is configured, a request to the completions
/// path is answered with the fixed status: the path is there, and it never
/// leads to a backend.
pub proof fn lemma_completions_without_model(state: AssemblerView)
    requires
        state.well_formed(),
        state.config.model.completion is None,
    ensures
        dispatch_request(
            route_plan(state.services, state.config),
            Method::Post,
            "/v1/completions"@,
        ) == Dispatch::Status(NOT_IMPLEMENTED),
{
    lemma_completions_route(state.services, state.config);
}

} // verus!
