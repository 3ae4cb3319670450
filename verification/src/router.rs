//! Two providers behind one agent: which models a session is offered, which provider answers
//! it, and what is cancelled in it.

use vstd::hash_map::StringHashMap;
use vstd::prelude::*;

use crate::catalog;
use crate::catalog::{codex_model_id, offer_models, ModelState, ModelStateView, CODEX_MODEL_PREFIX};
use crate::error;
use crate::error::{codex_error, AgentError, AgentErrorView, ErrorKind};
use crate::json;
use crate::json::{Json, Tree};
use crate::models::{CodexStatus, CodexStatusView};
use crate::protocol;
use crate::rpc::{result_view, Call, CallView};
use crate::server;
use crate::text;
use crate::text::{same_text, strip_prefix};

verus! {

/// Who answers the prompts of a session.
pub enum ActiveProvider {
    Grok,
    Codex { model: String },
}

/// Who answers the prompts of a session.
pub enum ProviderView {
    Grok,
    Codex { model: Seq<char> },
}

impl DeepView for ActiveProvider {
    type V = ProviderView;

    open spec fn deep_view(&self) -> ProviderView {
        match self {
            ActiveProvider::Grok => ProviderView::Grok,
            ActiveProvider::Codex { model } => ProviderView::Codex { model: model@ },
        }
    }
}

impl ActiveProvider {
    fn copy(&self) -> (r: ActiveProvider)
        ensures
            r.deep_view() == self.deep_view(),
    {
        match self {
            ActiveProvider::Grok => ActiveProvider::Grok,
            ActiveProvider::Codex { model } => ActiveProvider::Codex { model: model.clone() },
        }
    }
}

/// A session: where it works, who answers it, and what it has on the Codex side.
pub struct SessionRoute {
    pub cwd: String,
    pub active: ActiveProvider,
    pub codex_thread_id: Option<String>,
    pub active_codex_turn_id: Option<String>,
}

/// What a session means.
pub struct RouteView {
    pub cwd: Seq<char>,
    pub active: ProviderView,
    pub codex_thread_id: Option<Seq<char>>,
    pub active_codex_turn_id: Option<Seq<char>>,
}

impl DeepView for SessionRoute {
    type V = RouteView;

    open spec fn deep_view(&self) -> RouteView {
        RouteView {
            cwd: self.cwd@,
            active: self.active.deep_view(),
            codex_thread_id: self.codex_thread_id.deep_view(),
            active_codex_turn_id: self.active_codex_turn_id.deep_view(),
        }
    }
}

impl SessionRoute {
    fn copy(&self) -> (r: SessionRoute)
        ensures
            r.deep_view() == self.deep_view(),
    {
        SessionRoute {
            cwd: self.cwd.clone(),
            active: self.active.copy(),
            codex_thread_id: self.codex_thread_id.clone(),
            active_codex_turn_id: self.active_codex_turn_id.clone(),
        }
    }
}

/// The agent: what is known of the Codex account, and the sessions.
pub struct GroxAgent {
    codex: Option<CodexStatus>,
    codex_unavailable: Option<String>,
    sessions: StringHashMap<SessionRoute>,
}

/// What the agent holds: the account where it is connected, why it is not where that is
/// known, and the sessions.
#[verifier::ext_equal]
pub struct AgentView {
    pub codex: Option<CodexStatusView>,
    pub codex_unavailable: Option<Seq<char>>,
    pub sessions: Map<Seq<char>, RouteView>,
}

impl View for GroxAgent {
    type V = AgentView;

    closed spec fn view(&self) -> AgentView {
        AgentView {
            codex: self.codex.deep_view(),
            codex_unavailable: self.codex_unavailable.deep_view(),
            sessions: self.sessions@.map_values(|route: SessionRoute| route.deep_view()),
        }
    }
}

/// The account, or the error where it is not connected.
pub open spec fn backend(agent: AgentView) -> Result<CodexStatusView, AgentErrorView> {
    match agent.codex {
        Some(status) => Ok(status),
        None => {
            let detail = match agent.codex_unavailable {
                Some(error) => error,
                None => "Codex was not discovered"@,
            };
            Err(
                error::internal(
                    "Codex subscription is unavailable: "@ + detail
                        + ". Run `codex login`, then restart Grox."@,
                ),
            )
        },
    }
}

/// The agent after the search for Codex, which found the account, or why there is none.
pub open spec fn after_discovery(
    agent: AgentView,
    outcome: Result<CodexStatusView, Seq<char>>,
) -> AgentView {
    match outcome {
        Ok(status) => AgentView { codex: Some(status), ..agent },
        Err(error) => AgentView { codex_unavailable: Some(error), ..agent },
    }
}

/// Whether Codex is still to be looked for.
pub open spec fn undiscovered(agent: AgentView) -> bool {
    agent.codex is None && agent.codex_unavailable is None
}

/// The models of a session with those of the account, where it is connected.
pub open spec fn merged_models(agent: AgentView, state: ModelStateView) -> ModelStateView {
    match agent.codex {
        Some(status) => catalog::with_offer(state, status),
        None => state,
    }
}

/// What is reported of the two providers.
pub open spec fn providers(agent: AgentView) -> Tree {
    let codex = match agent.codex {
        Some(status) => Tree::empty()
            .with("connected"@, Tree::Bool(true))
            .with("account"@, Tree::Text(status.account_label)),
        None => Tree::empty()
            .with("connected"@, Tree::Bool(false))
            .with("error"@, json::text_or_null(agent.codex_unavailable)),
    };
    Tree::empty()
        .with("grok"@, Tree::empty().with("connected"@, Tree::Bool(true)))
        .with("codex"@, codex)
}

/// `meta`, which has the models `state`, with those of the account and a report of the
/// providers.
pub open spec fn merged_meta(agent: AgentView, meta: Tree, state: ModelStateView) -> Tree {
    meta
        .with("modelState"@, protocol::state_tree(merged_models(agent, state)))
        .with("groxProviders"@, providers(agent))
}

/// What is attached to the answer to an introduction: as it was, unless it has models that
/// can be read.
pub open spec fn initialize_meta(agent: AgentView, meta: Option<Tree>) -> Option<Tree> {
    match meta {
        Some(meta) => match meta.get("modelState"@) {
            Some(value) => match protocol::session_state(value) {
                Some(state) => Some(merged_meta(agent, meta, state)),
                None => Some(meta),
            },
            None => Some(meta),
        },
        None => None,
    }
}

proof fn lemma_merged_wf(agent: AgentView, state: ModelStateView)
    requires
        protocol::state_wf(state),
    ensures
        protocol::state_wf(merged_models(agent, state)),
{
    if let Some(status) = agent.codex {
        catalog::law_offer_keeps_and_completes(state, status);
        let had = state.available_models;
        let has = merged_models(agent, state).available_models;
        assert forall|k: int| 0 <= k < has.len() implies protocol::meta_wf(
            (#[trigger] has[k]).meta,
        ) by {
            if k < had.len() {
                assert(has.take(had.len() as int)[k] == has[k]);
                assert(protocol::meta_wf(had[k].meta));
            } else {
                let i = choose|i: int|
                    0 <= i < status.models.len() && has[k] == catalog::codex_info(
                        #[trigger] status.models[i],
                        status.account_label,
                    );
                assert(has[k] == catalog::codex_info(status.models[i], status.account_label));
            }
        }
    }
}

impl GroxAgent {
    /// An agent without sessions that has not looked for Codex yet.
    pub fn new() -> (r: GroxAgent)
        ensures
            r@ == (AgentView { codex: None, codex_unavailable: None, sessions: Map::empty() }),
    {
        let r = GroxAgent {
            codex: None,
            codex_unavailable: None,
            sessions: StringHashMap::new(),
        };
        assert(r@.sessions =~= Map::empty());
        r
    }

    /// Whether Codex is still to be looked for: neither has it been found nor is it known to
    /// be unavailable.
    pub fn needs_discovery(&self) -> (r: bool)
        ensures
            r == undiscovered(self@),
    {
        self.codex.is_none() && self.codex_unavailable.is_none()
    }

    /// Takes in what the search for Codex came to: the account, or why there is none.
    pub fn discovered(&mut self, outcome: Result<CodexStatus, String>)
        ensures
            final(self)@ == after_discovery(old(self)@, result_view(outcome)),
    {
        match outcome {
            Ok(status) => {
                self.codex = Some(status);
            },
            Err(error) => {
                self.codex_unavailable = Some(error);
            },
        }
    }

    /// The account, or the error where it is not connected.
    pub fn codex_backend(&self) -> (r: Result<&CodexStatus, AgentError>)
        ensures
            result_view(r) == backend(self@),
    {
        match &self.codex {
            Some(status) => Ok(status),
            None => {
                let detail: &str = match &self.codex_unavailable {
                    Some(error) => error.as_str(),
                    None => "Codex was not discovered",
                };
                let mut data: String = "Codex subscription is unavailable: ".to_owned();
                data.append(detail);
                data.append(". Run `codex login`, then restart Grox.");
                Err(AgentError::internal_error(data.as_str()))
            },
        }
    }

    /// Adds the models of the account, where it is connected, to those of a session.
    pub fn merge_model_state(&self, state: &mut ModelState)
        ensures
            final(state).deep_view() == merged_models(self@, old(state).deep_view()),
    {
        if let Some(status) = &self.codex {
            offer_models(state, status);
        }
    }

    /// Adds the models of the account to those that a new or loaded session reports, where
    /// it reports any.
    pub fn merge_response_models(&self, models: Option<ModelState>) -> (r: Option<ModelState>)
        ensures
            r.deep_view() == (match models {
                Some(state) => Some(merged_models(self@, state.deep_view())),
                None => None,
            }),
    {
        match models {
            Some(state) => {
                let mut state = state;
                self.merge_model_state(&mut state);
                Some(state)
            },
            None => None,
        }
    }

    fn report_providers(&self) -> (r: Json)
        ensures
            r@ == providers(self@),
    {
        let codex = match &self.codex {
            Some(status) => Json::object().with("connected", Json::Bool(true)).with_text(
                "account",
                status.account_label.as_str(),
            ),
            None => {
                let error: Option<&str> = match &self.codex_unavailable {
                    Some(error) => Some(error.as_str()),
                    None => None,
                };
                Json::object().with("connected", Json::Bool(false)).with(
                    "error",
                    Json::text_or_null(error),
                )
            },
        };
        Json::object().with("grok", Json::object().with("connected", Json::Bool(true))).with(
            "codex",
            codex,
        )
    }

    /// `meta`, which has the models `state`, with those of the account and a report of the
    /// providers.
    pub fn merge_meta(&self, meta: Json, state: ModelState) -> (r: Json)
        requires
            protocol::state_wf(state.deep_view()),
        ensures
            r@ == merged_meta(self@, meta@, state.deep_view()),
    {
        proof {
            lemma_merged_wf(self@, state.deep_view());
        }
        let mut state = state;
        self.merge_model_state(&mut state);
        meta.with("modelState", protocol::format_state(&state)).with(
            "groxProviders",
            self.report_providers(),
        )
    }

    /// What is to be attached to the answer to an introduction, where `meta` is: the same,
    /// unless it has models that can be read, which are then merged with the account's.
    pub fn merge_initialize_models(&self, meta: Option<Json>) -> (r: Option<Json>)
        ensures
            r.deep_view() == initialize_meta(self@, meta.deep_view()),
    {
        let meta = match meta {
            Some(meta) => meta,
            None => {
                return None;
            },
        };
        let state = match meta.get("modelState") {
            Some(value) => protocol::parse_state(value),
            None => None,
        };
        match state {
            Some(state) => Some(self.merge_meta(meta, state)),
            None => Some(meta),
        }
    }
}

impl AgentView {
    /// The agent with the session `id` as given.
    pub open spec fn with_session(self, id: Seq<char>, route: RouteView) -> AgentView {
        AgentView { sessions: self.sessions.insert(id, route), ..self }
    }

    /// The agent with another provider for the session `id`, where there is one.
    pub open spec fn with_provider(self, id: Seq<char>, active: ProviderView) -> AgentView {
        if self.sessions.contains_key(id) {
            self.with_session(id, RouteView { active, ..self.sessions[id] })
        } else {
            self
        }
    }

    /// The agent with a Codex thread for the session `id`, where there is one.
    pub open spec fn with_thread(self, id: Seq<char>, thread_id: Seq<char>) -> AgentView {
        if self.sessions.contains_key(id) {
            self.with_session(
                id,
                RouteView { codex_thread_id: Some(thread_id), ..self.sessions[id] },
            )
        } else {
            self
        }
    }

    /// The agent with the turn that runs, or none, in the session `id`, where there is one.
    pub open spec fn with_turn(self, id: Seq<char>, turn_id: Option<Seq<char>>) -> AgentView {
        if self.sessions.contains_key(id) {
            self.with_session(
                id,
                RouteView { active_codex_turn_id: turn_id, ..self.sessions[id] },
            )
        } else {
            self
        }
    }
}

/// A session that has just been opened: Grok answers it.
pub open spec fn opened(cwd: Seq<char>) -> RouteView {
    RouteView {
        cwd,
        active: ProviderView::Grok,
        codex_thread_id: None,
        active_codex_turn_id: None,
    }
}

/// Who answers a prompt of the session `id`: Grok, where there is no such session.
pub open spec fn provider_of(agent: AgentView, id: Seq<char>) -> ProviderView {
    if agent.sessions.contains_key(id) {
        agent.sessions[id].active
    } else {
        ProviderView::Grok
    }
}

/// What is to be done to set the model of a session.
pub enum ModelSwitch {
    /// Ask Grok to set it; see [`GroxAgent::grok_model_set`].
    Grok,
    /// It is set, and this is attached to the answer.
    Switched(Json),
    /// It cannot be set.
    Refused(AgentError),
}

/// What a switch of the model means.
pub enum ModelSwitchView {
    Grok,
    Switched(Tree),
    Refused(AgentErrorView),
}

impl DeepView for ModelSwitch {
    type V = ModelSwitchView;

    open spec fn deep_view(&self) -> ModelSwitchView {
        match self {
            ModelSwitch::Grok => ModelSwitchView::Grok,
            ModelSwitch::Switched(meta) => ModelSwitchView::Switched(meta@),
            ModelSwitch::Refused(error) => ModelSwitchView::Refused(error.deep_view()),
        }
    }
}

/// Whether the account has a model.
pub open spec fn has_model(status: CodexStatusView, id: Seq<char>) -> bool {
    exists|i: int| 0 <= i < status.models.len() && (#[trigger] status.models[i]).id == id
}

/// What is attached to the answer where a session goes over to a model of the account.
pub open spec fn switched_meta(model: Seq<char>) -> Tree {
    Tree::empty()
        .with("provider"@, Tree::Text("codex"@))
        .with("modelId"@, Tree::Text(catalog::codex_id(model)))
        .with(
            "context"@,
            Tree::Text("Codex and Grok keep separate conversation branches in this session"@),
        )
}

/// What comes of setting the model of the session `id`. One without the prefix of the Codex
/// models is for Grok to set. One of the account can be set in a session that has no turn
/// running.
pub open spec fn model_switch(
    agent: AgentView,
    id: Seq<char>,
    model_id: Seq<char>,
) -> ModelSwitchView {
    match text::without_prefix(model_id, CODEX_MODEL_PREFIX@) {
        None => ModelSwitchView::Grok,
        Some(model) => match backend(agent) {
            Err(error) => ModelSwitchView::Refused(error),
            Ok(status) => if !has_model(status, model) {
                ModelSwitchView::Refused(
                    error::invalid("unknown Codex subscription model: "@ + model),
                )
            } else if !agent.sessions.contains_key(id) {
                ModelSwitchView::Refused(error::invalid("unknown Grox session"@))
            } else if agent.sessions[id].active_codex_turn_id is Some {
                ModelSwitchView::Refused(
                    error::invalid(
                        "cancel or finish the active Codex turn before switching models"@,
                    ),
                )
            } else {
                ModelSwitchView::Switched(switched_meta(model))
            },
        },
    }
}

/// The agent after the model of the session `id` was to be set: Codex answers the session
/// where it goes over to one of its models, and otherwise nothing has changed yet.
pub open spec fn after_switch(agent: AgentView, id: Seq<char>, model_id: Seq<char>) -> AgentView {
    if model_switch(agent, id, model_id) is Switched {
        agent.with_provider(
            id,
            ProviderView::Codex { model: text::without_prefix(model_id, CODEX_MODEL_PREFIX@)->0 },
        )
    } else {
        agent
    }
}

/// The agent after Grok was to set the model of the session `id`: Grok answers the session
/// where it has, and otherwise nothing has changed.
pub open spec fn after_grok<R, E>(
    agent: AgentView,
    id: Seq<char>,
    outcome: Result<R, E>,
) -> AgentView {
    match outcome {
        Ok(_) => agent.with_provider(id, ProviderView::Grok),
        Err(_) => agent,
    }
}

/// What is to be done to cancel what a session does.
pub enum Cancellation {
    /// Ask Grok to.
    Grok,
    /// Make this call on the app-server; see [`interrupted`].
    Interrupt(Call),
    /// It cannot be cancelled.
    Failed(AgentError),
}

/// What a cancellation means.
pub enum CancellationView {
    Grok,
    Interrupt(CallView),
    Failed(AgentErrorView),
}

impl DeepView for Cancellation {
    type V = CancellationView;

    open spec fn deep_view(&self) -> CancellationView {
        match self {
            Cancellation::Grok => CancellationView::Grok,
            Cancellation::Interrupt(call) => CancellationView::Interrupt(call@),
            Cancellation::Failed(error) => CancellationView::Failed(error.deep_view()),
        }
    }
}

/// What is to be done to cancel what the session `id` does: where a Codex turn runs in it,
/// that turn is interrupted.
pub open spec fn cancellation(agent: AgentView, id: Seq<char>) -> CancellationView {
    let route = agent.sessions[id];
    if agent.sessions.contains_key(id) && route.codex_thread_id is Some
        && route.active_codex_turn_id is Some {
        match backend(agent) {
            Ok(_) => CancellationView::Interrupt(
                server::interrupt_view(route.codex_thread_id->0, route.active_codex_turn_id->0),
            ),
            Err(error) => CancellationView::Failed(error),
        }
    } else {
        CancellationView::Grok
    }
}

/// What the interruption of a turn comes to for the client.
pub open spec fn done(outcome: Result<Tree, Seq<char>>) -> Result<(), AgentErrorView> {
    match server::interrupt_outcome(outcome) {
        Ok(()) => Ok(()),
        Err(error) => Err(error::codex_failure(error)),
    }
}

/// What the interruption of a turn comes to for the client.
pub fn interrupted(outcome: Result<Json, String>) -> (r: Result<(), AgentError>)
    ensures
        result_view(r) == done(result_view(outcome)),
{
    match server::end_interrupt(outcome) {
        Ok(()) => Ok(()),
        Err(error) => Err(codex_error(error.as_str())),
    }
}

impl GroxAgent {
    fn put(&mut self, id: &str, route: SessionRoute)
        ensures
            final(self)@ == old(self)@.with_session(id@, route.deep_view()),
    {
        self.sessions.insert(id.to_owned(), route);
        assert(self@ =~= old(self)@.with_session(id@, route.deep_view()));
    }

    pub(crate) fn find(&self, id: &str) -> (r: Option<&SessionRoute>)
        ensures
            match r {
                Some(route) => self@.sessions.contains_key(id@) && route.deep_view()
                    == self@.sessions[id@],
                None => !self@.sessions.contains_key(id@),
            },
    {
        self.sessions.get(id)
    }

    /// Opens the session `id`, new or loaded, in the directory `cwd`.
    pub fn open_session(&mut self, id: &str, cwd: &str)
        ensures
            final(self)@ == old(self)@.with_session(id@, opened(cwd@)),
    {
        self.put(
            id,
            SessionRoute {
                cwd: cwd.to_owned(),
                active: ActiveProvider::Grok,
                codex_thread_id: None,
                active_codex_turn_id: None,
            },
        );
    }

    /// Who answers a prompt of the session `id`: Grok, where there is no such session.
    pub fn provider(&self, id: &str) -> (r: ActiveProvider)
        ensures
            r.deep_view() == provider_of(self@, id@),
    {
        match self.find(id) {
            Some(route) => route.active.copy(),
            None => ActiveProvider::Grok,
        }
    }

    pub(crate) fn set_thread(&mut self, id: &str, thread_id: &str)
        ensures
            final(self)@ == old(self)@.with_thread(id@, thread_id@),
    {
        if let Some(route) = self.find(id) {
            let route = route.copy();
            self.put(id, SessionRoute { codex_thread_id: Some(thread_id.to_owned()), ..route });
        }
    }

    pub(crate) fn set_turn(&mut self, id: &str, turn_id: Option<String>)
        ensures
            final(self)@ == old(self)@.with_turn(id@, turn_id.deep_view()),
    {
        if let Some(route) = self.find(id) {
            let route = route.copy();
            self.put(id, SessionRoute { active_codex_turn_id: turn_id, ..route });
        }
    }

    fn set_provider(&mut self, id: &str, active: ActiveProvider)
        ensures
            final(self)@ == old(self)@.with_provider(id@, active.deep_view()),
    {
        if let Some(route) = self.find(id) {
            let route = route.copy();
            self.put(id, SessionRoute { active, ..route });
        }
    }

    /// Takes note that no turn runs in the session `id` any more.
    pub fn clear_active_turn(&mut self, id: &str)
        ensures
            final(self)@ == old(self)@.with_turn(id@, None),
    {
        self.set_turn(id, None);
    }

    /// Sets the model of the session `id`, as far as it is not for Grok to set.
    pub fn set_session_model(&mut self, id: &str, model_id: &str) -> (r: ModelSwitch)
        ensures
            r.deep_view() == model_switch(old(self)@, id@, model_id@),
            final(self)@ == after_switch(old(self)@, id@, model_id@),
    {
        let model = match strip_prefix(model_id, CODEX_MODEL_PREFIX) {
            Some(model) => model,
            None => {
                return ModelSwitch::Grok;
            },
        };
        match self.codex_backend() {
            Ok(status) => {
                if !lists_model(status, model) {
                    let mut data: String = "unknown Codex subscription model: ".to_owned();
                    data.append(model);
                    return ModelSwitch::Refused(AgentError::invalid_params(data.as_str()));
                }
            },
            Err(error) => {
                return ModelSwitch::Refused(error);
            },
        }
        match self.find(id) {
            Some(route) => {
                if route.active_codex_turn_id.is_some() {
                    return ModelSwitch::Refused(
                        AgentError::invalid_params(
                            "cancel or finish the active Codex turn before switching models",
                        ),
                    );
                }
            },
            None => {
                return ModelSwitch::Refused(AgentError::invalid_params("unknown Grox session"));
            },
        }
        self.set_provider(id, ActiveProvider::Codex { model: model.to_owned() });
        ModelSwitch::Switched(
            Json::object().with_text("provider", "codex").with_text(
                "modelId",
                codex_model_id(model).as_str(),
            ).with_text(
                "context",
                "Codex and Grok keep separate conversation branches in this session",
            ),
        )
    }

    /// Takes in what Grok made of setting the model of the session `id`, and hands it on.
    /// Where Grok has set it, Grok answers the session from now on.
    pub fn grok_model_set<R, E>(&mut self, id: &str, outcome: Result<R, E>) -> (r: Result<R, E>)
        ensures
            r == outcome,
            final(self)@ == after_grok(old(self)@, id@, outcome),
    {
        if outcome.is_ok() {
            self.set_provider(id, ActiveProvider::Grok);
        }
        outcome
    }

    /// What is to be done to cancel what the session `id` does.
    pub fn cancel(&self, id: &str) -> (r: Cancellation)
        ensures
            r.deep_view() == cancellation(self@, id@),
    {
        let route = match self.find(id) {
            Some(route) => route,
            None => {
                return Cancellation::Grok;
            },
        };
        match (&route.codex_thread_id, &route.active_codex_turn_id) {
            (Some(thread_id), Some(turn_id)) => match self.codex_backend() {
                Ok(_) => Cancellation::Interrupt(
                    server::interrupt(thread_id.as_str(), turn_id.as_str()),
                ),
                Err(error) => Cancellation::Failed(error),
            },
            _ => Cancellation::Grok,
        }
    }
}

fn lists_model(status: &CodexStatus, id: &str) -> (r: bool)
    ensures
        r == has_model(status.deep_view(), id@),
{
    let ghost all = status.deep_view().models;
    let mut i: usize = 0;
    while i < status.models.len()
        invariant
            0 <= i <= status.models@.len(),
            all == status.models.deep_view(),
            forall|k: int| 0 <= k < i ==> (#[trigger] all[k]).id != id@,
        decreases status.models@.len() - i,
    {
        assert(all[i as int].id == status.models@[i as int].id@);
        if same_text(status.models[i].id.as_str(), id) {
            assert(status.deep_view().models[i as int].id == id@);
            return true;
        }
        i += 1;
    }
    false
}

/// Codex is looked for at most once: whatever the search comes to, it is not needed again,
/// and what it found is what there is from then on.
pub proof fn law_codex_is_looked_for_once(
    agent: AgentView,
    outcome: Result<CodexStatusView, Seq<char>>,
)
    requires
        undiscovered(agent),
    ensures
        !undiscovered(after_discovery(agent, outcome)),
        after_discovery(agent, outcome).sessions == agent.sessions,
        match outcome {
            Ok(status) => backend(after_discovery(agent, outcome)) == Ok::<_, AgentErrorView>(
                status,
            ),
            Err(error) => backend(after_discovery(agent, outcome)) == Err::<CodexStatusView, _>(
                error::internal(
                    "Codex subscription is unavailable: "@ + error
                        + ". Run `codex login`, then restart Grox."@,
                ),
            ),
        },
{
}

/// A session that goes over to a model of the account is answered by that model from then
/// on. Its directory and its thread stay, and so do all other sessions.
pub proof fn law_selected_model_answers(agent: AgentView, id: Seq<char>, model: Seq<char>)
    requires
        model_switch(agent, id, catalog::codex_id(model)) is Switched,
    ensures
        ({
            let after = after_switch(agent, id, catalog::codex_id(model));
            &&& provider_of(after, id) == ProviderView::Codex { model }
            &&& after.sessions[id].cwd == agent.sessions[id].cwd
            &&& after.sessions[id].codex_thread_id == agent.sessions[id].codex_thread_id
            &&& after.sessions.dom() == agent.sessions.dom()
            &&& forall|other: Seq<char>|
                other != id && agent.sessions.contains_key(other) ==> #[trigger] after.sessions[other]
                    == agent.sessions[other]
            &&& after.codex == agent.codex
            &&& after.codex_unavailable == agent.codex_unavailable
        }),
{
    catalog::law_codex_ids_are_collision_safe(model, model);
    let after = after_switch(agent, id, catalog::codex_id(model));
    assert(after.sessions.dom() =~= agent.sessions.dom());
}

/// A session goes over to a model of the account exactly where the account is connected and
/// has the model, there is such a session, and no turn runs in it. Otherwise it is refused,
/// and nothing changes.
pub proof fn law_when_codex_can_be_selected(agent: AgentView, id: Seq<char>, model: Seq<char>)
    ensures
        model_switch(agent, id, catalog::codex_id(model)) is Switched <==> {
            &&& agent.codex is Some
            &&& has_model(agent.codex->0, model)
            &&& agent.sessions.contains_key(id)
            &&& agent.sessions[id].active_codex_turn_id is None
        },
        model_switch(agent, id, catalog::codex_id(model)) !is Grok,
        model_switch(agent, id, catalog::codex_id(model)) is Refused ==> after_switch(
            agent,
            id,
            catalog::codex_id(model),
        ) == agent,
{
    catalog::law_codex_ids_are_collision_safe(model, model);
}

/// Every model of the account that a session is offered can be selected in it, as long as no
/// turn runs in it.
pub proof fn law_offered_models_can_be_selected(agent: AgentView, id: Seq<char>, i: int)
    requires
        agent.codex is Some,
        0 <= i < agent.codex->0.models.len(),
        agent.sessions.contains_key(id),
        agent.sessions[id].active_codex_turn_id is None,
    ensures
        model_switch(
            agent,
            id,
            catalog::codex_info(agent.codex->0.models[i], agent.codex->0.account_label).model_id,
        ) is Switched,
{
    let status = agent.codex->0;
    assert(has_model(status, status.models[i].id));
    law_when_codex_can_be_selected(agent, id, status.models[i].id);
}

/// What Grok knows as a model is for Grok to set, and once it has, Grok answers the session;
/// what the session has on the Codex side stays. Where Grok fails to, nothing changes.
pub proof fn law_grok_models_are_left_to_grok<R, E>(
    agent: AgentView,
    id: Seq<char>,
    model_id: Seq<char>,
    outcome: Result<R, E>,
)
    requires
        !text::has_prefix(model_id, CODEX_MODEL_PREFIX@),
    ensures
        model_switch(agent, id, model_id) is Grok,
        after_switch(agent, id, model_id) == agent,
        outcome is Ok ==> provider_of(after_grok(agent, id, outcome), id) is Grok,
        outcome is Err ==> after_grok(agent, id, outcome) == agent,
        agent.sessions.contains_key(id) ==> {
            let after = after_grok(agent, id, outcome).sessions[id];
            &&& after.cwd == agent.sessions[id].cwd
            &&& after.codex_thread_id == agent.sessions[id].codex_thread_id
            &&& after.active_codex_turn_id == agent.sessions[id].active_codex_turn_id
        },
{
}

/// A session that has just been opened, and one that was never opened, is answered by Grok,
/// and what it does is for Grok to cancel.
pub proof fn law_grok_is_the_default(agent: AgentView, id: Seq<char>, cwd: Seq<char>)
    ensures
        provider_of(agent.with_session(id, opened(cwd)), id) is Grok,
        cancellation(agent.with_session(id, opened(cwd)), id) is Grok,
        !agent.sessions.contains_key(id) ==> provider_of(agent, id) is Grok,
        !agent.sessions.contains_key(id) ==> cancellation(agent, id) is Grok,
{
}

/// The report of the providers says that Codex is connected exactly where it is, and then
/// names the account.
pub proof fn law_providers_are_reported(agent: AgentView)
    ensures
        json::is_true(json::at(providers(agent).get("grok"@), "connected"@)),
        json::is_true(json::at(providers(agent).get("codex"@), "connected"@)) <==> agent.codex
            is Some,
        agent.codex is Some ==> json::text_of(
            json::at(providers(agent).get("codex"@), "account"@),
        ) == Some(agent.codex->0.account_label),
        agent.codex is None ==> json::text_of(json::at(providers(agent).get("codex"@), "error"@))
            == agent.codex_unavailable,
{
    reveal_strlit("grok");
    reveal_strlit("codex");
    reveal_strlit("connected");
    reveal_strlit("account");
    reveal_strlit("error");
    assert("grok"@.len() == 4 && "codex"@.len() == 5 && "connected"@.len() == 9 && "account"@.len()
        == 7 && "error"@.len() == 5);
}

/// What is attached to the answer to an introduction is kept but for the models and the
/// report of the providers.
pub proof fn law_introduction_is_kept(agent: AgentView, meta: Tree, name: Seq<char>)
    requires
        name != "modelState"@,
        name != "groxProviders"@,
    ensures
        initialize_meta(agent, Some(meta)) is Some,
        initialize_meta(agent, Some(meta))->0.get(name) == meta.get(name),
{
}

/// The account can be used exactly where it is connected; otherwise the error says why it is
/// not, as far as that is known, and what to do.
pub proof fn law_the_account_is_there_or_missing_for_a_reason(agent: AgentView)
    ensures
        agent.codex matches Some(status) ==> backend(agent) == Ok::<_, AgentErrorView>(status),
        agent.codex is None ==> (backend(agent) matches Err(error) && error.kind
            == ErrorKind::Internal && error.data == "Codex subscription is unavailable: "@ + (
        match agent.codex_unavailable {
            Some(reason) => reason,
            None => "Codex was not discovered"@,
        }) + ". Run `codex login`, then restart Grox."@),
{
}

/// A session is opened in the directory that was given, and just that one; Grok answers it, and
/// it has neither a thread nor a turn.
pub proof fn law_sessions_are_opened_where_they_are_asked_for(
    agent: AgentView,
    id: Seq<char>,
    cwd: Seq<char>,
)
    ensures
        ({
            let after = agent.with_session(id, opened(cwd));
            &&& after.sessions.contains_key(id)
            &&& after.sessions[id].cwd == cwd
            &&& after.sessions[id].active is Grok
            &&& after.sessions[id].codex_thread_id is None
            &&& after.sessions[id].active_codex_turn_id is None
        }),
{
}

/// Whether nothing but the session `id` differs between two agents.
pub open spec fn same_but_for(a: AgentView, b: AgentView, id: Seq<char>) -> bool {
    &&& a.codex == b.codex
    &&& a.codex_unavailable == b.codex_unavailable
    &&& forall|other: Seq<char>|
        other != id ==> (#[trigger] a.sessions.contains_key(other) <==> b.sessions.contains_key(
            other,
        )) && (a.sessions.contains_key(other) ==> a.sessions[other] == b.sessions[other])
}

/// What is noted of a session is noted of that session alone: the provider, the thread or the
/// turn is as noted, the rest of the session stays, and so does everything else. Nothing is
/// noted of a session that does not exist.
pub proof fn law_notes_are_of_one_session(
    agent: AgentView,
    id: Seq<char>,
    route: RouteView,
    active: ProviderView,
    thread_id: Seq<char>,
    turn_id: Option<Seq<char>>,
)
    ensures
        same_but_for(agent.with_session(id, route), agent, id),
        agent.with_session(id, route).sessions.contains_key(id),
        agent.with_session(id, route).sessions[id] == route,
        same_but_for(agent.with_provider(id, active), agent, id),
        same_but_for(agent.with_thread(id, thread_id), agent, id),
        same_but_for(agent.with_turn(id, turn_id), agent, id),
        !agent.sessions.contains_key(id) ==> {
            &&& agent.with_provider(id, active) == agent
            &&& agent.with_thread(id, thread_id) == agent
            &&& agent.with_turn(id, turn_id) == agent
        },
        agent.sessions.contains_key(id) ==> {
            let old = agent.sessions[id];
            let provider = agent.with_provider(id, active).sessions;
            let thread = agent.with_thread(id, thread_id).sessions;
            let turn = agent.with_turn(id, turn_id).sessions;
            &&& provider.contains_key(id) && thread.contains_key(id) && turn.contains_key(id)
            &&& provider[id].active == active
            &&& provider[id].cwd == old.cwd
            &&& provider[id].codex_thread_id == old.codex_thread_id
            &&& provider[id].active_codex_turn_id == old.active_codex_turn_id
            &&& thread[id].codex_thread_id == Some(thread_id)
            &&& thread[id].cwd == old.cwd
            &&& thread[id].active == old.active
            &&& thread[id].active_codex_turn_id == old.active_codex_turn_id
            &&& turn[id].active_codex_turn_id == turn_id
            &&& turn[id].cwd == old.cwd
            &&& turn[id].active == old.active
            &&& turn[id].codex_thread_id == old.codex_thread_id
        },
{
}

/// A prompt goes to whoever the session is set to, and to Grok where there is no such session.
pub proof fn law_prompts_go_to_the_active_provider(agent: AgentView, id: Seq<char>)
    ensures
        agent.sessions.contains_key(id) ==> provider_of(agent, id) == agent.sessions[id].active,
        !agent.sessions.contains_key(id) ==> provider_of(agent, id) is Grok,
{
}

/// A model of the account that cannot be selected is refused for the first reason that there is:
/// no account, no such model, no such session, or a turn that still runs. Where it is selected,
/// the answer says so.
pub proof fn law_refused_switches_say_why(agent: AgentView, id: Seq<char>, model: Seq<char>)
    ensures
        ({
            let switch = model_switch(agent, id, "codex:"@ + model);
            let known = agent.codex is Some && exists|i: int|
                0 <= i < agent.codex->0.models.len() && (
                #[trigger] agent.codex->0.models[i]).id == model;
            let invalid = |text: Seq<char>|
                ModelSwitchView::Refused(
                    AgentErrorView { kind: ErrorKind::InvalidParams, data: text },
                );
            &&& agent.codex is None ==> switch == ModelSwitchView::Refused(backend(agent)->Err_0)
            &&& agent.codex is Some && !known ==> switch == invalid(
                "unknown Codex subscription model: "@ + model,
            )
            &&& known && !agent.sessions.contains_key(id) ==> switch == invalid(
                "unknown Grox session"@,
            )
            &&& known && agent.sessions.contains_key(id)
                && agent.sessions[id].active_codex_turn_id is Some ==> switch == invalid(
                "cancel or finish the active Codex turn before switching models"@,
            )
            &&& known && agent.sessions.contains_key(id)
                && agent.sessions[id].active_codex_turn_id is None ==> (
            switch matches ModelSwitchView::Switched(meta) && {
                &&& meta.get("provider"@) == Some(Tree::Text("codex"@))
                &&& meta.get("modelId"@) == Some(Tree::Text("codex:"@ + model))
                &&& meta.get("context"@) == Some(
                    Tree::Text(
                        "Codex and Grok keep separate conversation branches in this session"@,
                    ),
                )
            })
        }),
{
    catalog::law_codex_ids_are_collision_safe(model, model);
    assert(text::without_prefix("codex:"@ + model, "codex:"@) == Some(model));
    if agent.codex is Some {
        assert(has_model(agent.codex->0, model) <==> exists|i: int|
            0 <= i < agent.codex->0.models.len() && (#[trigger] agent.codex->0.models[i]).id
                == model);
    }
    reveal_strlit("provider");
    reveal_strlit("modelId");
    reveal_strlit("context");
    assert("provider"@.len() == 8 && "modelId"@.len() == 7 && "context"@.len() == 7);
    assert("modelId"@[0] == 'm' && "context"@[0] == 'c');
}

/// To cancel is to interrupt the turn that runs in the session, on its thread, where one does,
/// and is otherwise left to Grok. Where the account is gone meanwhile, the error says so. An
/// interruption succeeds unless there was an error, which the client is then told.
pub proof fn law_what_is_cancelled_is_what_runs(
    agent: AgentView,
    id: Seq<char>,
    result: Tree,
    error: Seq<char>,
)
    ensures
        ({
            let running = agent.sessions.contains_key(id) && agent.sessions[id].codex_thread_id
                is Some && agent.sessions[id].active_codex_turn_id is Some;
            &&& !running ==> cancellation(agent, id) is Grok
            &&& running && agent.codex is Some ==> (cancellation(
                agent,
                id,
            ) matches CancellationView::Interrupt(call) && {
                &&& call.method == "turn/interrupt"@
                &&& call.params.get("threadId"@) == Some(
                    Tree::Text(agent.sessions[id].codex_thread_id->0),
                )
                &&& call.params.get("turnId"@) == Some(
                    Tree::Text(agent.sessions[id].active_codex_turn_id->0),
                )
            })
            &&& running && agent.codex is None ==> cancellation(agent, id)
                == CancellationView::Failed(backend(agent)->Err_0)
        }),
        done(Ok(result)) is Ok,
        done(Err(error)) == Err::<(), AgentErrorView>(
            AgentErrorView { kind: ErrorKind::Internal, data: "Codex: "@ + error },
        ),
{
    if agent.sessions.contains_key(id) {
        let route = agent.sessions[id];
        if route.codex_thread_id is Some && route.active_codex_turn_id is Some {
            server::law_calls_name_what_they_are_for(
                id,
                id,
                route.codex_thread_id->0,
                route.active_codex_turn_id->0,
                seq![],
                id,
            );
        }
    }
}

/// An introduction gets the models of the account beside its own exactly where it has models
/// that can be read, and is then told of both providers; otherwise it stays as it is. Without an
/// account no model is added.
pub proof fn law_introductions_get_the_models(agent: AgentView, meta: Tree, state: ModelStateView)
    ensures
        initialize_meta(agent, None) is None,
        meta.get("modelState"@) is None ==> initialize_meta(agent, Some(meta)) == Some(meta),
        meta.get("modelState"@) is Some && protocol::session_state(
            meta.get("modelState"@)->0,
        ) is None ==> initialize_meta(agent, Some(meta)) == Some(meta),
        meta.get("modelState"@) is Some && protocol::session_state(meta.get("modelState"@)->0)
            == Some(state) ==> {
            let merged = initialize_meta(agent, Some(meta));
            &&& json::at(merged, "groxProviders"@) == Some(providers(agent))
            &&& json::at(merged, "modelState"@) == Some(
                protocol::state_tree(
                    if agent.codex is Some {
                        catalog::with_offer(state, agent.codex->0)
                    } else {
                        state
                    },
                ),
            )
        },
        agent.codex is None ==> merged_models(agent, state) == state,
        agent.codex matches Some(status) ==> merged_models(agent, state) == catalog::with_offer(
            state,
            status,
        ),
{
    reveal_strlit("modelState");
    reveal_strlit("groxProviders");
    assert("modelState"@.len() == 10 && "groxProviders"@.len() == 13);
}

/// The search for Codex changes only what is known of Codex, and notes just what it found.
pub proof fn law_the_search_notes_what_it_found(
    agent: AgentView,
    status: CodexStatusView,
    error: Seq<char>,
)
    ensures
        after_discovery(agent, Ok(status)).codex == Some(status),
        after_discovery(agent, Ok(status)).codex_unavailable == agent.codex_unavailable,
        after_discovery(agent, Ok(status)).sessions == agent.sessions,
        after_discovery(agent, Err(error)).codex == agent.codex,
        after_discovery(agent, Err(error)).codex_unavailable == Some(error),
        after_discovery(agent, Err(error)).sessions == agent.sessions,
        undiscovered(agent) <==> agent.codex is None && agent.codex_unavailable is None,
{
}

/// What the values of this module show in contracts is what they hold, part by part: nothing is
/// left out, and nothing is changed.
pub proof fn law_values_show_what_they_hold(
    active_provider: &ActiveProvider,
    session_route: &SessionRoute,
    model_switch: &ModelSwitch,
    cancellation: &Cancellation,
)
    ensures
        active_provider.deep_view() == (match active_provider {
            ActiveProvider::Grok => ProviderView::Grok,
            ActiveProvider::Codex { model } => ProviderView::Codex { model: model@ },
        }),
        session_route.deep_view() == (RouteView {
            cwd: session_route.cwd@,
            active: session_route.active.deep_view(),
            codex_thread_id: session_route.codex_thread_id.deep_view(),
            active_codex_turn_id: session_route.active_codex_turn_id.deep_view(),
        }),
        model_switch.deep_view() == (match model_switch {
            ModelSwitch::Grok => ModelSwitchView::Grok,
            ModelSwitch::Switched(meta) => ModelSwitchView::Switched(meta@),
            ModelSwitch::Refused(error) => ModelSwitchView::Refused(error.deep_view()),
        }),
        cancellation.deep_view() == (match cancellation {
            Cancellation::Grok => CancellationView::Grok,
            Cancellation::Interrupt(call) => CancellationView::Interrupt(call@),
            Cancellation::Failed(error) => CancellationView::Failed(error.deep_view()),
        }),
{
}

} // verus!
