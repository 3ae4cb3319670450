//! A prompt that goes to Codex: the thread and the turn that it is given, and what the client
//! is told of the turn.

use vstd::prelude::*;

use crate::error;
use crate::error::{codex_error, AgentError, AgentErrorView, ErrorKind};
use crate::json;
use crate::json::{get_in, str_in, true_in, Json, Tree};
use crate::prompt;
use crate::prompt::{codex_input, PromptBlock, PromptBlockView};
use crate::router;
use crate::router::{AgentView, GroxAgent};
use crate::rpc;
use crate::rpc::{result_view, Call, CallView};
use crate::server;
use crate::text::same_text;
use crate::tools;
use crate::tools::{
    codex_tool_complete, codex_tool_start, ToolCall, ToolCallUpdate, ToolCallUpdateView,
    ToolCallView,
};
use crate::turn;

verus! {

/// A prompt that waits for a thread.
pub struct CodexPrompt {
    pub session_id: String,
    pub model: String,
    pub cwd: String,
    pub blocks: Vec<PromptBlock>,
    /// What is attached to the request, and to all that the client is told of it.
    pub meta: Option<Json>,
}

/// What a prompt that waits for a thread means.
pub struct CodexPromptView {
    pub session_id: Seq<char>,
    pub model: Seq<char>,
    pub cwd: Seq<char>,
    pub blocks: Seq<PromptBlockView>,
    pub meta: Option<Tree>,
}

impl DeepView for CodexPrompt {
    type V = CodexPromptView;

    open spec fn deep_view(&self) -> CodexPromptView {
        CodexPromptView {
            session_id: self.session_id@,
            model: self.model@,
            cwd: self.cwd@,
            blocks: self.blocks.deep_view(),
            meta: self.meta.deep_view(),
        }
    }
}

/// A turn that has been asked for.
pub struct PendingTurn {
    pub session_id: String,
    pub thread_id: String,
    pub meta: Option<Json>,
}

/// What a turn that has been asked for means.
pub struct PendingTurnView {
    pub session_id: Seq<char>,
    pub thread_id: Seq<char>,
    pub meta: Option<Tree>,
}

impl DeepView for PendingTurn {
    type V = PendingTurnView;

    open spec fn deep_view(&self) -> PendingTurnView {
        PendingTurnView {
            session_id: self.session_id@,
            thread_id: self.thread_id@,
            meta: self.meta.deep_view(),
        }
    }
}

/// What is to be done next for a prompt.
pub enum PromptStep {
    /// Make the call, and go on with [`GroxAgent::thread_started`].
    StartThread(CodexPrompt, Call),
    /// Listen to the notifications from now on, make the call, and go on with
    /// [`GroxAgent::turn_started`].
    StartTurn(PendingTurn, Call),
    /// The prompt is over: it cannot be run.
    Failed(AgentError),
}

/// What the next step of a prompt means.
pub enum PromptStepView {
    StartThread(CodexPromptView, CallView),
    StartTurn(PendingTurnView, CallView),
    Failed(AgentErrorView),
}

impl DeepView for PromptStep {
    type V = PromptStepView;

    open spec fn deep_view(&self) -> PromptStepView {
        match self {
            PromptStep::StartThread(prompt, call) => PromptStepView::StartThread(
                prompt.deep_view(),
                call@,
            ),
            PromptStep::StartTurn(turn, call) => PromptStepView::StartTurn(turn.deep_view(), call@),
            PromptStep::Failed(error) => PromptStepView::Failed(error.deep_view()),
        }
    }
}

/// The step that asks for a turn on a thread, where the prompt can be handed on.
pub open spec fn turn_request(prompt: CodexPromptView, thread_id: Seq<char>) -> PromptStepView {
    match prompt::prompt_input(prompt.blocks) {
        Ok(input) => PromptStepView::StartTurn(
            PendingTurnView { session_id: prompt.session_id, thread_id, meta: prompt.meta },
            server::start_turn_view(thread_id, input, prompt.model, prompt.cwd),
        ),
        Err(error) => PromptStepView::Failed(error),
    }
}

/// The first step of a prompt of the session `id`: to ask for a turn on the thread that the
/// session has, or first for a thread where it has none.
pub open spec fn first_step(
    agent: AgentView,
    id: Seq<char>,
    model: Seq<char>,
    blocks: Seq<PromptBlockView>,
    meta: Option<Tree>,
) -> PromptStepView {
    match router::backend(agent) {
        Err(error) => PromptStepView::Failed(error),
        Ok(_) => if !agent.sessions.contains_key(id) {
            PromptStepView::Failed(error::invalid("unknown Grox session"@))
        } else {
            let cwd = agent.sessions[id].cwd;
            let prompt = CodexPromptView { session_id: id, model, cwd, blocks, meta };
            match agent.sessions[id].codex_thread_id {
                Some(thread_id) => turn_request(prompt, thread_id),
                None => PromptStepView::StartThread(prompt, server::start_thread_view(cwd, model)),
            }
        },
    }
}

/// The thread that a call for one came to.
pub open spec fn thread_of(outcome: Result<Tree, Seq<char>>) -> Result<Seq<char>, AgentErrorView> {
    match outcome {
        Ok(response) => match rpc::thread_outcome(response) {
            Ok(thread_id) => Ok(thread_id),
            Err(error) => Err(error::codex_failure(error)),
        },
        Err(error) => Err(error::codex_failure(error)),
    }
}

/// The turn that a call for one came to.
pub open spec fn turn_of(outcome: Result<Tree, Seq<char>>) -> Result<Seq<char>, AgentErrorView> {
    match outcome {
        Ok(response) => match server::turn_outcome(response) {
            Ok(turn_id) => Ok(turn_id),
            Err(error) => Err(error::codex_failure(error)),
        },
        Err(error) => Err(error::codex_failure(error)),
    }
}

/// The step that follows the call for a thread.
pub open spec fn thread_step(
    prompt: CodexPromptView,
    outcome: Result<Tree, Seq<char>>,
) -> PromptStepView {
    match thread_of(outcome) {
        Ok(thread_id) => turn_request(prompt, thread_id),
        Err(error) => PromptStepView::Failed(error),
    }
}

/// The agent after the call for a thread: the session has the thread, even where the prompt
/// then fails.
pub open spec fn after_thread(
    agent: AgentView,
    prompt: CodexPromptView,
    outcome: Result<Tree, Seq<char>>,
) -> AgentView {
    match thread_of(outcome) {
        Ok(thread_id) => agent.with_thread(prompt.session_id, thread_id),
        Err(_) => agent,
    }
}

/// A turn that runs for a prompt.
pub struct CodexTurn {
    pub session_id: String,
    pub thread_id: String,
    pub turn_id: String,
    pub meta: Option<Json>,
}

/// What a running turn means.
pub struct CodexTurnView {
    pub session_id: Seq<char>,
    pub thread_id: Seq<char>,
    pub turn_id: Seq<char>,
    pub meta: Option<Tree>,
}

impl DeepView for CodexTurn {
    type V = CodexTurnView;

    open spec fn deep_view(&self) -> CodexTurnView {
        CodexTurnView {
            session_id: self.session_id@,
            thread_id: self.thread_id@,
            turn_id: self.turn_id@,
            meta: self.meta.deep_view(),
        }
    }
}

/// What follows the call for a turn: the turn that runs, or the error.
pub open spec fn running(
    pending: PendingTurnView,
    outcome: Result<Tree, Seq<char>>,
) -> Result<CodexTurnView, AgentErrorView> {
    match turn_of(outcome) {
        Ok(turn_id) => Ok(
            CodexTurnView {
                session_id: pending.session_id,
                thread_id: pending.thread_id,
                turn_id,
                meta: pending.meta,
            },
        ),
        Err(error) => Err(error),
    }
}

/// The agent after the call for a turn: the session has the turn that runs.
pub open spec fn after_turn(
    agent: AgentView,
    pending: PendingTurnView,
    outcome: Result<Tree, Seq<char>>,
) -> AgentView {
    match turn_of(outcome) {
        Ok(turn_id) => agent.with_turn(pending.session_id, Some(turn_id)),
        Err(_) => agent,
    }
}

/// What the stream of notifications gives.
pub enum TurnEvent {
    Notification(Json),
    /// Some notifications were missed.
    Lagged,
    /// No more will come.
    Closed,
}

/// What an event of a turn means.
pub enum TurnEventView {
    Notification(Tree),
    Lagged,
    Closed,
}

impl DeepView for TurnEvent {
    type V = TurnEventView;

    open spec fn deep_view(&self) -> TurnEventView {
        match self {
            TurnEvent::Notification(message) => TurnEventView::Notification(message@),
            TurnEvent::Lagged => TurnEventView::Lagged,
            TurnEvent::Closed => TurnEventView::Closed,
        }
    }
}

/// Why a prompt came to its end.
#[derive(Clone, Copy, Debug, PartialEq, Eq, Structural)]
pub enum StopReason {
    EndTurn,
    Cancelled,
}

/// What the client is told of a turn.
pub enum Update {
    /// A piece of the answer.
    Message(String),
    /// A piece of the reasoning or of the plan.
    Thought(String),
    /// A tool call that has begun.
    ToolCall(ToolCall),
    /// A tool call that has ended.
    ToolUpdate(ToolCallUpdate),
}

/// What an update means.
pub enum UpdateView {
    Message(Seq<char>),
    Thought(Seq<char>),
    ToolCall(ToolCallView),
    ToolUpdate(ToolCallUpdateView),
}

impl DeepView for Update {
    type V = UpdateView;

    open spec fn deep_view(&self) -> UpdateView {
        match self {
            Update::Message(text) => UpdateView::Message(text@),
            Update::Thought(text) => UpdateView::Thought(text@),
            Update::ToolCall(call) => UpdateView::ToolCall(call.deep_view()),
            Update::ToolUpdate(update) => UpdateView::ToolUpdate(update.deep_view()),
        }
    }
}

/// An update as the client gets it: with the session that it is about, and with what was
/// attached to the request.
pub struct Notice {
    pub session_id: String,
    pub update: Update,
    pub meta: Option<Json>,
}

/// What a notice means.
pub struct NoticeView {
    pub session_id: Seq<char>,
    pub update: UpdateView,
    pub meta: Option<Tree>,
}

impl DeepView for Notice {
    type V = NoticeView;

    open spec fn deep_view(&self) -> NoticeView {
        NoticeView {
            session_id: self.session_id@,
            update: self.update.deep_view(),
            meta: self.meta.deep_view(),
        }
    }
}

/// What is to be done on an event.
pub enum TurnAction {
    /// Nothing.
    Continue,
    /// Tell the client.
    Tell(Notice),
    /// The prompt is over: it failed.
    Failed(AgentError),
    /// The prompt is over.
    Stopped(StopReason),
}

/// What an action on an event means.
pub enum TurnActionView {
    Continue,
    Tell(NoticeView),
    Failed(AgentErrorView),
    Stopped(StopReason),
}

impl DeepView for TurnAction {
    type V = TurnActionView;

    open spec fn deep_view(&self) -> TurnActionView {
        match self {
            TurnAction::Continue => TurnActionView::Continue,
            TurnAction::Tell(notice) => TurnActionView::Tell(notice.deep_view()),
            TurnAction::Failed(error) => TurnActionView::Failed(error.deep_view()),
            TurnAction::Stopped(reason) => TurnActionView::Stopped(*reason),
        }
    }
}

impl CodexTurnView {
    /// To tell the client an update of the turn.
    pub open spec fn tell(self, update: UpdateView) -> TurnActionView {
        TurnActionView::Tell(NoticeView { session_id: self.session_id, update, meta: self.meta })
    }
}

/// Whether notifications of a method bring a piece of the reasoning or of the plan.
pub open spec fn thought_method(method: Option<Seq<char>>) -> bool {
    ||| method == Some("item/reasoning/summaryTextDelta"@)
    ||| method == Some("item/reasoning/textDelta"@)
    ||| method == Some("item/plan/delta"@)
}

fn is_thought(method: &str) -> (r: bool)
    ensures
        r == thought_method(Some(method@)),
{
    same_text(method, "item/reasoning/summaryTextDelta") || same_text(
        method,
        "item/reasoning/textDelta",
    ) || same_text(method, "item/plan/delta")
}

/// What the end of a turn with the given status means for the prompt.
pub open spec fn ended(notification: Tree) -> TurnActionView {
    let status = turn::ended_status(notification);
    if status == "failed"@ {
        TurnActionView::Failed(error::internal(turn::failure(notification)))
    } else if status == "interrupted"@ || status == "cancelled"@ {
        TurnActionView::Stopped(StopReason::Cancelled)
    } else {
        TurnActionView::Stopped(StopReason::EndTurn)
    }
}

/// What is to be done on a notification while `turn` runs. Those of another thread and the
/// end of another turn are passed over; so is an error that the server will retry after.
pub open spec fn notified(turn: CodexTurnView, notification: Tree) -> TurnActionView {
    let method = turn::method_of(notification);
    let delta = json::text_of(turn::param(notification, "delta"@));
    if turn::of_other_thread(notification, turn.thread_id) {
        TurnActionView::Continue
    } else if method == Some("item/agentMessage/delta"@) && delta is Some {
        turn.tell(UpdateView::Message(delta->0))
    } else if thought_method(method) && delta is Some {
        turn.tell(UpdateView::Thought(delta->0))
    } else if method == Some("item/started"@) && tools::tool_start(notification) is Some {
        turn.tell(UpdateView::ToolCall(tools::tool_start(notification)->0))
    } else if method == Some("item/completed"@) && tools::tool_complete(notification) is Some {
        turn.tell(UpdateView::ToolUpdate(tools::tool_complete(notification)->0))
    } else if method == Some("error"@) && !json::is_true(turn::param(notification, "willRetry"@)) {
        TurnActionView::Failed(error::internal(turn::reported_error(notification)))
    } else if method == Some("turn/completed"@) && turn::turn_named(notification) == Some(
        turn.turn_id,
    ) {
        ended(notification)
    } else {
        TurnActionView::Continue
    }
}

/// What is to be done on an event while `turn` runs.
pub open spec fn turn_action(turn: CodexTurnView, event: TurnEventView) -> TurnActionView {
    match event {
        TurnEventView::Notification(notification) => notified(turn, notification),
        TurnEventView::Lagged => TurnActionView::Continue,
        TurnEventView::Closed => TurnActionView::Failed(
            error::codex_failure("Codex app-server notification stream closed"@),
        ),
    }
}

impl TurnActionView {
    /// Whether the prompt is over.
    pub open spec fn is_end(self) -> bool {
        self is Failed || self is Stopped
    }
}

/// The agent after an event: no turn runs in the session any more once the prompt is over.
pub open spec fn after_event(
    agent: AgentView,
    turn: CodexTurnView,
    event: TurnEventView,
) -> AgentView {
    if turn_action(turn, event).is_end() {
        agent.with_turn(turn.session_id, None)
    } else {
        agent
    }
}

fn copy_meta(meta: &Option<Json>) -> (r: Option<Json>)
    ensures
        r.deep_view() == meta.deep_view(),
{
    match meta {
        Some(meta) => Some(meta.copy()),
        None => None,
    }
}

fn request_turn(prompt: &CodexPrompt, thread_id: &str) -> (r: PromptStep)
    ensures
        r.deep_view() == turn_request(prompt.deep_view(), thread_id@),
{
    match codex_input(&prompt.blocks) {
        Ok(input) => PromptStep::StartTurn(
            PendingTurn {
                session_id: prompt.session_id.clone(),
                thread_id: thread_id.to_owned(),
                meta: copy_meta(&prompt.meta),
            },
            server::start_turn(thread_id, input, prompt.model.as_str(), prompt.cwd.as_str()),
        ),
        Err(error) => PromptStep::Failed(error),
    }
}

fn end_of_turn(notification: &Json) -> (r: TurnAction)
    ensures
        r.deep_view() == ended(notification@),
{
    let status = turn::status_in(notification);
    if same_text(status, "failed") {
        TurnAction::Failed(AgentError::internal_error(turn::failure_in(notification)))
    } else if same_text(status, "interrupted") || same_text(status, "cancelled") {
        TurnAction::Stopped(StopReason::Cancelled)
    } else {
        TurnAction::Stopped(StopReason::EndTurn)
    }
}

impl CodexTurn {
    fn tell(&self, update: Update) -> (r: TurnAction)
        ensures
            r.deep_view() == self.deep_view().tell(update.deep_view()),
    {
        TurnAction::Tell(
            Notice {
                session_id: self.session_id.clone(),
                update,
                meta: copy_meta(&self.meta),
            },
        )
    }

    /// What is to be done on a notification while the turn runs.
    pub fn notify(&self, notification: &Json) -> (r: TurnAction)
        ensures
            r.deep_view() == notified(self.deep_view(), notification@),
    {
        if turn::is_of_other_thread(notification, self.thread_id.as_str()) {
            return TurnAction::Continue;
        }
        let method = match str_in(notification.get("method")) {
            Some(method) => method,
            None => {
                return TurnAction::Continue;
            },
        };
        proof {
            lemma_methods_differ();
        }
        if same_text(method, "item/agentMessage/delta") {
            match str_in(turn::param_in(notification, "delta")) {
                Some(delta) => self.tell(Update::Message(delta.to_owned())),
                None => TurnAction::Continue,
            }
        } else if is_thought(method) {
            match str_in(turn::param_in(notification, "delta")) {
                Some(delta) => self.tell(Update::Thought(delta.to_owned())),
                None => TurnAction::Continue,
            }
        } else if same_text(method, "item/started") {
            match codex_tool_start(notification) {
                Some(call) => self.tell(Update::ToolCall(call)),
                None => TurnAction::Continue,
            }
        } else if same_text(method, "item/completed") {
            match codex_tool_complete(notification) {
                Some(update) => self.tell(Update::ToolUpdate(update)),
                None => TurnAction::Continue,
            }
        } else if same_text(method, "error") && !true_in(
            turn::param_in(notification, "willRetry"),
        ) {
            TurnAction::Failed(AgentError::internal_error(turn::error_in(notification)))
        } else if same_text(method, "turn/completed") {
            let own: bool = match str_in(get_in(turn::param_in(notification, "turn"), "id")) {
                Some(id) => same_text(id, self.turn_id.as_str()),
                None => false,
            };
            if own {
                end_of_turn(notification)
            } else {
                TurnAction::Continue
            }
        } else {
            TurnAction::Continue
        }
    }
}

proof fn lemma_methods_differ()
    ensures
        "item/agentMessage/delta"@.len() == 23,
        "item/reasoning/summaryTextDelta"@.len() == 31,
        "item/reasoning/textDelta"@.len() == 24,
        "item/plan/delta"@.len() == 15,
        "item/started"@.len() == 12,
        "item/completed"@ != "turn/completed"@,
        "item/completed"@.len() == 14,
        "turn/completed"@.len() == 14,
        "error"@.len() == 5,
{
    reveal_strlit("item/agentMessage/delta");
    reveal_strlit("item/reasoning/summaryTextDelta");
    reveal_strlit("item/reasoning/textDelta");
    reveal_strlit("item/plan/delta");
    reveal_strlit("item/started");
    reveal_strlit("item/completed");
    reveal_strlit("turn/completed");
    reveal_strlit("error");
    assert("item/completed"@[0] == 'i' && "turn/completed"@[0] == 't');
}

impl GroxAgent {
    /// The first step of a prompt of the session `id` that goes to the model `model`, where
    /// `meta` is attached to the request.
    pub fn prompt_codex(
        &self,
        id: &str,
        model: &str,
        blocks: Vec<PromptBlock>,
        meta: Option<Json>,
    ) -> (r: PromptStep)
        ensures
            r.deep_view() == first_step(
                self@,
                id@,
                model@,
                blocks.deep_view(),
                meta.deep_view(),
            ),
    {
        if let Err(error) = self.codex_backend() {
            return PromptStep::Failed(error);
        }
        let route = match self.find(id) {
            Some(route) => route,
            None => {
                return PromptStep::Failed(AgentError::invalid_params("unknown Grox session"));
            },
        };
        let prompt = CodexPrompt {
            session_id: id.to_owned(),
            model: model.to_owned(),
            cwd: route.cwd.clone(),
            blocks,
            meta,
        };
        match &route.codex_thread_id {
            Some(thread_id) => request_turn(&prompt, thread_id.as_str()),
            None => {
                let call = server::start_thread(prompt.cwd.as_str(), model);
                PromptStep::StartThread(prompt, call)
            },
        }
    }

    /// Takes in what the call for a thread came to.
    pub fn thread_started(
        &mut self,
        prompt: CodexPrompt,
        outcome: Result<Json, String>,
    ) -> (r: PromptStep)
        ensures
            r.deep_view() == thread_step(prompt.deep_view(), result_view(outcome)),
            final(self)@ == after_thread(old(self)@, prompt.deep_view(), result_view(outcome)),
    {
        let response = match outcome {
            Ok(response) => response,
            Err(error) => {
                return PromptStep::Failed(codex_error(error.as_str()));
            },
        };
        match rpc::thread_id(&response) {
            Ok(thread_id) => {
                self.set_thread(prompt.session_id.as_str(), thread_id.as_str());
                request_turn(&prompt, thread_id.as_str())
            },
            Err(error) => PromptStep::Failed(codex_error(error.as_str())),
        }
    }

    /// Takes in what the call for a turn came to.
    pub fn turn_started(
        &mut self,
        pending: PendingTurn,
        outcome: Result<Json, String>,
    ) -> (r: Result<CodexTurn, AgentError>)
        ensures
            result_view(r) == running(pending.deep_view(), result_view(outcome)),
            final(self)@ == after_turn(old(self)@, pending.deep_view(), result_view(outcome)),
    {
        let response = match outcome {
            Ok(response) => response,
            Err(error) => {
                return Err(codex_error(error.as_str()));
            },
        };
        match server::turn_id(&response) {
            Ok(turn_id) => {
                self.set_turn(pending.session_id.as_str(), Some(turn_id.clone()));
                Ok(
                    CodexTurn {
                        session_id: pending.session_id,
                        thread_id: pending.thread_id,
                        turn_id,
                        meta: pending.meta,
                    },
                )
            },
            Err(error) => Err(codex_error(error.as_str())),
        }
    }

    /// Takes in what the stream of notifications gives while a turn runs.
    pub fn turn_event(&mut self, turn: &CodexTurn, event: TurnEvent) -> (r: TurnAction)
        ensures
            r.deep_view() == turn_action(turn.deep_view(), event.deep_view()),
            final(self)@ == after_event(old(self)@, turn.deep_view(), event.deep_view()),
    {
        let action = match event {
            TurnEvent::Notification(notification) => turn.notify(&notification),
            TurnEvent::Lagged => TurnAction::Continue,
            TurnEvent::Closed => TurnAction::Failed(
                codex_error("Codex app-server notification stream closed"),
            ),
        };
        match &action {
            TurnAction::Failed(_) | TurnAction::Stopped(_) => {
                self.clear_active_turn(turn.session_id.as_str());
            },
            _ => {},
        }
        action
    }
}

/// A session keeps its thread: once it has one, each of its prompts is run on that thread,
/// whatever models it went over to in between, and whatever turns were run.
pub proof fn law_session_keeps_its_thread(
    agent: AgentView,
    id: Seq<char>,
    active: router::ProviderView,
    turn_id: Option<Seq<char>>,
    model: Seq<char>,
    blocks: Seq<PromptBlockView>,
    meta: Option<Tree>,
)
    requires
        router::backend(agent) is Ok,
        agent.sessions.contains_key(id),
        agent.sessions[id].codex_thread_id is Some,
    ensures
        first_step(
            agent.with_provider(id, active).with_turn(id, turn_id),
            id,
            model,
            blocks,
            meta,
        ) == turn_request(
            CodexPromptView { session_id: id, model, cwd: agent.sessions[id].cwd, blocks, meta },
            agent.sessions[id].codex_thread_id->0,
        ),
{
}

/// A thread is started at most once for a session: the prompt that had one started leaves it
/// to the next prompt, even where the prompt itself fails.
pub proof fn law_started_thread_is_used_again(
    agent: AgentView,
    id: Seq<char>,
    model: Seq<char>,
    blocks: Seq<PromptBlockView>,
    meta: Option<Tree>,
    outcome: Result<Tree, Seq<char>>,
    next_model: Seq<char>,
    next_blocks: Seq<PromptBlockView>,
    next_meta: Option<Tree>,
)
    requires
        first_step(agent, id, model, blocks, meta) is StartThread,
        thread_of(outcome) is Ok,
    ensures
        ({
            let prompt = first_step(agent, id, model, blocks, meta)->StartThread_0;
            first_step(
                after_thread(agent, prompt, outcome),
                id,
                next_model,
                next_blocks,
                next_meta,
            ) == turn_request(
                CodexPromptView {
                    session_id: id,
                    model: next_model,
                    cwd: agent.sessions[id].cwd,
                    blocks: next_blocks,
                    meta: next_meta,
                },
                thread_of(outcome)->Ok_0,
            )
        }),
{
}

/// A prompt is confined to the directory of its session: its thread is started, and each
/// turn is run, in the sandbox that can write to that directory alone, and no approval is
/// ever asked for.
pub proof fn law_prompts_stay_in_the_workspace(
    agent: AgentView,
    id: Seq<char>,
    model: Seq<char>,
    blocks: Seq<PromptBlockView>,
    meta: Option<Tree>,
    outcome: Result<Tree, Seq<char>>,
)
    ensures
        match first_step(agent, id, model, blocks, meta) {
            PromptStepView::StartThread(prompt, call) => {
                &&& call.params.get("cwd"@) == Some(Tree::Text(agent.sessions[id].cwd))
                &&& call.params.get("sandbox"@) == Some(Tree::Text("workspace-write"@))
                &&& call.params.get("approvalPolicy"@) == Some(Tree::Text("never"@))
                &&& thread_step(prompt, outcome) matches PromptStepView::StartTurn(_, next)
                    ==> confined(next, agent.sessions[id].cwd)
            },
            PromptStepView::StartTurn(_, call) => confined(call, agent.sessions[id].cwd),
            PromptStepView::Failed(_) => true,
        },
{
    lemma_params_differ();
}

/// Whether a turn is confined to the directory `cwd`.
pub open spec fn confined(call: CallView, cwd: Seq<char>) -> bool {
    &&& call.params.get("sandboxPolicy"@) == Some(turn::workspace_policy(cwd))
    &&& call.params.get("approvalPolicy"@) == Some(Tree::Text("never"@))
}

proof fn lemma_params_differ()
    ensures
        "cwd"@.len() == 3,
        "model"@.len() == 5,
        "sandbox"@.len() == 7,
        "sandboxPolicy"@.len() == 13,
        "approvalPolicy"@.len() == 14,
{
    reveal_strlit("cwd");
    reveal_strlit("model");
    reveal_strlit("sandbox");
    reveal_strlit("sandboxPolicy");
    reveal_strlit("approvalPolicy");
}

/// A turn is asked for with what the prompt is for: the thread, the model, and a piece of
/// input for each of its blocks.
pub proof fn law_turns_carry_the_prompt(prompt: CodexPromptView, thread_id: Seq<char>)
    ensures
        turn_request(prompt, thread_id) is StartTurn <==> prompt::prompt_input(
            prompt.blocks,
        ) is Ok,
        turn_request(prompt, thread_id) matches PromptStepView::StartTurn(pending, call) ==> {
            &&& pending.session_id == prompt.session_id
            &&& pending.thread_id == thread_id
            &&& call.params.get("threadId"@) == Some(Tree::Text(thread_id))
            &&& call.params.get("model"@) == Some(Tree::Text(prompt.model))
            &&& call.params.get("input"@) == Some(
                Tree::Array(prompt::prompt_input(prompt.blocks)->Ok_0),
            )
        },
{
    lemma_params_differ();
    reveal_strlit("threadId");
    reveal_strlit("input");
    assert("threadId"@.len() == 8 && "input"@.len() == 5);
    assert("input"@[0] == 'i' && "model"@[0] == 'm') by {
        reveal_strlit("model");
    }
}

/// The agent after some events of a turn.
pub open spec fn agent_run(
    agent: AgentView,
    turn: CodexTurnView,
    events: Seq<TurnEventView>,
) -> AgentView
    decreases events.len(),
{
    if events.len() == 0 {
        agent
    } else {
        after_event(agent_run(agent, turn, events.drop_last()), turn, events.last())
    }
}

proof fn lemma_running_turn_stays(
    agent: AgentView,
    turn: CodexTurnView,
    events: Seq<TurnEventView>,
)
    requires
        forall|i: int|
            0 <= i < events.len() ==> !turn_action(turn, #[trigger] events[i]).is_end(),
    ensures
        agent_run(agent, turn, events) == agent,
    decreases events.len(),
{
    if events.len() > 0 {
        let front = events.drop_last();
        assert forall|i: int| 0 <= i < front.len() implies !turn_action(
            turn,
            #[trigger] front[i],
        ).is_end() by {
            assert(front[i] == events[i]);
        }
        lemma_running_turn_stays(agent, turn, front);
        assert(!turn_action(turn, events[events.len() - 1]).is_end());
    }
}

/// A turn can be cancelled as long as it runs: from when it has started until the event that
/// ends it, to cancel what its session does is to interrupt that turn. From then on there is
/// no turn to cancel, and the session can go over to another model.
pub proof fn law_running_turn_can_be_cancelled(
    agent: AgentView,
    pending: PendingTurnView,
    outcome: Result<Tree, Seq<char>>,
    events: Seq<TurnEventView>,
    last: TurnEventView,
)
    requires
        router::backend(agent) is Ok,
        agent.sessions.contains_key(pending.session_id),
        agent.sessions[pending.session_id].codex_thread_id == Some(pending.thread_id),
        turn_of(outcome) is Ok,
        forall|i: int|
            0 <= i < events.len() ==> !turn_action(
                running(pending, outcome)->Ok_0,
                #[trigger] events[i],
            ).is_end(),
        turn_action(running(pending, outcome)->Ok_0, last).is_end(),
    ensures
        ({
            let turn = running(pending, outcome)->Ok_0;
            let before = agent_run(after_turn(agent, pending, outcome), turn, events);
            let after = after_event(before, turn, last);
            &&& router::cancellation(before, pending.session_id)
                == router::CancellationView::Interrupt(
                server::interrupt_view(pending.thread_id, turn.turn_id),
            )
            &&& router::cancellation(after, pending.session_id) is Grok
            &&& after.sessions[pending.session_id].active_codex_turn_id is None
        }),
{
    let turn = running(pending, outcome)->Ok_0;
    lemma_running_turn_stays(after_turn(agent, pending, outcome), turn, events);
}

/// A notification of another thread tells the client nothing and changes nothing.
pub proof fn law_other_threads_are_passed_over(
    agent: AgentView,
    turn: CodexTurnView,
    notification: Tree,
)
    requires
        turn::of_other_thread(notification, turn.thread_id),
    ensures
        turn_action(turn, TurnEventView::Notification(notification)) is Continue,
        after_event(agent, turn, TurnEventView::Notification(notification)) == agent,
{
}

/// A prompt stops only with the end of its own turn: a notification that bears the turn's
/// identifier. It is reported as cancelled exactly where the turn was interrupted or
/// cancelled.
pub proof fn law_only_its_own_end_stops_a_prompt(turn: CodexTurnView, event: TurnEventView)
    requires
        turn_action(turn, event) is Stopped,
    ensures
        event matches TurnEventView::Notification(notification) && {
            let status = turn::ended_status(notification);
            &&& turn::method_of(notification) == Some("turn/completed"@)
            &&& turn::turn_named(notification) == Some(turn.turn_id)
            &&& !turn::of_other_thread(notification, turn.thread_id)
            &&& turn_action(turn, event) == TurnActionView::Stopped(StopReason::Cancelled)
                <==> status == "interrupted"@ || status == "cancelled"@
        },
{
    lemma_methods_differ();
    reveal_strlit("failed");
    reveal_strlit("interrupted");
    reveal_strlit("cancelled");
    assert("failed"@.len() == 6 && "interrupted"@.len() == 11 && "cancelled"@.len() == 9);
}

/// The end of the turn always ends its prompt.
pub proof fn law_the_end_of_a_turn_ends_its_prompt(turn: CodexTurnView, notification: Tree)
    requires
        turn::method_of(notification) == Some("turn/completed"@),
        turn::turn_named(notification) == Some(turn.turn_id),
        !turn::of_other_thread(notification, turn.thread_id),
    ensures
        turn_action(turn, TurnEventView::Notification(notification)).is_end(),
{
    lemma_methods_differ();
}

/// What the client is told while some events come in: what each of them calls for, in order,
/// up to the one that ends the prompt.
pub open spec fn told(turn: CodexTurnView, events: Seq<TurnEventView>) -> Seq<TurnActionView>
    decreases events.len(),
{
    if events.len() == 0 {
        seq![]
    } else {
        let earlier = told(turn, events.drop_last());
        let action = turn_action(turn, events.last());
        if action is Continue || (earlier.len() > 0 && earlier.last().is_end()) {
            earlier
        } else {
            earlier.push(action)
        }
    }
}

/// A prompt ends at most once, and nothing is told after its end.
pub proof fn law_prompt_ends_once(turn: CodexTurnView, events: Seq<TurnEventView>, i: int)
    requires
        0 <= i < told(turn, events).len() - 1,
    ensures
        !told(turn, events)[i].is_end(),
    decreases events.len(),
{
    if events.len() > 0 {
        let earlier = told(turn, events.drop_last());
        if i < earlier.len() - 1 {
            law_prompt_ends_once(turn, events.drop_last(), i);
        }
    }
}

/// Whether an event calls for nothing.
pub open spec fn idle(turn: CodexTurnView, event: TurnEventView) -> bool {
    turn_action(turn, event) is Continue
}

/// Turns do not mix: what a client is told of its turn is the same whatever notifications of
/// other threads, ends of other turns, and other events that call for nothing come in between.
pub proof fn law_turns_do_not_mix(turn: CodexTurnView, events: Seq<TurnEventView>)
    ensures
        told(turn, events) == told(turn, events.filter(|e: TurnEventView| !idle(turn, e))),
    decreases events.len(),
{
    reveal(Seq::filter);
    let keep = |e: TurnEventView| !idle(turn, e);
    if events.len() > 0 {
        let front = events.drop_last();
        law_turns_do_not_mix(turn, front);
        if keep(events.last()) {
            assert(events.filter(keep) =~= front.filter(keep).push(events.last()));
            assert(events.filter(keep).drop_last() =~= front.filter(keep));
        }
    }
}

proof fn lemma_notices_bear_the_turn(turn: CodexTurnView, events: Seq<TurnEventView>, i: int)
    requires
        0 <= i < told(turn, events).len(),
    ensures
        told(turn, events)[i] matches TurnActionView::Tell(notice) ==> notice.session_id
            == turn.session_id && notice.meta == turn.meta,
    decreases events.len(),
{
    if events.len() > 0 {
        let front = events.drop_last();
        if i < told(turn, front).len() {
            lemma_notices_bear_the_turn(turn, front, i);
        }
    }
}

/// All that the client is told of a prompt bears the session that the prompt was for and what
/// was attached to the request, whether or not a thread had to be started for it first.
pub proof fn law_notices_bear_the_request(
    agent: AgentView,
    id: Seq<char>,
    model: Seq<char>,
    blocks: Seq<PromptBlockView>,
    meta: Option<Tree>,
    thread: Result<Tree, Seq<char>>,
    turn: Result<Tree, Seq<char>>,
    events: Seq<TurnEventView>,
    i: int,
)
    ensures
        ({
            let step = match first_step(agent, id, model, blocks, meta) {
                PromptStepView::StartThread(prompt, _) => thread_step(prompt, thread),
                step => step,
            };
            step matches PromptStepView::StartTurn(pending, _) ==> (running(
                pending,
                turn,
            ) matches Ok(started) ==> {
                &&& started.session_id == id
                &&& started.meta == meta
                &&& 0 <= i < told(started, events).len() ==> (told(
                    started,
                    events,
                )[i] matches TurnActionView::Tell(notice) ==> notice.session_id == id
                    && notice.meta == meta)
            })
        }),
{
    let step = match first_step(agent, id, model, blocks, meta) {
        PromptStepView::StartThread(prompt, _) => thread_step(prompt, thread),
        step => step,
    };
    if let PromptStepView::StartTurn(pending, _) = step {
        if let Ok(started) = running(pending, turn) {
            if 0 <= i < told(started, events).len() {
                lemma_notices_bear_the_turn(started, events, i);
            }
        }
    }
}

/// A prompt begins where its session stands. Without an account, or in a session that does not
/// exist, it fails; on the thread of its session it goes straight to a turn; and where there is
/// no thread yet, one is asked for in the session's directory and with the prompt's model.
pub proof fn law_prompts_begin_where_the_session_stands(
    agent: AgentView,
    id: Seq<char>,
    model: Seq<char>,
    blocks: Seq<PromptBlockView>,
    meta: Option<Tree>,
)
    ensures
        ({
            let step = first_step(agent, id, model, blocks, meta);
            let known = agent.sessions.contains_key(id);
            let prompt = CodexPromptView {
                session_id: id,
                model,
                cwd: agent.sessions[id].cwd,
                blocks,
                meta,
            };
            &&& agent.codex is None ==> step == PromptStepView::Failed(
                router::backend(agent)->Err_0,
            )
            &&& agent.codex is Some && !known ==> step == PromptStepView::Failed(
                AgentErrorView { kind: ErrorKind::InvalidParams, data: "unknown Grox session"@ },
            )
            &&& agent.codex is Some && known && agent.sessions[id].codex_thread_id is None ==> (
            step matches PromptStepView::StartThread(waiting, call) && {
                &&& waiting == prompt
                &&& call.method == "thread/start"@
                &&& call.params.get("cwd"@) == Some(Tree::Text(agent.sessions[id].cwd))
                &&& call.params.get("model"@) == Some(Tree::Text(model))
            })
            &&& agent.codex is Some && known && agent.sessions[id].codex_thread_id is Some
                ==> step == turn_request(prompt, agent.sessions[id].codex_thread_id->0)
        }),
{
    server::law_calls_name_what_they_are_for(
        agent.sessions[id].cwd,
        model,
        id,
        id,
        seq![],
        id,
    );
}

/// A session works in the directory that it was opened in, whatever model it went over to: its
/// first prompt asks for a thread in that directory, and the turn that follows may write to that
/// directory and to no other.
pub proof fn law_prompts_run_where_the_session_was_opened(
    agent: AgentView,
    id: Seq<char>,
    cwd: Seq<char>,
    model_id: Seq<char>,
    model: Seq<char>,
    blocks: Seq<PromptBlockView>,
    meta: Option<Tree>,
    outcome: Result<Tree, Seq<char>>,
)
    requires
        agent.codex is Some,
    ensures
        ({
            let opened = router::after_switch(
                agent.with_session(id, router::opened(cwd)),
                id,
                model_id,
            );
            first_step(opened, id, model, blocks, meta) matches PromptStepView::StartThread(
                prompt,
                call,
            ) && {
                &&& call.params.get("cwd"@) == Some(Tree::Text(cwd))
                &&& thread_step(prompt, outcome) matches PromptStepView::StartTurn(_, turn)
                    ==> json::at(turn.params.get("sandboxPolicy"@), "writableRoots"@) == Some(
                    Tree::Array(seq![Tree::Text(cwd)]),
                )
            }
        }),
{
    let opened = router::after_switch(agent.with_session(id, router::opened(cwd)), id, model_id);
    law_prompts_begin_where_the_session_stands(opened, id, model, blocks, meta);
    let prompt = first_step(opened, id, model, blocks, meta)->StartThread_0;
    if let Ok(thread_id) = thread_of(outcome) {
        if let Ok(input) = prompt::prompt_input(blocks) {
            server::law_calls_name_what_they_are_for(cwd, model, thread_id, id, input, id);
        }
    }
}

/// A thread or a turn that was asked for is the one that the reply names; a reply that names
/// none, and a call that failed, is an error of the app-server.
pub proof fn law_replies_name_threads_and_turns(
    outcome: Result<Tree, Seq<char>>,
    id: Seq<char>,
)
    ensures
        thread_of(outcome) == Ok::<Seq<char>, AgentErrorView>(id) <==> (
        outcome matches Ok(response) && json::at(response.get("thread"@), "id"@) == Some(
            Tree::Text(id),
        )),
        turn_of(outcome) == Ok::<Seq<char>, AgentErrorView>(id) <==> (
        outcome matches Ok(response) && json::at(response.get("turn"@), "id"@) == Some(
            Tree::Text(id),
        )),
        outcome matches Err(error) ==> thread_of(outcome) == Err::<Seq<char>, AgentErrorView>(
            AgentErrorView { kind: ErrorKind::Internal, data: "Codex: "@ + error },
        ) && turn_of(outcome) == Err::<Seq<char>, AgentErrorView>(
            AgentErrorView { kind: ErrorKind::Internal, data: "Codex: "@ + error },
        ),
        outcome is Ok && thread_of(outcome) is Err ==> thread_of(outcome)->Err_0.data
            == "Codex: Codex app-server did not return a thread id"@,
        outcome is Ok && turn_of(outcome) is Err ==> turn_of(outcome)->Err_0.data
            == "Codex: Codex app-server did not return a turn id"@,
{
    reveal_strlit("Codex: ");
    reveal_strlit("Codex app-server did not return a thread id");
    reveal_strlit("Codex app-server did not return a turn id");
    reveal_strlit("Codex: Codex app-server did not return a thread id");
    reveal_strlit("Codex: Codex app-server did not return a turn id");
    assert("Codex: "@ + "Codex app-server did not return a thread id"@
        =~= "Codex: Codex app-server did not return a thread id"@);
    assert("Codex: "@ + "Codex app-server did not return a turn id"@
        =~= "Codex: Codex app-server did not return a turn id"@);
}

/// What a call came to is noted of the session of the prompt and of nothing else: the thread
/// once there is one, the turn once it runs, and that none runs once the prompt is over. A call
/// that failed, and an event that does not end the prompt, changes nothing.
pub proof fn law_prompts_are_noted_in_their_session(
    agent: AgentView,
    prompt: CodexPromptView,
    pending: PendingTurnView,
    turn: CodexTurnView,
    outcome: Result<Tree, Seq<char>>,
    event: TurnEventView,
)
    ensures
        match thread_of(outcome) {
            Ok(id) => after_thread(agent, prompt, outcome) == agent.with_thread(
                prompt.session_id,
                id,
            ) && thread_step(prompt, outcome) == turn_request(prompt, id),
            Err(error) => after_thread(agent, prompt, outcome) == agent && thread_step(
                prompt,
                outcome,
            ) == PromptStepView::Failed(error),
        },
        match turn_of(outcome) {
            Ok(id) => {
                &&& after_turn(agent, pending, outcome) == agent.with_turn(
                    pending.session_id,
                    Some(id),
                )
                &&& running(pending, outcome) matches Ok(started) && started.session_id
                    == pending.session_id && started.thread_id == pending.thread_id
                    && started.turn_id == id && started.meta == pending.meta
            },
            Err(error) => after_turn(agent, pending, outcome) == agent && running(pending, outcome)
                == Err::<CodexTurnView, AgentErrorView>(error),
        },
        turn_action(turn, event) is Failed || turn_action(turn, event) is Stopped ==> after_event(
            agent,
            turn,
            event,
        ) == agent.with_turn(turn.session_id, None),
        turn_action(turn, event) is Continue || turn_action(turn, event) is Tell ==> after_event(
            agent,
            turn,
            event,
        ) == agent,
{
}

/// Whether a notification is for the turns of a thread: it does not name another one.
pub open spec fn is_for(notification: Tree, thread_id: Seq<char>) -> bool {
    match json::at(notification.get("params"@), "threadId"@) {
        Some(Tree::Text(id)) => id == thread_id,
        _ => true,
    }
}

/// The text that a notification brings under a method, where it is for a thread.
pub open spec fn brought(
    notification: Tree,
    method: Seq<char>,
    thread_id: Seq<char>,
) -> Option<Seq<char>> {
    if is_for(notification, thread_id) && notification.get("method"@) == Some(Tree::Text(method)) {
        match json::at(notification.get("params"@), "delta"@) {
            Some(Tree::Text(text)) => Some(text),
            _ => None,
        }
    } else {
        None
    }
}

/// The answer is told as it came: each piece that is for the turn's thread, character for
/// character, as a piece of the answer, and nothing else as one.
pub proof fn law_the_answer_is_told_as_it_came(turn: CodexTurnView, notification: Tree)
    ensures
        brought(notification, "item/agentMessage/delta"@, turn.thread_id) matches Some(text)
            ==> notified(turn, notification) == TurnActionView::Tell(
            NoticeView {
                session_id: turn.session_id,
                update: UpdateView::Message(text),
                meta: turn.meta,
            },
        ),
        notified(turn, notification) matches TurnActionView::Tell(notice) ==> (
        notice.update matches UpdateView::Message(text) ==> brought(
            notification,
            "item/agentMessage/delta"@,
            turn.thread_id,
        ) == Some(text)),
{
    lemma_methods_differ();
}

/// The reasoning and the plan are told as they came, each piece as a thought, and nothing else
/// as one.
pub proof fn law_thoughts_are_told_as_they_came(
    turn: CodexTurnView,
    notification: Tree,
    method: Seq<char>,
)
    ensures
        method == "item/reasoning/summaryTextDelta"@ || method == "item/reasoning/textDelta"@
            || method == "item/plan/delta"@ ==> (brought(
            notification,
            method,
            turn.thread_id,
        ) matches Some(text) ==> notified(turn, notification) == TurnActionView::Tell(
            NoticeView {
                session_id: turn.session_id,
                update: UpdateView::Thought(text),
                meta: turn.meta,
            },
        )),
        notified(turn, notification) matches TurnActionView::Tell(notice) ==> (
        notice.update matches UpdateView::Thought(text) ==> {
            ||| brought(notification, "item/reasoning/summaryTextDelta"@, turn.thread_id) == Some(
                text,
            )
            ||| brought(notification, "item/reasoning/textDelta"@, turn.thread_id) == Some(text)
            ||| brought(notification, "item/plan/delta"@, turn.thread_id) == Some(text)
        }),
{
    lemma_methods_differ();
}

/// Tool activity is told as it is reported: the beginning of a tool call where an item of the
/// turn's thread has started, its end where one is completed, and nothing else as either.
pub proof fn law_tools_are_told_as_reported(turn: CodexTurnView, notification: Tree)
    ensures
        ({
            let own = is_for(notification, turn.thread_id);
            let started = notification.get("method"@) == Some(Tree::Text("item/started"@));
            let completed = notification.get("method"@) == Some(Tree::Text("item/completed"@));
            let action = notified(turn, notification);
            &&& own && started ==> (tools::tool_start(notification) matches Some(call) ==> action
                == TurnActionView::Tell(
                NoticeView {
                    session_id: turn.session_id,
                    update: UpdateView::ToolCall(call),
                    meta: turn.meta,
                },
            ))
            &&& own && started && tools::tool_start(notification) is None ==> action is Continue
            &&& own && completed ==> (tools::tool_complete(notification) matches Some(update)
                ==> action == TurnActionView::Tell(
                NoticeView {
                    session_id: turn.session_id,
                    update: UpdateView::ToolUpdate(update),
                    meta: turn.meta,
                },
            ))
            &&& own && completed && tools::tool_complete(notification) is None
                ==> action is Continue
            &&& action matches TurnActionView::Tell(notice) ==> {
                &&& notice.update is ToolCall ==> own && started
                &&& notice.update is ToolUpdate ==> own && completed
            }
        }),
{
    lemma_methods_differ();
}

/// A prompt is over exactly with an error that is for its thread and that the server will not
/// retry after, with the end of its own turn, or with the end of the stream. It fails with what
/// was reported; it is cancelled where the turn was interrupted or cancelled; and it ends well
/// in every other case.
pub proof fn law_a_prompt_ends_as_reported(turn: CodexTurnView, notification: Tree)
    ensures
        ({
            let params = notification.get("params"@);
            let method = notification.get("method"@);
            let own = is_for(notification, turn.thread_id);
            let fatal = own && method == Some(Tree::Text("error"@)) && json::at(
                params,
                "willRetry"@,
            ) != Some(Tree::Bool(true));
            let over = own && method == Some(Tree::Text("turn/completed"@)) && json::at(
                json::at(params, "turn"@),
                "id"@,
            ) == Some(Tree::Text(turn.turn_id));
            let status = json::at(json::at(params, "turn"@), "status"@);
            let failed = status == Some(Tree::Text("failed"@));
            let cancelled = status == Some(Tree::Text("interrupted"@)) || status == Some(
                Tree::Text("cancelled"@),
            );
            let action = notified(turn, notification);
            &&& fatal ==> action == TurnActionView::Failed(
                AgentErrorView {
                    kind: ErrorKind::Internal,
                    data: turn::reported_error(notification),
                },
            )
            &&& over && failed ==> action == TurnActionView::Failed(
                AgentErrorView {
                    kind: ErrorKind::Internal,
                    data: turn::failure(notification),
                },
            )
            &&& over && cancelled ==> action == TurnActionView::Stopped(StopReason::Cancelled)
            &&& over && !failed && !cancelled ==> action == TurnActionView::Stopped(
                StopReason::EndTurn,
            )
            &&& !fatal && !over ==> action is Continue || action is Tell
        }),
        turn_action(turn, TurnEventView::Notification(notification)) == notified(
            turn,
            notification,
        ),
        turn_action(turn, TurnEventView::Lagged) is Continue,
        turn_action(turn, TurnEventView::Closed) == TurnActionView::Failed(
            AgentErrorView {
                kind: ErrorKind::Internal,
                data: "Codex: "@ + "Codex app-server notification stream closed"@,
            },
        ),
{
    lemma_methods_differ();
    reveal_strlit("failed");
    reveal_strlit("interrupted");
    reveal_strlit("cancelled");
    reveal_strlit("completed");
    assert("failed"@.len() == 6 && "interrupted"@.len() == 11 && "cancelled"@.len() == 9 && "completed"@.len() == 9);
    assert("cancelled"@[1] == 'a' && "completed"@[1] == 'o');
}

/// The text of the answer that some actions tell the client, put together.
pub open spec fn answer_told(actions: Seq<TurnActionView>) -> Seq<char>
    decreases actions.len(),
{
    if actions.len() == 0 {
        seq![]
    } else {
        let front = answer_told(actions.drop_last());
        match actions.last() {
            TurnActionView::Tell(notice) => match notice.update {
                UpdateView::Message(text) => front + text,
                _ => front,
            },
            _ => front,
        }
    }
}

/// The pieces of the answer that some events bring to a thread, put together.
pub open spec fn answer_sent(events: Seq<TurnEventView>, thread_id: Seq<char>) -> Seq<char>
    decreases events.len(),
{
    if events.len() == 0 {
        seq![]
    } else {
        let front = answer_sent(events.drop_last(), thread_id);
        match events.last() {
            TurnEventView::Notification(notification) => match brought(
                notification,
                "item/agentMessage/delta"@,
                thread_id,
            ) {
                Some(text) => front + text,
                None => front,
            },
            _ => front,
        }
    }
}

/// The answer that the client is told reads as the server sent it: what it is told, put
/// together, is what was sent to the turn's thread, put together, as long as the prompt is not
/// over.
pub proof fn law_the_answer_reads_as_it_was_sent(turn: CodexTurnView, events: Seq<TurnEventView>)
    requires
        forall|i: int|
            0 <= i < events.len() ==> !turn_action(turn, #[trigger] events[i]).is_end(),
    ensures
        answer_told(told(turn, events)) == answer_sent(events, turn.thread_id),
        forall|i: int|
            0 <= i < told(turn, events).len() ==> !(#[trigger] told(turn, events)[i]).is_end(),
    decreases events.len(),
{
    if events.len() > 0 {
        let front = events.drop_last();
        assert forall|i: int| 0 <= i < front.len() implies !turn_action(
            turn,
            #[trigger] front[i],
        ).is_end() by {
            assert(front[i] == events[i]);
        }
        law_the_answer_reads_as_it_was_sent(turn, front);
        let earlier = told(turn, front);
        let action = turn_action(turn, events.last());
        assert(events[events.len() - 1] == events.last());
        if earlier.len() > 0 {
            assert(!earlier[earlier.len() - 1].is_end());
        }
        if !(action is Continue) {
            assert(told(turn, events) =~= earlier.push(action));
            assert(earlier.push(action).drop_last() =~= earlier);
        }
        if let TurnEventView::Notification(notification) = events.last() {
            law_the_answer_is_told_as_it_came(turn, notification);
        }
    }
}

/// A notification that is for no turn of the thread, has no method, or whose method is not known,
/// calls for nothing.
pub proof fn law_what_is_not_known_is_passed_over(turn: CodexTurnView, notification: Tree)
    ensures
        !is_for(notification, turn.thread_id) ==> notified(turn, notification) is Continue,
        (notification.get("method"@) matches Some(Tree::Text(method)) ==> method
            != "item/agentMessage/delta"@ && method != "item/reasoning/summaryTextDelta"@ && method
            != "item/reasoning/textDelta"@ && method != "item/plan/delta"@ && method
            != "item/started"@ && method != "item/completed"@ && method != "error"@ && method
            != "turn/completed"@) ==> notified(turn, notification) is Continue,
{
}

/// What the values of this module show in contracts is what they hold, part by part: nothing is
/// left out, and nothing is changed.
pub proof fn law_values_show_what_they_hold(
    codex_prompt: &CodexPrompt,
    pending_turn: &PendingTurn,
    prompt_step: &PromptStep,
    codex_turn: &CodexTurn,
    turn_event: &TurnEvent,
    update: &Update,
    notice: &Notice,
    turn_action: &TurnAction,
)
    ensures
        codex_prompt.deep_view() == (CodexPromptView {
            session_id: codex_prompt.session_id@,
            model: codex_prompt.model@,
            cwd: codex_prompt.cwd@,
            blocks: codex_prompt.blocks.deep_view(),
            meta: codex_prompt.meta.deep_view(),
        }),
        pending_turn.deep_view() == (PendingTurnView {
            session_id: pending_turn.session_id@,
            thread_id: pending_turn.thread_id@,
            meta: pending_turn.meta.deep_view(),
        }),
        prompt_step.deep_view() == (match prompt_step {
            PromptStep::StartThread(prompt, call) => PromptStepView::StartThread(
                prompt.deep_view(),
                call@,
            ),
            PromptStep::StartTurn(turn, call) => PromptStepView::StartTurn(turn.deep_view(), call@),
            PromptStep::Failed(error) => PromptStepView::Failed(error.deep_view()),
        }),
        codex_turn.deep_view() == (CodexTurnView {
            session_id: codex_turn.session_id@,
            thread_id: codex_turn.thread_id@,
            turn_id: codex_turn.turn_id@,
            meta: codex_turn.meta.deep_view(),
        }),
        turn_event.deep_view() == (match turn_event {
            TurnEvent::Notification(message) => TurnEventView::Notification(message@),
            TurnEvent::Lagged => TurnEventView::Lagged,
            TurnEvent::Closed => TurnEventView::Closed,
        }),
        update.deep_view() == (match update {
            Update::Message(text) => UpdateView::Message(text@),
            Update::Thought(text) => UpdateView::Thought(text@),
            Update::ToolCall(call) => UpdateView::ToolCall(call.deep_view()),
            Update::ToolUpdate(update) => UpdateView::ToolUpdate(update.deep_view()),
        }),
        notice.deep_view() == (NoticeView {
            session_id: notice.session_id@,
            update: notice.update.deep_view(),
            meta: notice.meta.deep_view(),
        }),
        turn_action.deep_view() == (match turn_action {
            TurnAction::Continue => TurnActionView::Continue,
            TurnAction::Tell(notice) => TurnActionView::Tell(notice.deep_view()),
            TurnAction::Failed(error) => TurnActionView::Failed(error.deep_view()),
            TurnAction::Stopped(reason) => TurnActionView::Stopped(*reason),
        }),
{
}

} // verus!
