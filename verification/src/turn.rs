//! Threads and turns of the connector: what is asked of the server, and what is shown of
//! the notifications of a turn.

use vstd::prelude::*;

use crate::json;
use crate::json::{get_in, str_in, str_in_or, true_in, Json, Tree};
use crate::rpc;
use crate::rpc::{Call, CallView};
use crate::text::same_text;
use crate::tools;
use crate::tools::tool_label;

verus! {

/// The sandbox that a thread is opened with: the workspace, unless full access is asked for.
pub open spec fn thread_sandbox(full_access: bool) -> Seq<char> {
    if full_access {
        "danger-full-access"@
    } else {
        "workspace-write"@
    }
}

/// `params` with the model, where one is given.
pub open spec fn with_model(params: Tree, model: Option<Seq<char>>) -> Tree {
    match model {
        Some(model) => params.with("model"@, Tree::Text(model)),
        None => params,
    }
}

fn add_model(params: Json, model: Option<&str>) -> (r: Json)
    ensures
        r@ == with_model(params@, model.deep_view()),
{
    match model {
        Some(model) => params.with_text("model", model),
        None => params,
    }
}

/// The call that opens a thread: a new one, or the one to resume.
pub open spec fn open_thread_view(
    cwd: Seq<char>,
    model: Option<Seq<char>>,
    resume: Option<Seq<char>>,
    full_access: bool,
) -> CallView {
    let params = with_model(
        Tree::empty()
            .with("cwd"@, Tree::Text(cwd))
            .with("approvalPolicy"@, Tree::Text("never"@))
            .with("sandbox"@, Tree::Text(thread_sandbox(full_access))),
        model,
    );
    match resume {
        Some(thread_id) => CallView {
            method: "thread/resume"@,
            params: params.with("threadId"@, Tree::Text(thread_id)),
        },
        None => CallView { method: "thread/start"@, params },
    }
}

/// The call that opens a thread: a new one, or the one to resume. What it comes to is found
/// with [`end_open`].
pub fn open_thread(
    cwd: &str,
    model: Option<&str>,
    resume: Option<&str>,
    full_access: bool,
) -> (r: Call)
    ensures
        r@ == open_thread_view(cwd@, model.deep_view(), resume.deep_view(), full_access),
{
    let sandbox: &str = if full_access {
        "danger-full-access"
    } else {
        "workspace-write"
    };
    let params = add_model(
        Json::object().with_text("cwd", cwd).with_text("approvalPolicy", "never").with_text(
            "sandbox",
            sandbox,
        ),
        model,
    );
    match resume {
        Some(thread_id) => Call::new("thread/resume", params.with_text("threadId", thread_id)),
        None => Call::new("thread/start", params),
    }
}

/// Why a thread is not open, where `E` is how a call fails.
pub enum OpenError<E> {
    /// The call failed.
    Call(E),
    /// The call failed, and so a thread is not resumed: what is said of it, and its cause.
    Resume(String, E),
    /// The server did not say which thread it is.
    NoThread(String),
}

/// What it means that a thread is not open.
pub enum OpenErrorView<E> {
    Call(E),
    Resume(Seq<char>, E),
    NoThread(Seq<char>),
}

impl<E> View for OpenError<E> {
    type V = OpenErrorView<E>;

    open spec fn view(&self) -> OpenErrorView<E> {
        match *self {
            OpenError::Call(error) => OpenErrorView::Call(error),
            OpenError::Resume(message, error) => OpenErrorView::Resume(message@, error),
            OpenError::NoThread(message) => OpenErrorView::NoThread(message@),
        }
    }
}

/// What is said of a thread that cannot be resumed.
pub open spec fn resume_failure(thread_id: Seq<char>) -> Seq<char> {
    "could not resume Codex thread '"@ + thread_id + "'"@
}

/// What is said of a thread that cannot be resumed.
pub fn resume_error(thread_id: &str) -> (r: String)
    ensures
        r@ == resume_failure(thread_id@),
{
    let mut message: String = "could not resume Codex thread '".to_owned();
    message.append(thread_id);
    message.append("'");
    message
}

/// The thread that is open, by what the call for it came to. Where a thread was to be resumed
/// and the call failed, the error says so, and has that of the call as its cause.
pub open spec fn open_outcome<E>(
    resume: Option<Seq<char>>,
    outcome: Result<Tree, E>,
) -> Result<Seq<char>, OpenErrorView<E>> {
    match outcome {
        Ok(response) => match rpc::thread_outcome(response) {
            Ok(thread_id) => Ok(thread_id),
            Err(error) => Err(OpenErrorView::NoThread(error)),
        },
        Err(error) => match resume {
            Some(thread_id) => Err(OpenErrorView::Resume(resume_failure(thread_id), error)),
            None => Err(OpenErrorView::Call(error)),
        },
    }
}

/// The thread that is open, by what the call for it came to: see [`open_thread`].
pub fn end_open<E>(resume: Option<&str>, outcome: Result<Json, E>) -> (r: Result<
    String,
    OpenError<E>,
>)
    ensures
        (match r {
            Ok(thread_id) => Ok(thread_id@),
            Err(error) => Err(error@),
        }) == open_outcome(
            resume.deep_view(),
            match outcome {
                Ok(response) => Ok(response@),
                Err(error) => Err(error),
            },
        ),
{
    match outcome {
        Ok(response) => match rpc::thread_id(&response) {
            Ok(thread_id) => Ok(thread_id),
            Err(error) => Err(OpenError::NoThread(error)),
        },
        Err(error) => match resume {
            Some(thread_id) => Err(OpenError::Resume(resume_error(thread_id), error)),
            None => Err(OpenError::Call(error)),
        },
    }
}

/// The sandbox that confines a turn to the directory `cwd`, without network.
pub open spec fn workspace_policy(cwd: Seq<char>) -> Tree {
    Tree::empty()
        .with("type"@, Tree::Text("workspaceWrite"@))
        .with("writableRoots"@, json::texts(seq![cwd]))
        .with("networkAccess"@, Tree::Bool(false))
        .with("excludeTmpdirEnvVar"@, Tree::Bool(false))
        .with("excludeSlashTmp"@, Tree::Bool(false))
}

/// The sandbox that confines a turn to the directory `cwd`, without network.
pub fn workspace_sandbox(cwd: &str) -> (r: Json)
    ensures
        r@ == workspace_policy(cwd@),
{
    let mut roots: Vec<String> = Vec::new();
    roots.push(cwd.to_owned());
    assert(roots.deep_view() =~= seq![cwd@]);
    Json::object().with_text("type", "workspaceWrite").with(
        "writableRoots",
        Json::texts(&roots),
    ).with("networkAccess", Json::Bool(false)).with("excludeTmpdirEnvVar", Json::Bool(false)).with(
        "excludeSlashTmp",
        Json::Bool(false),
    )
}

/// The sandbox of a turn: the workspace, unless full access is asked for.
pub open spec fn turn_sandbox(cwd: Seq<char>, full_access: bool) -> Tree {
    if full_access {
        Tree::empty().with("type"@, Tree::Text("dangerFullAccess"@))
    } else {
        workspace_policy(cwd)
    }
}

/// A piece of a prompt that is a text.
pub open spec fn text_input(text: Seq<char>) -> Tree {
    Tree::empty().with("type"@, Tree::Text("text"@)).with("text"@, Tree::Text(text))
}

/// A piece of a prompt that is a text.
pub fn input_text(text: &str) -> (r: Json)
    ensures
        r@ == text_input(text@),
{
    Json::object().with_text("type", "text").with_text("text", text)
}

/// The call that starts a turn with a prompt.
pub open spec fn start_turn_view(
    thread_id: Seq<char>,
    prompt: Seq<char>,
    model: Option<Seq<char>>,
    cwd: Seq<char>,
    full_access: bool,
) -> CallView {
    CallView {
        method: "turn/start"@,
        params: with_model(
            Tree::empty()
                .with("threadId"@, Tree::Text(thread_id))
                .with("input"@, Tree::Array(seq![text_input(prompt)]))
                .with("approvalPolicy"@, Tree::Text("never"@))
                .with("sandboxPolicy"@, turn_sandbox(cwd, full_access)),
            model,
        ),
    }
}

/// The call that starts a turn with a prompt.
pub fn start_turn(
    thread_id: &str,
    prompt: &str,
    model: Option<&str>,
    cwd: &str,
    full_access: bool,
) -> (r: Call)
    ensures
        r@ == start_turn_view(thread_id@, prompt@, model.deep_view(), cwd@, full_access),
{
    let sandbox = if full_access {
        Json::object().with_text("type", "dangerFullAccess")
    } else {
        workspace_sandbox(cwd)
    };
    let mut input: Vec<Json> = Vec::new();
    input.push(input_text(prompt));
    proof {
        json::lemma_array(input);
        assert(input.deep_view() =~= seq![text_input(prompt@)]);
    }
    let params = Json::object().with_text("threadId", thread_id).with(
        "input",
        Json::Array(input),
    ).with_text("approvalPolicy", "never").with("sandboxPolicy", sandbox);
    Call::new("turn/start", add_model(params, model))
}

/// A turn that runs: its thread, its identifier where the server gave one, and whether any
/// of its text has been shown.
pub struct Turn {
    pub thread_id: String,
    pub turn_id: Option<String>,
    pub wrote_text: bool,
}

/// What a running turn means.
pub struct TurnView {
    pub thread_id: Seq<char>,
    pub turn_id: Option<Seq<char>>,
    pub wrote_text: bool,
}

impl DeepView for Turn {
    type V = TurnView;

    open spec fn deep_view(&self) -> TurnView {
        TurnView {
            thread_id: self.thread_id@,
            turn_id: self.turn_id.deep_view(),
            wrote_text: self.wrote_text,
        }
    }
}

/// What is to be done on a notification.
pub enum TurnStep {
    /// Nothing.
    Continue,
    /// Show text of the turn.
    Print(String),
    /// Show the label of a tool that has started.
    Announce(String),
    /// The turn is over: it failed.
    Failed(String),
    /// The turn is over. Where text was shown, a line break is to follow it.
    Completed { line_break: bool },
}

/// What a step of a turn means.
pub enum TurnStepView {
    Continue,
    Print(Seq<char>),
    Announce(Seq<char>),
    Failed(Seq<char>),
    Completed { line_break: bool },
}

impl DeepView for TurnStep {
    type V = TurnStepView;

    open spec fn deep_view(&self) -> TurnStepView {
        match self {
            TurnStep::Continue => TurnStepView::Continue,
            TurnStep::Print(text) => TurnStepView::Print(text@),
            TurnStep::Announce(label) => TurnStepView::Announce(label@),
            TurnStep::Failed(error) => TurnStepView::Failed(error@),
            TurnStep::Completed { line_break } => TurnStepView::Completed {
                line_break: *line_break,
            },
        }
    }
}

/// The parameter `name` of a notification.
pub open spec fn param(notification: Tree, name: Seq<char>) -> Option<Tree> {
    json::at(notification.get("params"@), name)
}

/// The parameter `name` of a notification.
pub fn param_in<'a>(notification: &'a Json, name: &str) -> (r: Option<&'a Json>)
    ensures
        r.deep_view() == param(notification@, name@),
{
    get_in(notification.get("params"), name)
}

/// Whether a notification names a thread other than `thread_id`.
pub open spec fn of_other_thread(notification: Tree, thread_id: Seq<char>) -> bool {
    match json::text_of(param(notification, "threadId"@)) {
        Some(id) => id != thread_id,
        None => false,
    }
}

/// Whether a notification names a thread other than `thread_id`.
pub fn is_of_other_thread(notification: &Json, thread_id: &str) -> (r: bool)
    ensures
        r == of_other_thread(notification@, thread_id@),
{
    match str_in(param_in(notification, "threadId")) {
        Some(id) => !same_text(id, thread_id),
        None => false,
    }
}

/// The message of an error that a notification reports.
pub open spec fn reported_error(notification: Tree) -> Seq<char> {
    json::text_or(
        json::at(param(notification, "error"@), "message"@),
        "Codex app-server reported an error"@,
    )
}

/// The message of an error that a notification reports.
pub fn error_in(notification: &Json) -> (r: &str)
    ensures
        r@ == reported_error(notification@),
{
    str_in_or(
        get_in(param_in(notification, "error"), "message"),
        "Codex app-server reported an error",
    )
}

/// The status of a turn that has ended, which is `completed` where none is given.
pub open spec fn ended_status(notification: Tree) -> Seq<char> {
    json::text_or(json::at(param(notification, "turn"@), "status"@), "completed"@)
}

/// The status of a turn that has ended, which is `completed` where none is given.
pub fn status_in(notification: &Json) -> (r: &str)
    ensures
        r@ == ended_status(notification@),
{
    str_in_or(get_in(param_in(notification, "turn"), "status"), "completed")
}

/// Why a turn failed.
pub open spec fn failure(notification: Tree) -> Seq<char> {
    json::text_or(
        json::at(json::at(param(notification, "turn"@), "error"@), "message"@),
        "Codex turn failed"@,
    )
}

/// Why a turn failed.
pub fn failure_in(notification: &Json) -> (r: &str)
    ensures
        r@ == failure(notification@),
{
    str_in_or(
        get_in(get_in(param_in(notification, "turn"), "error"), "message"),
        "Codex turn failed",
    )
}

/// The identifier of the turn that a notification is about.
pub open spec fn turn_named(notification: Tree) -> Option<Seq<char>> {
    json::text_of(json::at(param(notification, "turn"@), "id"@))
}

/// The method of a notification.
pub open spec fn method_of(notification: Tree) -> Option<Seq<char>> {
    json::text_of(notification.get("method"@))
}

/// What is to be done on a notification while `turn` runs. Those of another thread and the
/// end of another turn are passed over; so is an error that the server will retry after.
pub open spec fn turn_step(turn: TurnView, notification: Tree) -> TurnStepView {
    let method = method_of(notification);
    if of_other_thread(notification, turn.thread_id) {
        TurnStepView::Continue
    } else if method == Some("item/agentMessage/delta"@) || method == Some("item/plan/delta"@) {
        match json::text_of(param(notification, "delta"@)) {
            Some(delta) => TurnStepView::Print(delta),
            None => TurnStepView::Continue,
        }
    } else if method == Some("item/started"@) {
        match tools::label(param(notification, "item"@)) {
            Some(label) => TurnStepView::Announce(label),
            None => TurnStepView::Continue,
        }
    } else if method == Some("error"@) && !json::is_true(param(notification, "willRetry"@)) {
        TurnStepView::Failed(reported_error(notification))
    } else if method == Some("turn/completed"@) {
        if turn.turn_id is Some && turn_named(notification) != turn.turn_id {
            TurnStepView::Continue
        } else if ended_status(notification) == "failed"@ {
            TurnStepView::Failed(failure(notification))
        } else {
            TurnStepView::Completed { line_break: turn.wrote_text }
        }
    } else {
        TurnStepView::Continue
    }
}

/// The turn after a notification: it has shown text once any has been shown.
pub open spec fn turn_after(turn: TurnView, notification: Tree) -> TurnView {
    TurnView { wrote_text: turn.wrote_text || turn_step(turn, notification) is Print, ..turn }
}

/// The turn that the server has started on a thread, by what it gave back.
pub open spec fn started(thread_id: Seq<char>, response: Tree) -> TurnView {
    TurnView { thread_id, turn_id: rpc::turn_of(response), wrote_text: false }
}

impl Turn {
    /// The turn that the server has started on a thread, by what it gave back.
    pub fn started(thread_id: &str, response: &Json) -> (r: Turn)
        ensures
            r.deep_view() == started(thread_id@, response@),
    {
        Turn {
            thread_id: thread_id.to_owned(),
            turn_id: rpc::turn_id(response),
            wrote_text: false,
        }
    }

    /// What is to be done on a notification while the turn runs.
    pub fn step(&mut self, notification: &Json) -> (r: TurnStep)
        ensures
            r.deep_view() == turn_step(old(self).deep_view(), notification@),
            final(self).deep_view() == turn_after(old(self).deep_view(), notification@),
    {
        if is_of_other_thread(notification, self.thread_id.as_str()) {
            return TurnStep::Continue;
        }
        let method = match str_in(notification.get("method")) {
            Some(method) => method,
            None => {
                return TurnStep::Continue;
            },
        };
        if same_text(method, "item/agentMessage/delta") || same_text(method, "item/plan/delta") {
            match str_in(param_in(notification, "delta")) {
                Some(delta) => {
                    self.wrote_text = true;
                    TurnStep::Print(delta.to_owned())
                },
                None => TurnStep::Continue,
            }
        } else if same_text(method, "item/started") {
            match tool_label(param_in(notification, "item")) {
                Some(label) => TurnStep::Announce(label),
                None => TurnStep::Continue,
            }
        } else if same_text(method, "error") && !true_in(param_in(notification, "willRetry")) {
            TurnStep::Failed(error_in(notification).to_owned())
        } else if same_text(method, "turn/completed") {
            if let Some(expected) = &self.turn_id {
                let own: bool = match str_in(get_in(param_in(notification, "turn"), "id")) {
                    Some(id) => same_text(id, expected.as_str()),
                    None => false,
                };
                if !own {
                    return TurnStep::Continue;
                }
            }
            if same_text(status_in(notification), "failed") {
                TurnStep::Failed(failure_in(notification).to_owned())
            } else {
                TurnStep::Completed { line_break: self.wrote_text }
            }
        } else {
            TurnStep::Continue
        }
    }
}

/// Access to the whole host is an explicit opt-in: without it a thread is opened, and each
/// of its turns is run, in the sandbox that can write to the workspace alone.
pub proof fn law_full_access_is_an_opt_in(
    cwd: Seq<char>,
    model: Option<Seq<char>>,
    resume: Option<Seq<char>>,
    thread_id: Seq<char>,
    prompt: Seq<char>,
    full_access: bool,
)
    ensures
        open_thread_view(cwd, model, resume, full_access).params.get("sandbox"@) == Some(
            Tree::Text(
                if full_access {
                    "danger-full-access"@
                } else {
                    "workspace-write"@
                },
            ),
        ),
        start_turn_view(thread_id, prompt, model, cwd, full_access).params.get("sandboxPolicy"@)
            == Some(
            if full_access {
                Tree::empty().with("type"@, Tree::Text("dangerFullAccess"@))
            } else {
                workspace_policy(cwd)
            },
        ),
{
    reveal_strlit("sandbox");
    reveal_strlit("sandboxPolicy");
    reveal_strlit("model");
    reveal_strlit("threadId");
    assert("sandbox"@.len() == 7 && "sandboxPolicy"@.len() == 13 && "model"@.len() == 5
        && "threadId"@.len() == 8);
}

/// A thread is resumed with what a new one would be started with, and its identifier.
pub proof fn law_resume_names_the_thread(
    cwd: Seq<char>,
    model: Option<Seq<char>>,
    thread_id: Seq<char>,
    full_access: bool,
)
    ensures
        open_thread_view(cwd, model, Some(thread_id), full_access) == (CallView {
            method: "thread/resume"@,
            params: open_thread_view(cwd, model, None, full_access).params.with(
                "threadId"@,
                Tree::Text(thread_id),
            ),
        }),
        open_thread_view(cwd, model, Some(thread_id), full_access).params.get("threadId"@) == Some(
            Tree::Text(thread_id),
        ),
        open_thread_view(cwd, model, None, full_access).params.get("threadId"@) is None,
{
    reveal_strlit("cwd");
    reveal_strlit("approvalPolicy");
    reveal_strlit("sandbox");
    reveal_strlit("model");
    reveal_strlit("threadId");
    assert("cwd"@.len() == 3 && "approvalPolicy"@.len() == 14 && "sandbox"@.len() == 7
        && "model"@.len() == 5 && "threadId"@.len() == 8);
}

/// A thread is open exactly where the call succeeded and its result names a thread, whether or
/// not the thread was to be resumed. No error of the call is lost, and that a thread was not
/// resumed is said exactly where it was to be and the call failed.
pub proof fn law_open_errors_are_told_apart<E>(
    resume: Option<Seq<char>>,
    outcome: Result<Tree, E>,
)
    ensures
        open_outcome(resume, outcome) is Ok <==> outcome is Ok && rpc::thread_outcome(
            outcome->Ok_0,
        ) is Ok,
        outcome is Ok ==> open_outcome(resume, outcome) == open_outcome(None, outcome),
        outcome matches Err(error) ==> open_outcome(resume, outcome) == Err::<Seq<char>, _>(
            match resume {
                Some(thread_id) => OpenErrorView::Resume(
                    "could not resume Codex thread '"@ + thread_id + "'"@,
                    error,
                ),
                None => OpenErrorView::Call(error),
            },
        ),
{
}

/// A notification of another thread neither shows anything nor changes or ends the turn.
pub proof fn law_other_threads_are_passed_over(turn: TurnView, notification: Tree)
    requires
        of_other_thread(notification, turn.thread_id),
    ensures
        turn_step(turn, notification) is Continue,
        turn_after(turn, notification) == turn,
{
}

/// A turn that has an identifier is completed only by a notification that bears it.
pub proof fn law_only_its_own_end_completes_a_turn(turn: TurnView, notification: Tree)
    requires
        turn_step(turn, notification) is Completed,
        turn.turn_id is Some,
    ensures
        method_of(notification) == Some("turn/completed"@),
        turn_named(notification) == turn.turn_id,
        !of_other_thread(notification, turn.thread_id),
{
}

/// The turn after some notifications.
pub open spec fn turn_run(turn: TurnView, notifications: Seq<Tree>) -> TurnView
    decreases notifications.len(),
{
    if notifications.len() == 0 {
        turn
    } else {
        turn_after(turn_run(turn, notifications.drop_last()), notifications.last())
    }
}

/// A completed turn ends with a line break exactly where any of its notifications was shown
/// as text.
pub proof fn law_line_break_follows_text(
    turn: TurnView,
    notifications: Seq<Tree>,
    last: Tree,
)
    requires
        !turn.wrote_text,
        turn_step(turn_run(turn, notifications), last) is Completed,
    ensures
        turn_step(turn_run(turn, notifications), last) == (TurnStepView::Completed {
            line_break: exists|i: int|
                0 <= i < notifications.len() && turn_step(turn, #[trigger] notifications[i]) is Print,
        }),
{
    lemma_wrote_text(turn, notifications);
}

proof fn lemma_wrote_text(turn: TurnView, notifications: Seq<Tree>)
    requires
        !turn.wrote_text,
    ensures
        turn_run(turn, notifications) == (TurnView {
            wrote_text: exists|i: int|
                0 <= i < notifications.len() && turn_step(turn, #[trigger] notifications[i]) is Print,
            ..turn
        }),
    decreases notifications.len(),
{
    if notifications.len() > 0 {
        let front = notifications.drop_last();
        let last = notifications[notifications.len() - 1];
        lemma_wrote_text(turn, front);
        assert(turn_step(turn_run(turn, front), last) is Print <==> turn_step(turn, last) is Print);
        if turn_run(turn, front).wrote_text {
            let i = choose|i: int|
                0 <= i < front.len() && turn_step(turn, #[trigger] front[i]) is Print;
            assert(notifications[i] == front[i]);
        }
        if exists|i: int|
            0 <= i < notifications.len() && turn_step(
                turn,
                #[trigger] notifications[i],
            ) is Print {
            let i = choose|i: int|
                0 <= i < notifications.len() && turn_step(
                    turn,
                    #[trigger] notifications[i],
                ) is Print;
            if i < front.len() {
                assert(front[i] == notifications[i]);
            }
        }
    }
}

/// The sandbox of the workspace lets a turn write to the one directory and to no other, keeps
/// it from the network, and leaves the directories for temporary files as they are.
pub proof fn law_workspace_policy_confines(cwd: Seq<char>, other: Seq<char>)
    ensures
        workspace_policy(cwd).get("type"@) == Some(Tree::Text("workspaceWrite"@)),
        workspace_policy(cwd).get("writableRoots"@) == Some(Tree::Array(seq![Tree::Text(cwd)])),
        workspace_policy(cwd).get("networkAccess"@) == Some(Tree::Bool(false)),
        workspace_policy(cwd).get("excludeTmpdirEnvVar"@) == Some(Tree::Bool(false)),
        workspace_policy(cwd).get("excludeSlashTmp"@) == Some(Tree::Bool(false)),
        other != "type"@ && other != "writableRoots"@ && other != "networkAccess"@ && other
            != "excludeTmpdirEnvVar"@ && other != "excludeSlashTmp"@ ==> workspace_policy(cwd).get(
            other,
        ) is None,
{
    reveal_strlit("type");
    reveal_strlit("writableRoots");
    reveal_strlit("networkAccess");
    reveal_strlit("excludeTmpdirEnvVar");
    reveal_strlit("excludeSlashTmp");
    assert("type"@.len() == 4 && "writableRoots"@.len() == 13 && "networkAccess"@.len() == 13 && "excludeTmpdirEnvVar"@.len() == 19 && "excludeSlashTmp"@.len() == 15);
    assert("writableRoots"@[0] == 'w' && "networkAccess"@[0] == 'n');
    assert(json::texts(seq![cwd])->Array_0 =~= seq![Tree::Text(cwd)]);
}

/// A thread is opened in the directory and with the model that were asked for, and a resumed
/// one under its own identifier; without a model none is named, and nothing else is said.
pub proof fn law_threads_are_opened_as_asked(
    cwd: Seq<char>,
    model: Option<Seq<char>>,
    resume: Option<Seq<char>>,
    full_access: bool,
    other: Seq<char>,
)
    ensures
        ({
            let call = open_thread_view(cwd, model, resume, full_access);
            &&& call.method == (if resume is Some {
                "thread/resume"@
            } else {
                "thread/start"@
            })
            &&& call.params.get("cwd"@) == Some(Tree::Text(cwd))
            &&& call.params.get("approvalPolicy"@) == Some(Tree::Text("never"@))
            &&& call.params.get("sandbox"@) == Some(
                Tree::Text(
                    if full_access {
                        "danger-full-access"@
                    } else {
                        "workspace-write"@
                    },
                ),
            )
            &&& model matches Some(m) ==> call.params.get("model"@) == Some(Tree::Text(m))
            &&& model is None ==> call.params.get("model"@) is None
            &&& resume matches Some(id) ==> call.params.get("threadId"@) == Some(Tree::Text(id))
            &&& resume is None ==> call.params.get("threadId"@) is None
            &&& other != "cwd"@ && other != "approvalPolicy"@ && other != "sandbox"@ && other
                != "model"@ && other != "threadId"@ ==> call.params.get(other) is None
        }),
{
    reveal_strlit("cwd");
    reveal_strlit("approvalPolicy");
    reveal_strlit("sandbox");
    reveal_strlit("model");
    reveal_strlit("threadId");
    assert("cwd"@.len() == 3 && "approvalPolicy"@.len() == 14 && "sandbox"@.len() == 7 && "model"@.len() == 5 && "threadId"@.len() == 8);
}

/// A turn is started on its thread, with the prompt as it was typed, with the model that was
/// asked for whatever the access, and in the sandbox that the access calls for; without a
/// model none is named, and nothing else is said.
pub proof fn law_turns_are_started_as_asked(
    thread_id: Seq<char>,
    prompt: Seq<char>,
    model: Option<Seq<char>>,
    cwd: Seq<char>,
    full_access: bool,
    other: Seq<char>,
)
    ensures
        ({
            let call = start_turn_view(thread_id, prompt, model, cwd, full_access);
            let policy = call.params.get("sandboxPolicy"@);
            &&& call.method == "turn/start"@
            &&& call.params.get("threadId"@) == Some(Tree::Text(thread_id))
            &&& call.params.get("input"@) matches Some(Tree::Array(input)) && input.len() == 1
                && input[0].get("type"@) == Some(Tree::Text("text"@)) && input[0].get("text"@)
                == Some(Tree::Text(prompt))
            &&& call.params.get("approvalPolicy"@) == Some(Tree::Text("never"@))
            &&& model matches Some(m) ==> call.params.get("model"@) == Some(Tree::Text(m))
            &&& model is None ==> call.params.get("model"@) is None
            &&& full_access ==> json::at(policy, "type"@) == Some(Tree::Text("dangerFullAccess"@))
                && json::at(policy, "writableRoots"@) is None
            &&& !full_access ==> {
                &&& json::at(policy, "type"@) == Some(Tree::Text("workspaceWrite"@))
                &&& json::at(policy, "writableRoots"@) == Some(
                    Tree::Array(seq![Tree::Text(cwd)]),
                )
                &&& json::at(policy, "networkAccess"@) == Some(Tree::Bool(false))
            }
            &&& other != "threadId"@ && other != "input"@ && other != "approvalPolicy"@ && other
                != "sandboxPolicy"@ && other != "model"@ ==> call.params.get(other) is None
        }),
{
    reveal_strlit("threadId");
    reveal_strlit("input");
    reveal_strlit("approvalPolicy");
    reveal_strlit("sandboxPolicy");
    reveal_strlit("model");
    assert("threadId"@.len() == 8 && "input"@.len() == 5 && "approvalPolicy"@.len() == 14 && "sandboxPolicy"@.len() == 13 && "model"@.len() == 5);
    assert("input"@[0] == 'i' && "model"@[0] == 'm');
    law_text_input_is_the_text(prompt, other);
    law_workspace_policy_confines(cwd, other);
    reveal_strlit("type");
    reveal_strlit("writableRoots");
    assert("type"@.len() == 4 && "writableRoots"@.len() == 13);
}

/// A piece of input that is a text says so, holds the text as it is, and says nothing else.
pub proof fn law_text_input_is_the_text(text: Seq<char>, other: Seq<char>)
    ensures
        text_input(text).get("type"@) == Some(Tree::Text("text"@)),
        text_input(text).get("text"@) == Some(Tree::Text(text)),
        other != "type"@ && other != "text"@ ==> text_input(text).get(other) is None,
{
    reveal_strlit("type");
    reveal_strlit("text");
    assert("type"@.len() == 4 && "text"@.len() == 4);
    assert("type"@[1] == 'y' && "text"@[1] == 'e');
}

/// What a notification says is read where it stands: its parameters under their names, the
/// error and the turn that it reports, and the thread that it names.
pub proof fn law_notifications_are_read_where_they_say_it(
    notification: Tree,
    name: Seq<char>,
    thread_id: Seq<char>,
)
    ensures
        param(notification, name) == json::at(notification.get("params"@), name),
        of_other_thread(notification, thread_id) <==> (json::at(
            notification.get("params"@),
            "threadId"@,
        ) matches Some(Tree::Text(id)) && id != thread_id),
        method_of(notification) == (match notification.get("method"@) {
            Some(Tree::Text(method)) => Some(method),
            _ => None,
        }),
        turn_named(notification) == (match json::at(
            json::at(notification.get("params"@), "turn"@),
            "id"@,
        ) {
            Some(Tree::Text(id)) => Some(id),
            _ => None,
        }),
        ended_status(notification) == (match json::at(
            json::at(notification.get("params"@), "turn"@),
            "status"@,
        ) {
            Some(Tree::Text(status)) => status,
            _ => "completed"@,
        }),
        reported_error(notification) == (match json::at(
            json::at(notification.get("params"@), "error"@),
            "message"@,
        ) {
            Some(Tree::Text(text)) => text,
            _ => "Codex app-server reported an error"@,
        }),
        failure(notification) == (match json::at(
            json::at(json::at(notification.get("params"@), "turn"@), "error"@),
            "message"@,
        ) {
            Some(Tree::Text(text)) => text,
            _ => "Codex turn failed"@,
        }),
{
}

/// The piece of text that a notification brings to the turn of a thread: nothing, unless it is
/// a piece of the answer or of the plan and names no other thread.
pub open spec fn piece(notification: Tree, thread_id: Seq<char>) -> Option<Seq<char>> {
    let params = notification.get("params"@);
    let method = notification.get("method"@);
    let own = match json::at(params, "threadId"@) {
        Some(Tree::Text(id)) => id == thread_id,
        _ => true,
    };
    if own && (method == Some(Tree::Text("item/agentMessage/delta"@)) || method == Some(
        Tree::Text("item/plan/delta"@),
    )) {
        match json::at(params, "delta"@) {
            Some(Tree::Text(text)) => Some(text),
            _ => None,
        }
    } else {
        None
    }
}

/// A turn shows each piece of its text as it came, character for character, and shows nothing
/// else as text.
pub proof fn law_text_is_shown_as_it_came(turn: TurnView, notification: Tree)
    ensures
        turn_step(turn, notification) is Print <==> piece(notification, turn.thread_id) is Some,
        turn_step(turn, notification) matches TurnStepView::Print(text) ==> Some(text) == piece(
            notification,
            turn.thread_id,
        ),
{
    lemma_turn_methods();
}

proof fn lemma_turn_methods()
    ensures
        "item/agentMessage/delta"@.len() == 23,
        "item/plan/delta"@.len() == 15,
        "item/started"@.len() == 12,
        "turn/completed"@.len() == 14,
        "error"@.len() == 5,
{
    reveal_strlit("item/agentMessage/delta");
    reveal_strlit("item/plan/delta");
    reveal_strlit("item/started");
    reveal_strlit("turn/completed");
    reveal_strlit("error");
    assert("item/agentMessage/delta"@.len() == 23 && "item/plan/delta"@.len() == 15 && "item/started"@.len() == 12 && "turn/completed"@.len() == 14 && "error"@.len() == 5);
}

/// The texts that some notifications have the turn show, one after the other.
pub open spec fn shown_text(turn: TurnView, notifications: Seq<Tree>) -> Seq<char>
    decreases notifications.len(),
{
    if notifications.len() == 0 {
        seq![]
    } else {
        let front = notifications.drop_last();
        match turn_step(turn_run(turn, front), notifications.last()) {
            TurnStepView::Print(text) => shown_text(turn, front) + text,
            _ => shown_text(turn, front),
        }
    }
}

/// The pieces of text that some notifications bring to a thread, one after the other.
pub open spec fn pieces(notifications: Seq<Tree>, thread_id: Seq<char>) -> Seq<char>
    decreases notifications.len(),
{
    if notifications.len() == 0 {
        seq![]
    } else {
        let front = pieces(notifications.drop_last(), thread_id);
        match piece(notifications.last(), thread_id) {
            Some(text) => front + text,
            None => front,
        }
    }
}

proof fn lemma_run_keeps_the_turn(turn: TurnView, notifications: Seq<Tree>)
    ensures
        turn_run(turn, notifications).thread_id == turn.thread_id,
        turn_run(turn, notifications).turn_id == turn.turn_id,
    decreases notifications.len(),
{
    if notifications.len() > 0 {
        lemma_run_keeps_the_turn(turn, notifications.drop_last());
    }
}

/// What a turn shows reads as what was sent: the texts shown, put together, are the pieces that
/// came in, put together.
pub proof fn law_shown_text_is_what_was_sent(turn: TurnView, notifications: Seq<Tree>)
    ensures
        shown_text(turn, notifications) == pieces(notifications, turn.thread_id),
    decreases notifications.len(),
{
    if notifications.len() > 0 {
        let front = notifications.drop_last();
        law_shown_text_is_what_was_sent(turn, front);
        lemma_run_keeps_the_turn(turn, front);
        law_text_is_shown_as_it_came(turn_run(turn, front), notifications.last());
    }
}

/// A turn announces a tool exactly where a notification of its thread says that an item with a
/// label has started, and by that label.
pub proof fn law_tools_are_announced_by_label(turn: TurnView, notification: Tree)
    ensures
        turn_step(turn, notification) is Announce <==> {
            &&& notification.get("method"@) == Some(Tree::Text("item/started"@))
            &&& !(json::at(notification.get("params"@), "threadId"@) matches Some(Tree::Text(id))
                && id != turn.thread_id)
            &&& tools::label(json::at(notification.get("params"@), "item"@)) is Some
        },
        turn_step(turn, notification) matches TurnStepView::Announce(label) ==> Some(label)
            == tools::label(json::at(notification.get("params"@), "item"@)),
{
    lemma_turn_methods();
}

/// A turn ends exactly with an error of its thread that the server will not retry after, or
/// with the end of the turn itself, which is any turn's where its own identifier is not known.
/// It fails with the message of the error, or with that of a turn that failed, and is completed
/// by any other end.
pub proof fn law_a_turn_ends_as_reported(turn: TurnView, notification: Tree)
    ensures
        ({
            let params = notification.get("params"@);
            let method = notification.get("method"@);
            let own = !(json::at(params, "threadId"@) matches Some(Tree::Text(id)) && id
                != turn.thread_id);
            let fatal = own && method == Some(Tree::Text("error"@)) && json::at(
                params,
                "willRetry"@,
            ) != Some(Tree::Bool(true));
            let over = own && method == Some(Tree::Text("turn/completed"@)) && (turn.turn_id
                is None || json::at(json::at(params, "turn"@), "id"@) == Some(
                Tree::Text(turn.turn_id->0),
            ));
            let status = json::at(json::at(params, "turn"@), "status"@);
            let step = turn_step(turn, notification);
            &&& fatal ==> step == TurnStepView::Failed(reported_error(notification))
            &&& over && status == Some(Tree::Text("failed"@)) ==> step == TurnStepView::Failed(
                failure(notification),
            )
            &&& over && status != Some(Tree::Text("failed"@)) ==> step
                == (TurnStepView::Completed { line_break: turn.wrote_text })
            &&& !fatal && !over ==> !(step is Failed) && !(step is Completed)
        }),
{
    lemma_turn_methods();
    reveal_strlit("failed");
    reveal_strlit("completed");
    assert("failed"@.len() == 6 && "completed"@.len() == 9);
}

/// A notification leaves the turn as it is, but for whether any text has been shown: that it
/// has is never forgotten, and becomes so exactly with text.
pub proof fn law_only_text_marks_a_turn(turn: TurnView, notification: Tree)
    ensures
        turn_after(turn, notification).thread_id == turn.thread_id,
        turn_after(turn, notification).turn_id == turn.turn_id,
        turn_after(turn, notification).wrote_text <==> turn.wrote_text || piece(
            notification,
            turn.thread_id,
        ) is Some,
{
    law_text_is_shown_as_it_came(turn, notification);
}

/// What the values of this module show in contracts is what they hold, part by part: nothing is
/// left out, and nothing is changed.
pub proof fn law_values_show_what_they_hold<E>(
    open_error: &OpenError<E>,
    turn: &Turn,
    turn_step: &TurnStep,
)
    ensures
        open_error.view() == (match *open_error {
            OpenError::Call(error) => OpenErrorView::Call(error),
            OpenError::Resume(message, error) => OpenErrorView::Resume(message@, error),
            OpenError::NoThread(message) => OpenErrorView::NoThread(message@),
        }),
        turn.deep_view() == (TurnView {
            thread_id: turn.thread_id@,
            turn_id: turn.turn_id.deep_view(),
            wrote_text: turn.wrote_text,
        }),
        turn_step.deep_view() == (match turn_step {
            TurnStep::Continue => TurnStepView::Continue,
            TurnStep::Print(text) => TurnStepView::Print(text@),
            TurnStep::Announce(label) => TurnStepView::Announce(label@),
            TurnStep::Failed(error) => TurnStepView::Failed(error@),
            TurnStep::Completed { line_break } => TurnStepView::Completed {
                line_break: *line_break,
            },
        }),
{
}

/// A turn begins on its thread, under the identifier that the server gave it, if it gave one,
/// and has shown no text yet.
pub proof fn law_a_turn_begins_as_the_server_says(thread_id: Seq<char>, response: Tree)
    ensures
        started(thread_id, response).thread_id == thread_id,
        started(thread_id, response).turn_id == (match json::at(response.get("turn"@), "id"@) {
            Some(Tree::Text(id)) => Some(id),
            _ => None,
        }),
        !started(thread_id, response).wrote_text,
{
}

} // verus!
