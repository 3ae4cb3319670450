//! A connection to the app-server whose reader never stops: it resolves requests, answers
//! the server, and hands notifications on to whoever listens.

use std::collections::HashMap;
use vstd::prelude::*;

use crate::json;
use crate::json::{str_in_or, Json, Tree};
use crate::rpc;
use crate::rpc::{result_view, Call, CallView};
use crate::turn;

verus! {

broadcast use vstd::std_specs::hash::group_hash_axioms;

/// The requests of a connection. A ticket stands for whoever waits for a response.
#[verifier::reject_recursive_types(T)]
pub struct CodexAppServer<T> {
    next_id: u64,
    pending: HashMap<u64, T>,
}

/// What the requests of a connection are: the identifier of the next one, and the tickets
/// of those that have no response yet.
#[verifier::reject_recursive_types(T)]
pub struct ServerView<T> {
    pub next_id: u64,
    pub pending: Map<u64, T>,
}

impl<T> View for CodexAppServer<T> {
    type V = ServerView<T>;

    closed spec fn view(&self) -> ServerView<T> {
        ServerView { next_id: self.next_id, pending: self.pending@ }
    }
}

impl<T> ServerView<T> {
    /// Whether every request that waits was made before the next one.
    pub open spec fn wf(self) -> bool {
        forall|id: u64| #[trigger] self.pending.contains_key(id) ==> id < self.next_id
    }
}

/// What becomes of a message that the reader reads.
pub enum Dispatch<T> {
    /// The response to a request, for the one who waits for it.
    Resolve(T, Result<Json, String>),
    /// A request of the server, and the message that answers it.
    Answer(Json),
    /// A notification, for all who listen.
    Notify(Json),
    /// A response that nobody waits for, or a message that is neither.
    Ignore,
}

/// What the dispatch of a message means.
pub enum DispatchView<T> {
    Resolve(T, Result<Tree, Seq<char>>),
    Answer(Tree),
    Notify(Tree),
    Ignore,
}

impl<T> View for Dispatch<T> {
    type V = DispatchView<T>;

    open spec fn view(&self) -> DispatchView<T> {
        match *self {
            Dispatch::Resolve(ticket, outcome) => DispatchView::Resolve(
                ticket,
                result_view(outcome),
            ),
            Dispatch::Answer(answer) => DispatchView::Answer(answer@),
            Dispatch::Notify(message) => DispatchView::Notify(message@),
            Dispatch::Ignore => DispatchView::Ignore,
        }
    }
}

/// The message that answers a request of the server. Approvals are declined, and any other
/// request is refused. A message without an identifier is not answered.
pub open spec fn server_answer(request: Tree) -> Option<Tree> {
    match request.get("id"@) {
        None => None,
        Some(id) => {
            let method = json::text_or(request.get("method"@), ""@);
            if rpc::approval_method(method) {
                Some(rpc::result_tree(id, rpc::decline_tree()))
            } else {
                Some(
                    rpc::refusal_tree(
                        id,
                        "Grox does not yet support Codex server request: "@ + method,
                    ),
                )
            }
        },
    }
}

/// The message that answers a request of the server. Approvals are declined, and any other
/// request is refused. A message without an identifier is not answered.
pub fn answer_server_request(request: &Json) -> (r: Option<Json>)
    ensures
        r.deep_view() == server_answer(request@),
{
    let id = match request.get("id") {
        Some(id) => id.copy(),
        None => {
            return None;
        },
    };
    let method = str_in_or(request.get("method"), "");
    if rpc::is_approval(method) {
        Some(rpc::result_message(id, rpc::decline()))
    } else {
        let mut message: String = "Grox does not yet support Codex server request: ".to_owned();
        message.append(method);
        Some(rpc::refusal_message(id, message.as_str()))
    }
}

/// What becomes of a message, where `pending` holds the tickets of the requests that wait.
pub open spec fn dispatched<T>(pending: Map<u64, T>, message: Tree) -> DispatchView<T> {
    match rpc::response_id(message) {
        Some(id) => if pending.contains_key(id) {
            DispatchView::Resolve(pending[id], rpc::response_outcome(message))
        } else {
            DispatchView::Ignore
        },
        None => if rpc::server_request(message) {
            DispatchView::Answer(server_answer(message)->0)
        } else if message.get("method"@) is Some {
            DispatchView::Notify(message)
        } else {
            DispatchView::Ignore
        },
    }
}

/// The tickets after a message: without that of the request that it responds to.
pub open spec fn pending_after<T>(pending: Map<u64, T>, message: Tree) -> Map<u64, T> {
    match rpc::response_id(message) {
        Some(id) => pending.remove(id),
        None => pending,
    }
}

impl<T> CodexAppServer<T> {
    /// A connection on which nothing has been asked yet.
    pub fn new() -> (r: CodexAppServer<T>)
        ensures
            r@ == (ServerView::<T> { next_id: 1, pending: Map::empty() }),
            r@.wf(),
    {
        CodexAppServer { next_id: 1, pending: HashMap::new() }
    }

    /// The identifier of the next request.
    pub fn next_id(&self) -> (r: u64)
        ensures
            r == self@.next_id,
    {
        self.next_id
    }

    /// Begins a request: its identifier, and the message to send. The ticket is kept until
    /// the response comes.
    pub fn request(&mut self, call: Call, ticket: T) -> (r: (u64, Json))
        requires
            old(self)@.wf(),
            old(self)@.next_id < u64::MAX,
        ensures
            r.0 == old(self)@.next_id,
            r.1@ == rpc::request_tree(old(self)@.next_id, call@),
            final(self)@ == (ServerView {
                next_id: (old(self)@.next_id + 1) as u64,
                pending: old(self)@.pending.insert(old(self)@.next_id, ticket),
            }),
            final(self)@.wf(),
    {
        let id: u64 = self.next_id;
        self.next_id = id + 1;
        self.pending.insert(id, ticket);
        (id, rpc::request_message(id, call))
    }

    /// Gives up a request whose message could not be sent.
    pub fn abandon(&mut self, id: u64)
        requires
            old(self)@.wf(),
        ensures
            final(self)@ == (ServerView {
                next_id: old(self)@.next_id,
                pending: old(self)@.pending.remove(id),
            }),
            final(self)@.wf(),
    {
        let _ = self.pending.remove(&id);
        assert(self.pending@ =~= old(self).pending@.remove(id));
    }

    /// Takes in a message that the reader has read.
    pub fn dispatch(&mut self, message: Json) -> (r: Dispatch<T>)
        requires
            old(self)@.wf(),
        ensures
            r@ == dispatched(old(self)@.pending, message@),
            final(self)@ == (ServerView {
                next_id: old(self)@.next_id,
                pending: pending_after(old(self)@.pending, message@),
            }),
            final(self)@.wf(),
    {
        if let Some(id) = rpc::responds_to(&message) {
            let found = self.pending.remove(&id);
            assert(self.pending@ =~= old(self).pending@.remove(id));
            return match found {
                Some(ticket) => Dispatch::Resolve(ticket, rpc::outcome(&message)),
                None => Dispatch::Ignore,
            };
        }
        if rpc::is_server_request(&message) {
            if let Some(answer) = answer_server_request(&message) {
                return Dispatch::Answer(answer);
            }
        }
        if message.get("method").is_some() {
            Dispatch::Notify(message)
        } else {
            Dispatch::Ignore
        }
    }

    /// Ends the connection: the requests that still wait, each with its ticket, in no
    /// particular order. None is left.
    pub fn close(&mut self) -> (r: Vec<(u64, T)>)
        requires
            old(self)@.wf(),
        ensures
            forall|i: int|
                #![trigger r@[i]]
                0 <= i < r@.len() ==> old(self)@.pending.contains_key(r@[i].0)
                    && old(self)@.pending[r@[i].0] == r@[i].1,
            forall|i: int, j: int| 0 <= i < j < r@.len() ==> r@[i].0 != r@[j].0,
            forall|id: u64| #[trigger]
                old(self)@.pending.contains_key(id) ==> exists|i: int|
                    0 <= i < r@.len() && (#[trigger] r@[i]).0 == id,
            final(self)@ == (ServerView {
                next_id: old(self)@.next_id,
                pending: Map::<u64, T>::empty(),
            }),
            final(self)@.wf(),
    {
        let mut ids: Vec<u64> = Vec::new();
        let ghost all = old(self)@.pending;
        let keys = self.pending.keys();
        let ghost listed = vstd::std_specs::iter::IteratorSpec::remaining(&keys).unref();
        for id in walk: keys
            invariant
                self@ == old(self)@,
                walk.seq().unref() == listed,
                ids@ == listed.take(walk.index() as int),
        {
            ids.push(*id);
        }
        proof {
            assert(ids@ =~= listed);
        }
        let mut tickets: Vec<(u64, T)> = Vec::new();
        let mut i: usize = 0;
        while i < ids.len()
            invariant
                0 <= i <= ids@.len(),
                ids@.no_duplicates(),
                ids@.to_set() == all.dom(),
                tickets@.len() == i,
                self.next_id == old(self).next_id,
                forall|k: int|
                    #![trigger tickets@[k]]
                    0 <= k < i ==> tickets@[k].0 == ids@[k] && tickets@[k].1 == all[ids@[k]],
                forall|k: int| i <= k < ids@.len() ==> self.pending@.contains_key(#[trigger] ids@[k]),
                forall|id: u64| #[trigger]
                    self.pending@.contains_key(id) ==> all.contains_key(id) && all[id]
                        == self.pending@[id],
                forall|k: int|
                    0 <= k < i ==> !self.pending@.contains_key(#[trigger] ids@[k]),
            decreases ids@.len() - i,
        {
            let id: u64 = ids[i];
            let ghost before = self.pending@;
            assert(before.contains_key(ids@[i as int]) && all[id] == before[id]);
            if let Some(ticket) = self.pending.remove(&id) {
                tickets.push((id, ticket));
            }
            assert(self.pending@ =~= before.remove(id));
            i += 1;
        }
        proof {
            assert forall|id: u64| #[trigger] all.contains_key(id) implies exists|k: int|
                0 <= k < tickets@.len() && (#[trigger] tickets@[k]).0 == id by {
                assert(ids@.to_set().contains(id));
                let k = choose|k: int| 0 <= k < ids@.len() && ids@[k] == id;
                assert(tickets@[k].0 == id);
            }
            assert forall|id: u64| !(#[trigger] self.pending@.contains_key(id)) by {
                if self.pending@.contains_key(id) {
                    assert(ids@.to_set().contains(id));
                    let k = choose|k: int| 0 <= k < ids@.len() && ids@[k] == id;
                    assert(!self.pending@.contains_key(ids@[k]));
                }
            }
            assert(self.pending@ =~= Map::<u64, T>::empty());
        }
        tickets
    }
}

/// The error of a request that nobody will answer any more.
pub fn exited_error() -> (r: String)
    ensures
        r@ == "Codex app-server exited unexpectedly"@,
{
    "Codex app-server exited unexpectedly".to_owned()
}

/// How a request came to its end.
pub enum RequestEnd {
    /// A response came.
    Response(Result<Json, String>),
    /// The message could not be sent.
    NotSent,
    /// No response came in time.
    TimedOut,
    /// The ticket was lost without a response.
    Dropped,
}

/// What the end of a request means.
pub enum RequestEndView {
    Response(Result<Tree, Seq<char>>),
    NotSent,
    TimedOut,
    Dropped,
}

impl DeepView for RequestEnd {
    type V = RequestEndView;

    open spec fn deep_view(&self) -> RequestEndView {
        match self {
            RequestEnd::Response(outcome) => RequestEndView::Response(result_view(*outcome)),
            RequestEnd::NotSent => RequestEndView::NotSent,
            RequestEnd::TimedOut => RequestEndView::TimedOut,
            RequestEnd::Dropped => RequestEndView::Dropped,
        }
    }
}

/// What a call of `method` comes to: the result in its response, or an error.
pub open spec fn request_outcome(method: Seq<char>, end: RequestEndView) -> Result<
    Tree,
    Seq<char>,
> {
    match end {
        RequestEndView::Response(outcome) => outcome,
        RequestEndView::NotSent => Err("Codex app-server is not running"@),
        RequestEndView::TimedOut => Err("Codex app-server request timed out: "@ + method),
        RequestEndView::Dropped => Err("Codex app-server dropped response: "@ + method),
    }
}

/// What a call of `method` comes to: the result in its response, or an error.
pub fn end_request(method: &str, end: RequestEnd) -> (r: Result<Json, String>)
    ensures
        result_view(r) == request_outcome(method@, end.deep_view()),
{
    match end {
        RequestEnd::Response(outcome) => outcome,
        RequestEnd::NotSent => Err("Codex app-server is not running".to_owned()),
        RequestEnd::TimedOut => Err(rpc::timeout_error(method)),
        RequestEnd::Dropped => {
            let mut message: String = "Codex app-server dropped response: ".to_owned();
            message.append(method);
            Err(message)
        },
    }
}

/// What a notification comes to, which has no answer: an error where it could not be sent.
pub open spec fn notification_outcome(sent: bool) -> Result<(), Seq<char>> {
    if sent {
        Ok(())
    } else {
        Err("Codex app-server is not running"@)
    }
}

/// What a notification comes to, which has no answer: an error where it could not be sent.
pub fn end_notification(sent: bool) -> (r: Result<(), String>)
    ensures
        result_view(r) == notification_outcome(sent),
{
    if sent {
        Ok(())
    } else {
        Err("Codex app-server is not running".to_owned())
    }
}

/// The call that starts a thread in the directory `cwd`, which it is confined to.
pub open spec fn start_thread_view(cwd: Seq<char>, model: Seq<char>) -> CallView {
    CallView {
        method: "thread/start"@,
        params: Tree::empty()
            .with("cwd"@, Tree::Text(cwd))
            .with("model"@, Tree::Text(model))
            .with("approvalPolicy"@, Tree::Text("never"@))
            .with("sandbox"@, Tree::Text("workspace-write"@)),
    }
}

/// The call that starts a thread in the directory `cwd`, which it is confined to. What it
/// gives back is read with [`rpc::thread_id`].
pub fn start_thread(cwd: &str, model: &str) -> (r: Call)
    ensures
        r@ == start_thread_view(cwd@, model@),
{
    Call::new(
        "thread/start",
        Json::object().with_text("cwd", cwd).with_text("model", model).with_text(
            "approvalPolicy",
            "never",
        ).with_text("sandbox", "workspace-write"),
    )
}

/// The call that starts a turn on a thread, confined to the directory `cwd`.
pub open spec fn start_turn_view(
    thread_id: Seq<char>,
    input: Seq<Tree>,
    model: Seq<char>,
    cwd: Seq<char>,
) -> CallView {
    CallView {
        method: "turn/start"@,
        params: Tree::empty()
            .with("threadId"@, Tree::Text(thread_id))
            .with("input"@, Tree::Array(input))
            .with("model"@, Tree::Text(model))
            .with("approvalPolicy"@, Tree::Text("never"@))
            .with("sandboxPolicy"@, turn::workspace_policy(cwd)),
    }
}

/// The call that starts a turn on a thread, confined to the directory `cwd`. What it gives
/// back is read with [`turn_id`].
pub fn start_turn(thread_id: &str, input: Vec<Json>, model: &str, cwd: &str) -> (r: Call)
    ensures
        r@ == start_turn_view(thread_id@, input.deep_view(), model@, cwd@),
{
    proof {
        json::lemma_array(input);
    }
    Call::new(
        "turn/start",
        Json::object().with_text("threadId", thread_id).with(
            "input",
            Json::Array(input),
        ).with_text("model", model).with_text("approvalPolicy", "never").with(
            "sandboxPolicy",
            turn::workspace_sandbox(cwd),
        ),
    )
}

/// The identifier of the turn that a response reports, or the error where it has none.
pub open spec fn turn_outcome(response: Tree) -> Result<Seq<char>, Seq<char>> {
    match rpc::turn_of(response) {
        Some(id) => Ok(id),
        None => Err("Codex app-server did not return a turn id"@),
    }
}

/// The identifier of the turn that a response reports, or the error where it has none.
pub fn turn_id(response: &Json) -> (r: Result<String, String>)
    ensures
        result_view(r) == turn_outcome(response@),
{
    match rpc::turn_id(response) {
        Some(id) => Ok(id),
        None => Err("Codex app-server did not return a turn id".to_owned()),
    }
}

/// The call that interrupts a turn.
pub open spec fn interrupt_view(thread_id: Seq<char>, turn_id: Seq<char>) -> CallView {
    CallView {
        method: "turn/interrupt"@,
        params: Tree::empty()
            .with("threadId"@, Tree::Text(thread_id))
            .with("turnId"@, Tree::Text(turn_id)),
    }
}

/// The call that interrupts a turn. What it comes to is found with [`end_interrupt`].
pub fn interrupt(thread_id: &str, turn_id: &str) -> (r: Call)
    ensures
        r@ == interrupt_view(thread_id@, turn_id@),
{
    Call::new(
        "turn/interrupt",
        Json::object().with_text("threadId", thread_id).with_text("turnId", turn_id),
    )
}

/// What an interruption comes to: nothing but whether there was an error.
pub open spec fn interrupt_outcome(outcome: Result<Tree, Seq<char>>) -> Result<(), Seq<char>> {
    match outcome {
        Ok(_) => Ok(()),
        Err(error) => Err(error),
    }
}

/// What an interruption comes to: nothing but whether there was an error.
pub fn end_interrupt(outcome: Result<Json, String>) -> (r: Result<(), String>)
    ensures
        result_view(r) == interrupt_outcome(result_view(outcome)),
{
    match outcome {
        Ok(_) => Ok(()),
        Err(error) => Err(error),
    }
}

/// The tickets after some messages.
pub open spec fn pending_run<T>(pending: Map<u64, T>, messages: Seq<Tree>) -> Map<u64, T>
    decreases messages.len(),
{
    if messages.len() == 0 {
        pending
    } else {
        pending_after(pending_run(pending, messages.drop_last()), messages.last())
    }
}

/// The identifier of a new request is not that of one that still waits, so that no ticket
/// is lost.
pub proof fn law_request_ids_are_fresh<T>(server: ServerView<T>)
    requires
        server.wf(),
    ensures
        !server.pending.contains_key(server.next_id),
{
}

/// A response reaches whoever made the request, whatever other messages come in between:
/// the first message that responds to it gives the request's own ticket, with what the
/// message reports, and a second one reaches nobody.
pub proof fn law_response_reaches_its_request<T>(
    server: ServerView<T>,
    ticket: T,
    between: Seq<Tree>,
    response: Tree,
)
    requires
        server.wf(),
        forall|i: int|
            0 <= i < between.len() ==> rpc::response_id(#[trigger] between[i]) != Some(
                server.next_id,
            ),
        rpc::response_id(response) == Some(server.next_id),
    ensures
        ({
            let pending = pending_run(
                server.pending.insert(server.next_id, ticket),
                between,
            );
            &&& dispatched(pending, response) == DispatchView::Resolve(
                ticket,
                rpc::response_outcome(response),
            )
            &&& dispatched(pending_after(pending, response), response) == DispatchView::<T>::Ignore
        }),
{
    lemma_ticket_stays(
        server.pending.insert(server.next_id, ticket),
        server.next_id,
        between,
    );
}

proof fn lemma_ticket_stays<T>(pending: Map<u64, T>, id: u64, messages: Seq<Tree>)
    requires
        pending.contains_key(id),
        forall|i: int|
            0 <= i < messages.len() ==> rpc::response_id(#[trigger] messages[i]) != Some(id),
    ensures
        pending_run(pending, messages).contains_key(id),
        pending_run(pending, messages)[id] == pending[id],
    decreases messages.len(),
{
    if messages.len() > 0 {
        let front = messages.drop_last();
        assert forall|i: int| 0 <= i < front.len() implies rpc::response_id(#[trigger] front[i])
            != Some(id) by {
            assert(front[i] == messages[i]);
        }
        lemma_ticket_stays(pending, id, front);
        assert(messages[messages.len() - 1] == messages.last());
    }
}

/// A request of the server is answered exactly where it has an identifier, and the answer
/// bears that identifier; one for an approval is declined.
pub proof fn law_answers_bear_the_request_id(request: Tree)
    ensures
        server_answer(request) is Some <==> request.get("id"@) is Some,
        server_answer(request) is Some ==> server_answer(request)->0.get("id"@) == request.get(
            "id"@,
        ),
        server_answer(request) is Some && rpc::approval_method(
            json::text_or(request.get("method"@), ""@),
        ) ==> json::text_of(json::at(json::at(server_answer(request), "result"@), "decision"@))
            == Some("decline"@),
{
    reveal_strlit("id");
    reveal_strlit("result");
    reveal_strlit("error");
    assert("id"@.len() == 2 && "result"@.len() == 6 && "error"@.len() == 5);
}

/// A message is handed on as a notification exactly where it names a method and wants no
/// answer, and it is handed on as it came.
pub proof fn law_notifications_are_handed_on<T>(pending: Map<u64, T>, message: Tree)
    ensures
        dispatched(pending, message) is Notify <==> message.get("method"@) is Some && message.get(
            "id"@,
        ) is None,
        dispatched(pending, message) matches DispatchView::Notify(handed) ==> handed == message,
{
}

/// A turn is interrupted while others listen, and neither gets in the way of the other. One
/// message asks for the interruption, and it names the thread and the turn and nothing else.
/// Whatever comes before the reply, every notification is handed on to whoever listens, and
/// what else is sent meanwhile asks the server for nothing. The reply then reaches the
/// interruption itself: it succeeds unless the reply is an error, and fails with that error
/// otherwise.
pub proof fn law_interruption_gets_its_own_reply<T>(
    server: ServerView<T>,
    ticket: T,
    thread_id: Seq<char>,
    turn_id: Seq<char>,
    between: Seq<Tree>,
    reply: Tree,
)
    requires
        server.wf(),
        forall|i: int|
            0 <= i < between.len() ==> rpc::response_id(#[trigger] between[i]) != Some(
                server.next_id,
            ),
        rpc::response_id(reply) == Some(server.next_id),
    ensures
        ({
            let message = rpc::request_tree(server.next_id, interrupt_view(thread_id, turn_id));
            &&& message.get("id"@) == Some(json::integer(server.next_id as int))
            &&& message.get("method"@) == Some(Tree::Text("turn/interrupt"@))
            &&& message.get("params"@) == Some(
                Tree::empty()
                    .with("threadId"@, Tree::Text(thread_id))
                    .with("turnId"@, Tree::Text(turn_id)),
            )
        }),
        ({
            let pending = server.pending.insert(server.next_id, ticket);
            &&& forall|i: int|
                #![trigger between[i]]
                0 <= i < between.len() ==> match dispatched(
                    pending_run(pending, between.take(i)),
                    between[i],
                ) {
                    DispatchView::Notify(handed) => handed == between[i],
                    DispatchView::Answer(answer) => answer.get("method"@) is None,
                    _ => !(between[i].get("method"@) is Some && between[i].get("id"@) is None),
                }
            &&& dispatched(pending_run(pending, between), reply) == DispatchView::Resolve(
                ticket,
                rpc::response_outcome(reply),
            )
        }),
        ({
            let end = RequestEndView::Response(rpc::response_outcome(reply));
            let outcome = interrupt_outcome(request_outcome("turn/interrupt"@, end));
            match reply.get("error"@) {
                Some(error) => outcome == Err::<(), Seq<char>>(rpc::error_text(error)),
                None => outcome is Ok,
            }
        }),
{
    law_response_reaches_its_request(server, ticket, between, reply);
    reveal_strlit("id");
    reveal_strlit("method");
    reveal_strlit("params");
    reveal_strlit("result");
    reveal_strlit("error");
    assert("id"@.len() == 2 && "error"@.len() == 5);
    assert("method"@[0] == 'm' && "params"@[0] == 'p' && "result"@[0] == 'r');
}

/// A message goes where it belongs: a response to the one who waits for it, and to nobody else;
/// a request of the server to be answered; a notification to whoever listens. A response takes
/// its own ticket away and no other, and nothing else takes any.
pub proof fn law_messages_go_where_they_belong<T>(pending: Map<u64, T>, message: Tree, id: u64)
    ensures
        message.get("id"@) == Some(json::integer(id as int)) && message.get("method"@) is None ==> {
            &&& pending.contains_key(id) ==> dispatched(pending, message) == DispatchView::Resolve(
                pending[id],
                rpc::response_outcome(message),
            )
            &&& !pending.contains_key(id) ==> dispatched(pending, message) is Ignore
            &&& pending_after(pending, message) == pending.remove(id)
        },
        message.get("id"@) is Some && message.get("method"@) is Some ==> dispatched(
            pending,
            message,
        ) is Answer,
        dispatched(pending, message) matches DispatchView::Answer(answer) ==> Some(answer)
            == server_answer(message),
        dispatched(pending, message) is Notify <==> message.get("method"@) is Some && message.get(
            "id"@,
        ) is None,
        message.get("method"@) is Some ==> pending_after(pending, message) == pending,
        message.get("id"@) is None ==> pending_after(pending, message) == pending,
{
}

/// A request of the server for an approval is declined, and any other one is refused by its
/// name. A message without an identifier is not answered.
pub proof fn law_requests_are_answered_by_kind(request: Tree)
    ensures
        request.get("id"@) is None ==> server_answer(request) is None,
        request.get("id"@) matches Some(id) ==> {
            let method = match request.get("method"@) {
                Some(Tree::Text(text)) => text,
                _ => ""@,
            };
            let answer = server_answer(request);
            &&& answer is Some
            &&& answer->0.get("id"@) == Some(id)
            &&& if method == "item/commandExecution/requestApproval"@ || method
                == "item/fileChange/requestApproval"@ {
                &&& answer->0.get("result"@) == Some(
                    Tree::empty().with("decision"@, Tree::Text("decline"@)),
                )
                &&& answer->0.get("error"@) is None
            } else {
                &&& json::at(answer->0.get("error"@), "code"@) == Some(json::integer(-32601))
                &&& json::at(answer->0.get("error"@), "message"@) == Some(
                    Tree::Text("Grox does not yet support Codex server request: "@ + method),
                )
                &&& answer->0.get("result"@) is None
            }
        },
{
    reveal_strlit("id");
    reveal_strlit("result");
    reveal_strlit("error");
    reveal_strlit("code");
    reveal_strlit("message");
    assert("id"@.len() == 2 && "result"@.len() == 6 && "error"@.len() == 5 && "code"@.len() == 4 && "message"@.len() == 7);
}

/// What a request comes to is what its response reports, and a request without one never
/// succeeds: the error says what became of it, and of which method.
pub proof fn law_only_a_response_ends_well(
    method: Seq<char>,
    end: RequestEndView,
    outcome: Result<Tree, Seq<char>>,
)
    ensures
        request_outcome(method, end) is Ok ==> end is Response,
        request_outcome(method, RequestEndView::Response(outcome)) == outcome,
        request_outcome(method, RequestEndView::NotSent) == Err::<Tree, Seq<char>>(
            "Codex app-server is not running"@,
        ),
        request_outcome(method, RequestEndView::TimedOut) == Err::<Tree, Seq<char>>(
            "Codex app-server request timed out: "@ + method,
        ),
        request_outcome(method, RequestEndView::Dropped) == Err::<Tree, Seq<char>>(
            "Codex app-server dropped response: "@ + method,
        ),
        notification_outcome(true) is Ok,
        notification_outcome(false) == Err::<(), Seq<char>>("Codex app-server is not running"@),
        interrupt_outcome(outcome) is Ok <==> outcome is Ok,
        outcome matches Err(error) ==> interrupt_outcome(outcome) == Err::<(), Seq<char>>(error),
{
}

/// The calls of the agent name what they are for, and nothing else: a thread its directory and
/// its model, a turn its thread, its input, its model and the one directory that it may write
/// to, an interruption the thread and the turn. None of them lets Codex ask for an approval, or
/// leave the workspace.
pub proof fn law_calls_name_what_they_are_for(
    cwd: Seq<char>,
    model: Seq<char>,
    thread_id: Seq<char>,
    turn_id: Seq<char>,
    input: Seq<Tree>,
    other: Seq<char>,
)
    ensures
        start_thread_view(cwd, model).method == "thread/start"@,
        start_thread_view(cwd, model).params.get("cwd"@) == Some(Tree::Text(cwd)),
        start_thread_view(cwd, model).params.get("model"@) == Some(Tree::Text(model)),
        start_thread_view(cwd, model).params.get("approvalPolicy"@) == Some(Tree::Text("never"@)),
        start_thread_view(cwd, model).params.get("sandbox"@) == Some(
            Tree::Text("workspace-write"@),
        ),
        other != "cwd"@ && other != "model"@ && other != "approvalPolicy"@ && other != "sandbox"@
            ==> start_thread_view(cwd, model).params.get(other) is None,
        start_turn_view(thread_id, input, model, cwd).method == "turn/start"@,
        start_turn_view(thread_id, input, model, cwd).params.get("threadId"@) == Some(
            Tree::Text(thread_id),
        ),
        start_turn_view(thread_id, input, model, cwd).params.get("input"@) == Some(
            Tree::Array(input),
        ),
        start_turn_view(thread_id, input, model, cwd).params.get("model"@) == Some(
            Tree::Text(model),
        ),
        start_turn_view(thread_id, input, model, cwd).params.get("approvalPolicy"@) == Some(
            Tree::Text("never"@),
        ),
        json::at(
            start_turn_view(thread_id, input, model, cwd).params.get("sandboxPolicy"@),
            "type"@,
        ) == Some(Tree::Text("workspaceWrite"@)),
        json::at(
            start_turn_view(thread_id, input, model, cwd).params.get("sandboxPolicy"@),
            "writableRoots"@,
        ) == Some(Tree::Array(seq![Tree::Text(cwd)])),
        json::at(
            start_turn_view(thread_id, input, model, cwd).params.get("sandboxPolicy"@),
            "networkAccess"@,
        ) == Some(Tree::Bool(false)),
        other != "threadId"@ && other != "input"@ && other != "model"@ && other
            != "approvalPolicy"@ && other != "sandboxPolicy"@ ==> start_turn_view(
            thread_id,
            input,
            model,
            cwd,
        ).params.get(other) is None,
        interrupt_view(thread_id, turn_id).method == "turn/interrupt"@,
        interrupt_view(thread_id, turn_id).params.get("threadId"@) == Some(Tree::Text(thread_id)),
        interrupt_view(thread_id, turn_id).params.get("turnId"@) == Some(Tree::Text(turn_id)),
        other != "threadId"@ && other != "turnId"@ ==> interrupt_view(
            thread_id,
            turn_id,
        ).params.get(other) is None,
{
    reveal_strlit("cwd");
    reveal_strlit("model");
    reveal_strlit("approvalPolicy");
    reveal_strlit("sandbox");
    reveal_strlit("threadId");
    reveal_strlit("input");
    reveal_strlit("sandboxPolicy");
    reveal_strlit("turnId");
    assert("cwd"@.len() == 3 && "model"@.len() == 5 && "approvalPolicy"@.len() == 14 && "sandbox"@.len() == 7 && "threadId"@.len() == 8 && "input"@.len() == 5 && "sandboxPolicy"@.len() == 13 && "turnId"@.len() == 6);
    assert("model"@[0] == 'm' && "input"@[0] == 'i');
    turn::law_workspace_policy_confines(cwd, other);
}

/// A turn is known by the text under `id` in what the response says of it, and is otherwise
/// missing.
pub proof fn law_turns_are_known_by_id(response: Tree, id: Seq<char>)
    ensures
        turn_outcome(response) == Ok::<Seq<char>, Seq<char>>(id) <==> json::at(
            response.get("turn"@),
            "id"@,
        ) == Some(Tree::Text(id)),
        turn_outcome(response) matches Err(error) ==> error
            == "Codex app-server did not return a turn id"@,
{
}

/// What the values of this module show in contracts is what they hold, part by part: nothing is
/// left out, and nothing is changed.
pub proof fn law_values_show_what_they_hold<T>(
    dispatch: &Dispatch<T>,
    request_end: &RequestEnd,
)
    ensures
        dispatch.view() == (match *dispatch {
            Dispatch::Resolve(ticket, outcome) => DispatchView::Resolve(
                ticket,
                result_view(outcome),
            ),
            Dispatch::Answer(answer) => DispatchView::Answer(answer@),
            Dispatch::Notify(message) => DispatchView::Notify(message@),
            Dispatch::Ignore => DispatchView::Ignore,
        }),
        request_end.deep_view() == (match request_end {
            RequestEnd::Response(outcome) => RequestEndView::Response(result_view(*outcome)),
            RequestEnd::NotSent => RequestEndView::NotSent,
            RequestEnd::TimedOut => RequestEndView::TimedOut,
            RequestEnd::Dropped => RequestEndView::Dropped,
        }),
{
}

} // verus!
