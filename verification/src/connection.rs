//! A connection to the app-server that is read by whoever waits on it: requests, the
//! notifications that arrive meanwhile, and what the server is answered.

use std::collections::VecDeque;
use vstd::prelude::*;

use crate::json;
use crate::json::{array_in, get_in, str_in, str_in_or, Json, Tree};
use crate::rpc;
use crate::rpc::Call;
use crate::server::exited_error;
use crate::text::same_text;

verus! {

/// A connection: the identifier of the next request, and the messages that came while a
/// request was waiting.
pub struct AppServerConnection {
    pub next_id: u64,
    pub notifications: VecDeque<Json>,
}

/// What a connection holds.
pub struct ConnectionView {
    pub next_id: u64,
    pub notifications: Seq<Tree>,
}

impl View for AppServerConnection {
    type V = ConnectionView;

    open spec fn view(&self) -> ConnectionView {
        ConnectionView {
            next_id: self.next_id,
            notifications: Seq::new(
                self.notifications@.len(),
                |i: int| self.notifications@[i]@,
            ),
        }
    }
}

/// What becomes of a message that arrives while a request waits for its response.
pub enum Waiting {
    /// The response: the request is over.
    Finished(Result<Json, String>),
    /// A request of the server, and the message that answers it.
    Answer(Json),
    /// Anything else, which has been kept for later.
    Kept,
}

/// What a step of waiting means.
pub enum WaitingView {
    Finished(Result<Tree, Seq<char>>),
    Answer(Tree),
    Kept,
}

impl DeepView for Waiting {
    type V = WaitingView;

    open spec fn deep_view(&self) -> WaitingView {
        match self {
            Waiting::Finished(outcome) => WaitingView::Finished(rpc::result_view(*outcome)),
            Waiting::Answer(answer) => WaitingView::Answer(answer@),
            Waiting::Kept => WaitingView::Kept,
        }
    }
}

/// What becomes of a message that arrives while a notification is awaited.
pub enum Listening {
    /// A request of the server, and the message that answers it.
    Answer(Json),
    /// A notification.
    Deliver(Json),
    /// A message without a method, which is passed over.
    Skip,
}

/// What a step of listening means.
pub enum ListeningView {
    Answer(Tree),
    Deliver(Tree),
    Skip,
}

impl DeepView for Listening {
    type V = ListeningView;

    open spec fn deep_view(&self) -> ListeningView {
        match self {
            Listening::Answer(answer) => ListeningView::Answer(answer@),
            Listening::Deliver(message) => ListeningView::Deliver(message@),
            Listening::Skip => ListeningView::Skip,
        }
    }
}

/// The label of the first option of a question, where it has one.
pub open spec fn first_label(question: Tree) -> Option<Seq<char>> {
    let options = json::items_of(question.get("options"@));
    if options.len() > 0 {
        json::text_of(options[0].get("label"@))
    } else {
        None
    }
}

/// The reply to a question: its first option, or nothing where it has none.
pub open spec fn question_reply(question: Tree) -> Tree {
    let chosen = match first_label(question) {
        Some(label) => seq![label],
        None => seq![],
    };
    Tree::empty().with("answers"@, json::texts(chosen))
}

/// The replies to a list of questions, under their identifiers. A question without an
/// identifier gets none, and of two with the same identifier the later one counts.
pub open spec fn question_replies(questions: Seq<Tree>) -> Tree
    decreases questions.len(),
{
    if questions.len() == 0 {
        Tree::empty()
    } else {
        let earlier = question_replies(questions.drop_last());
        match json::text_of(questions.last().get("id"@)) {
            Some(id) => earlier.with(id, question_reply(questions.last())),
            None => earlier,
        }
    }
}

/// The message that answers a request of the server. Approvals are declined, questions get
/// their first option, and any other request is refused. A message without an identifier is
/// not answered.
pub open spec fn server_answer(request: Tree) -> Option<Tree> {
    match request.get("id"@) {
        None => None,
        Some(id) => {
            let method = json::text_or(request.get("method"@), ""@);
            if rpc::approval_method(method) {
                Some(rpc::result_tree(id, rpc::decline_tree()))
            } else if method == "item/tool/requestUserInput"@ {
                let questions = json::items_of(json::at(request.get("params"@), "questions"@));
                Some(
                    rpc::result_tree(
                        id,
                        Tree::empty().with("answers"@, question_replies(questions)),
                    ),
                )
            } else {
                Some(rpc::refusal_tree(id, "unsupported server request: "@ + method))
            }
        },
    }
}

fn reply_to(question: &Json) -> (r: Json)
    ensures
        r@ == question_reply(question@),
{
    let mut chosen: Vec<String> = Vec::new();
    if let Some(options) = array_in(question.get("options")) {
        if options.len() > 0 {
            if let Some(label) = str_in(options[0].get("label")) {
                chosen.push(label.to_owned());
            }
        }
    }
    proof {
        match first_label(question@) {
            Some(label) => {
                assert(chosen.deep_view() =~= seq![label]);
            },
            None => {
                assert(chosen.deep_view() =~= Seq::<Seq<char>>::empty());
            },
        }
    }
    Json::object().with("answers", Json::texts(&chosen))
}

fn replies_to(questions: &Vec<Json>) -> (r: Json)
    ensures
        r@ == question_replies(questions.deep_view()),
{
    let mut replies = Json::object();
    let ghost all = questions.deep_view();
    let mut i: usize = 0;
    while i < questions.len()
        invariant
            0 <= i <= questions@.len(),
            all == questions.deep_view(),
            replies@ == question_replies(all.take(i as int)),
        decreases questions@.len() - i,
    {
        let question = &questions[i];
        proof {
            assert(all.take(i + 1).drop_last() =~= all.take(i as int));
            assert(all.take(i + 1).last() == question@);
        }
        if let Some(id) = str_in(question.get("id")) {
            replies = replies.with(id, reply_to(question));
        }
        i += 1;
    }
    proof {
        assert(all.take(i as int) =~= all);
    }
    replies
}

/// The message that answers a request of the server. Approvals are declined, questions get
/// their first option, and any other request is refused. A message without an identifier is
/// not answered.
pub fn answer_server_request(request: &Json) -> (r: Option<Json>)
    ensures
        r.deep_view() == server_answer(request@),
{
    let id = match request.get("id") {
        Some(id) => id.copy(),
        None => {
            return None;
        },
    };
    let method = str_in_or(request.get("method"), "");
    if rpc::is_approval(method) {
        Some(rpc::result_message(id, rpc::decline()))
    } else if same_text(method, "item/tool/requestUserInput") {
        let answers = match array_in(get_in(request.get("params"), "questions")) {
            Some(questions) => replies_to(questions),
            None => Json::object(),
        };
        Some(rpc::result_message(id, Json::object().with("answers", answers)))
    } else {
        let mut message: String = "unsupported server request: ".to_owned();
        message.append(method);
        Some(rpc::refusal_message(id, message.as_str()))
    }
}

/// What becomes of a message that arrives while the request `id` waits for its response.
pub open spec fn waiting_step(id: u64, message: Tree) -> WaitingView {
    if rpc::response_id(message) == Some(id) {
        WaitingView::Finished(rpc::response_outcome(message))
    } else if rpc::server_request(message) {
        WaitingView::Answer(server_answer(message)->0)
    } else {
        WaitingView::Kept
    }
}

/// What becomes of a message that arrives while a notification is awaited.
pub open spec fn listening_step(message: Tree) -> ListeningView {
    if rpc::server_request(message) {
        ListeningView::Answer(server_answer(message)->0)
    } else if message.get("method"@) is Some {
        ListeningView::Deliver(message)
    } else {
        ListeningView::Skip
    }
}

/// The connection after a message that arrives while the request `id` waits: the message is
/// kept behind the others, unless it is the response or a request of the server.
pub open spec fn after_message(connection: ConnectionView, id: u64, message: Tree) -> ConnectionView {
    ConnectionView {
        next_id: connection.next_id,
        notifications: if waiting_step(id, message) is Kept {
            connection.notifications.push(message)
        } else {
            connection.notifications
        },
    }
}

impl AppServerConnection {
    /// A connection on which nothing has been asked yet.
    pub fn new() -> (r: AppServerConnection)
        ensures
            r@ == (ConnectionView { next_id: 1, notifications: Seq::empty() }),
    {
        let r = AppServerConnection { next_id: 1, notifications: VecDeque::new() };
        assert(r@.notifications =~= Seq::empty());
        r
    }

    /// Begins a request: its identifier, and the message to send.
    pub fn request(&mut self, call: Call) -> (r: (u64, Json))
        requires
            old(self)@.next_id < u64::MAX,
        ensures
            r.0 == old(self)@.next_id,
            r.1@ == rpc::request_tree(old(self)@.next_id, call@),
            final(self)@ == (ConnectionView {
                next_id: (old(self)@.next_id + 1) as u64,
                notifications: old(self)@.notifications,
            }),
    {
        let id: u64 = self.next_id;
        self.next_id = id + 1;
        (id, rpc::request_message(id, call))
    }

    /// Takes in a message while the request `id` waits for its response. What is neither
    /// the response nor a request of the server is kept.
    pub fn wait(&mut self, id: u64, message: Json) -> (r: Waiting)
        ensures
            r.deep_view() == waiting_step(id, message@),
            final(self)@ == after_message(old(self)@, id, message@),
    {
        if let Some(responded) = rpc::responds_to(&message) {
            if responded == id {
                return Waiting::Finished(rpc::outcome(&message));
            }
        }
        if rpc::is_server_request(&message) {
            if let Some(answer) = answer_server_request(&message) {
                return Waiting::Answer(answer);
            }
        }
        self.notifications.push_back(message);
        assert(self@.notifications =~= old(self)@.notifications.push(message@));
        Waiting::Kept
    }

    /// The first of the messages that were kept, if any was: it is delivered before any
    /// message that is still to be read.
    pub fn next_notification(&mut self) -> (r: Option<Json>)
        ensures
            final(self)@.next_id == old(self)@.next_id,
            match r {
                Some(message) => old(self)@.notifications.len() > 0 && message@
                    == old(self)@.notifications[0] && final(self)@.notifications
                    == old(self)@.notifications.skip(1),
                None => old(self)@.notifications.len() == 0 && final(self)@ == old(self)@,
            },
    {
        let r = self.notifications.pop_front();
        proof {
            if r is Some {
                assert(self@.notifications =~= old(self)@.notifications.skip(1));
            } else {
                assert(self@.notifications =~= old(self)@.notifications);
            }
        }
        r
    }
}

/// Takes in a message while a notification is awaited and none has been kept.
pub fn listen(message: Json) -> (r: Listening)
    ensures
        r.deep_view() == listening_step(message@),
{
    if rpc::is_server_request(&message) {
        if let Some(answer) = answer_server_request(&message) {
            return Listening::Answer(answer);
        }
    }
    if message.get("method").is_some() {
        Listening::Deliver(message)
    } else {
        Listening::Skip
    }
}

/// How the wait for a response came to its end.
pub enum WaitEnd {
    /// The response came.
    Response(Result<Json, String>),
    /// It did not come in time.
    TimedOut,
    /// The server closed its output before it came.
    Closed,
}

/// What the end of a wait means.
pub enum WaitEndView {
    Response(Result<Tree, Seq<char>>),
    TimedOut,
    Closed,
}

impl DeepView for WaitEnd {
    type V = WaitEndView;

    open spec fn deep_view(&self) -> WaitEndView {
        match self {
            WaitEnd::Response(outcome) => WaitEndView::Response(rpc::result_view(*outcome)),
            WaitEnd::TimedOut => WaitEndView::TimedOut,
            WaitEnd::Closed => WaitEndView::Closed,
        }
    }
}

/// What a call of `method` comes to: what its response reports, or an error where none came.
pub open spec fn wait_outcome(method: Seq<char>, end: WaitEndView) -> Result<Tree, Seq<char>> {
    match end {
        WaitEndView::Response(outcome) => outcome,
        WaitEndView::TimedOut => Err("Codex app-server request timed out: "@ + method),
        WaitEndView::Closed => Err("Codex app-server exited unexpectedly"@),
    }
}

/// What a call of `method` comes to: what its response reports, or an error where none came.
pub fn end_wait(method: &str, end: WaitEnd) -> (r: Result<Json, String>)
    ensures
        rpc::result_view(r) == wait_outcome(method@, end.deep_view()),
{
    match end {
        WaitEnd::Response(outcome) => outcome,
        WaitEnd::TimedOut => Err(rpc::timeout_error(method)),
        WaitEnd::Closed => Err(exited_error()),
    }
}

/// What has come of a request after some messages: its outcome, if it is over; the answers
/// that the server was sent; the messages that were kept; and how many messages were read.
pub struct WaitRun {
    pub outcome: Option<Result<Tree, Seq<char>>>,
    pub answers: Seq<Tree>,
    pub notifications: Seq<Tree>,
    pub read: nat,
}

/// What comes of the request `id` where `kept` had been kept and `messages` arrive.
pub open spec fn wait_run(id: u64, kept: Seq<Tree>, messages: Seq<Tree>) -> WaitRun
    decreases messages.len(),
{
    if messages.len() == 0 {
        WaitRun { outcome: None, answers: seq![], notifications: kept, read: 0 }
    } else {
        let before = wait_run(id, kept, messages.drop_last());
        if before.outcome is Some {
            before
        } else {
            let read = before.read + 1;
            match waiting_step(id, messages.last()) {
                WaitingView::Finished(outcome) => WaitRun { outcome: Some(outcome), read, ..before },
                WaitingView::Answer(answer) => WaitRun {
                    answers: before.answers.push(answer),
                    read,
                    ..before
                },
                WaitingView::Kept => WaitRun {
                    notifications: before.notifications.push(messages.last()),
                    read,
                    ..before
                },
            }
        }
    }
}

/// While a request waits, nothing that arrives is lost: as long as no message is its
/// response, every request of the server is answered, in order, and every other message is
/// kept, in order, behind those that had been kept before.
pub proof fn law_waiting_loses_nothing(id: u64, kept: Seq<Tree>, messages: Seq<Tree>)
    requires
        forall|i: int|
            0 <= i < messages.len() ==> rpc::response_id(#[trigger] messages[i]) != Some(id),
    ensures
        wait_run(id, kept, messages) == (WaitRun {
            outcome: None,
            answers: messages.filter(|m: Tree| rpc::server_request(m)).map_values(
                |m: Tree| server_answer(m)->0,
            ),
            notifications: kept + messages.filter(|m: Tree| !rpc::server_request(m)),
            read: messages.len(),
        }),
    decreases messages.len(),
{
    reveal(Seq::filter);
    let asked = |m: Tree| rpc::server_request(m);
    let other = |m: Tree| !rpc::server_request(m);
    let reply = |m: Tree| server_answer(m)->0;
    let run = wait_run(id, kept, messages);
    if messages.len() > 0 {
        let front = messages.drop_last();
        assert forall|i: int| 0 <= i < front.len() implies rpc::response_id(#[trigger] front[i])
            != Some(id) by {
            assert(front[i] == messages[i]);
        }
        law_waiting_loses_nothing(id, kept, front);
        assert(messages[messages.len() - 1] == messages.last());
    }
    assert(run.answers =~= messages.filter(asked).map_values(reply));
    assert(run.notifications =~= kept + messages.filter(other));
}

/// A request is over with the first message that responds to it, and with what that message
/// reports, whatever follows: no message after it is read.
pub proof fn law_first_response_counts(
    id: u64,
    kept: Seq<Tree>,
    before: Seq<Tree>,
    response: Tree,
    after: Seq<Tree>,
)
    requires
        forall|i: int| 0 <= i < before.len() ==> rpc::response_id(#[trigger] before[i]) != Some(id),
        rpc::response_id(response) == Some(id),
    ensures
        wait_run(id, kept, before.push(response) + after) == (WaitRun {
            outcome: Some(rpc::response_outcome(response)),
            read: before.len() + 1,
            ..wait_run(id, kept, before)
        }),
    decreases after.len(),
{
    law_waiting_loses_nothing(id, kept, before);
    let all = before.push(response) + after;
    if after.len() == 0 {
        assert(all =~= before.push(response));
        assert(all.drop_last() =~= before);
    } else {
        law_first_response_counts(id, kept, before, response, after.drop_last());
        assert(all.drop_last() =~= before.push(response) + after.drop_last());
    }
}

/// A request of the server is answered exactly where it has an identifier, and the answer
/// bears that identifier.
pub proof fn law_answers_bear_the_request_id(request: Tree)
    ensures
        server_answer(request) is Some <==> request.get("id"@) is Some,
        server_answer(request) is Some ==> server_answer(request)->0.get("id"@) == request.get(
            "id"@,
        ),
{
    reveal_strlit("id");
    reveal_strlit("result");
    reveal_strlit("error");
    assert("id"@.len() == 2 && "result"@.len() == 6 && "error"@.len() == 5);
}

/// Every approval that the server asks for is declined.
pub proof fn law_approvals_are_declined(request: Tree)
    requires
        request.get("id"@) is Some,
        rpc::approval_method(json::text_or(request.get("method"@), ""@)),
    ensures
        json::text_of(json::at(json::at(server_answer(request), "result"@), "decision"@)) == Some(
            "decline"@,
        ),
{
}

/// A request of the server is answered in the same way whether a request of this side waits
/// or a notification is awaited, and is never taken for a response.
pub proof fn law_server_requests_are_answered(id: u64, message: Tree)
    requires
        rpc::server_request(message),
    ensures
        waiting_step(id, message) == WaitingView::Answer(server_answer(message)->0),
        listening_step(message) == ListeningView::Answer(server_answer(message)->0),
{
}

/// A question is answered with the label of its first option, where that is a text, and with
/// nothing otherwise.
pub proof fn law_first_option_is_chosen(question: Tree, other: Seq<char>)
    ensures
        question_reply(question).get("answers"@) == Some(
            Tree::Array(
                match question.get("options"@) {
                    Some(Tree::Array(options)) => if options.len() > 0 {
                        match options[0].get("label"@) {
                            Some(Tree::Text(label)) => seq![Tree::Text(label)],
                            _ => seq![],
                        }
                    } else {
                        seq![]
                    },
                    _ => seq![],
                },
            ),
        ),
        other != "answers"@ ==> question_reply(question).get(other) is None,
{
    let reply = question_reply(question).get("answers"@)->0->Array_0;
    assert(first_label(question) is Some ==> reply =~= seq![Tree::Text(first_label(question)->0)]);
    assert(first_label(question) is None ==> reply =~= Seq::<Tree>::empty());
}

/// Every question with an identifier gets its own reply under it: the last one of that
/// identifier, where there are several, and none else is replied to.
pub proof fn law_every_question_is_replied_to(questions: Seq<Tree>, i: int, id: Seq<char>)
    ensures
        question_replies(questions) is Object,
        0 <= i < questions.len() && questions[i].get("id"@) == Some(Tree::Text(id)) && (forall|
            k: int,
        |
            i < k < questions.len() ==> (#[trigger] questions[k]).get("id"@) != Some(
                Tree::Text(id),
            )) ==> question_replies(questions).get(id) == Some(question_reply(questions[i])),
        (forall|k: int|
            0 <= k < questions.len() ==> (#[trigger] questions[k]).get("id"@) != Some(
                Tree::Text(id),
            )) ==> question_replies(questions).get(id) is None,
    decreases questions.len(),
{
    if questions.len() > 0 {
        let front = questions.drop_last();
        law_every_question_is_replied_to(front, i, id);
        let last = questions[questions.len() - 1];
        assert(last == questions.last());
        assert forall|k: int| 0 <= k < front.len() implies #[trigger] front[k] == questions[k] by {}
    }
}

/// A request of the server that asks the user is answered with a reply to each of its
/// questions, one for an approval is declined, and one of any other kind is refused by its
/// name. A message without an identifier is not answered.
pub proof fn law_requests_are_answered_by_kind(request: Tree)
    ensures
        request.get("id"@) is None ==> server_answer(request) is None,
        request.get("id"@) matches Some(id) ==> {
            let method = match request.get("method"@) {
                Some(Tree::Text(text)) => text,
                _ => ""@,
            };
            let questions = match json::at(request.get("params"@), "questions"@) {
                Some(Tree::Array(items)) => items,
                _ => seq![],
            };
            let answer = server_answer(request);
            &&& answer is Some
            &&& answer->0.get("id"@) == Some(id)
            &&& if method == "item/tool/requestUserInput"@ {
                &&& json::at(answer->0.get("result"@), "answers"@) == Some(
                    question_replies(questions),
                )
                &&& answer->0.get("error"@) is None
            } else if method == "item/commandExecution/requestApproval"@ || method
                == "item/fileChange/requestApproval"@ {
                &&& answer->0.get("result"@) == Some(
                    Tree::empty().with("decision"@, Tree::Text("decline"@)),
                )
                &&& answer->0.get("error"@) is None
            } else {
                &&& json::at(answer->0.get("error"@), "code"@) == Some(json::integer(-32601))
                &&& json::at(answer->0.get("error"@), "message"@) == Some(
                    Tree::Text("unsupported server request: "@ + method),
                )
                &&& answer->0.get("result"@) is None
            }
        },
{
    reveal_strlit("id");
    reveal_strlit("result");
    reveal_strlit("error");
    reveal_strlit("code");
    reveal_strlit("message");
    assert("id"@.len() == 2 && "result"@.len() == 6 && "error"@.len() == 5 && "code"@.len() == 4 && "message"@.len() == 7);
    reveal_strlit("item/tool/requestUserInput");
    reveal_strlit("item/commandExecution/requestApproval");
    reveal_strlit("item/fileChange/requestApproval");
    assert("item/tool/requestUserInput"@.len() == 26 && "item/commandExecution/requestApproval"@.len() == 37 && "item/fileChange/requestApproval"@.len() == 31);
}

/// While a request waits, a message is its response exactly where it bears its identifier and
/// no method; and while a notification is awaited, a message is delivered exactly where it has
/// a method and no identifier, and as it came.
pub proof fn law_messages_go_where_they_belong(id: u64, message: Tree)
    ensures
        waiting_step(id, message) is Finished <==> message.get("id"@) == Some(
            json::integer(id as int),
        ) && message.get("method"@) is None,
        waiting_step(id, message) is Answer <==> message.get("id"@) is Some && message.get(
            "method"@,
        ) is Some,
        listening_step(message) is Answer <==> message.get("id"@) is Some && message.get(
            "method"@,
        ) is Some,
        listening_step(message) is Deliver <==> message.get("method"@) is Some && message.get(
            "id"@,
        ) is None,
        listening_step(message) matches ListeningView::Deliver(delivered) ==> delivered == message,
        waiting_step(id, message) matches WaitingView::Finished(outcome) ==> outcome
            == rpc::response_outcome(message),
{
}

/// What a request comes to is what its response reports, and a request without one never
/// succeeds: the error says whether time ran out, and of which method, or the server is gone.
pub proof fn law_only_a_response_ends_well(method: Seq<char>, end: WaitEndView, result: Tree)
    ensures
        wait_outcome(method, end) is Ok ==> end is Response,
        wait_outcome(method, WaitEndView::Response(Ok(result))) == Ok::<Tree, Seq<char>>(result),
        wait_outcome(method, WaitEndView::Response(Err(method))) == Err::<Tree, Seq<char>>(method),
        wait_outcome(method, WaitEndView::TimedOut) == Err::<Tree, Seq<char>>(
            "Codex app-server request timed out: "@ + method,
        ),
        wait_outcome(method, WaitEndView::Closed) == Err::<Tree, Seq<char>>(
            "Codex app-server exited unexpectedly"@,
        ),
{
}

/// What the values of this module show in contracts is what they hold, part by part: nothing is
/// left out, and nothing is changed.
pub proof fn law_values_show_what_they_hold(
    app_server_connection: &AppServerConnection,
    waiting: &Waiting,
    listening: &Listening,
    wait_end: &WaitEnd,
)
    ensures
        app_server_connection.view() == (ConnectionView {
            next_id: app_server_connection.next_id,
            notifications: Seq::new(
                app_server_connection.notifications@.len(),
                |i: int| app_server_connection.notifications@[i]@,
            ),
        }),
        waiting.deep_view() == (match waiting {
            Waiting::Finished(outcome) => WaitingView::Finished(rpc::result_view(*outcome)),
            Waiting::Answer(answer) => WaitingView::Answer(answer@),
            Waiting::Kept => WaitingView::Kept,
        }),
        listening.deep_view() == (match listening {
            Listening::Answer(answer) => ListeningView::Answer(answer@),
            Listening::Deliver(message) => ListeningView::Deliver(message@),
            Listening::Skip => ListeningView::Skip,
        }),
        wait_end.deep_view() == (match wait_end {
            WaitEnd::Response(outcome) => WaitEndView::Response(rpc::result_view(*outcome)),
            WaitEnd::TimedOut => WaitEndView::TimedOut,
            WaitEnd::Closed => WaitEndView::Closed,
        }),
{
}

/// What comes while a request waits, and is neither its response nor a request of the server, is
/// kept as it came, behind what was kept before; nothing else is kept, and nothing is lost.
pub proof fn law_messages_are_kept_as_they_came(
    connection: ConnectionView,
    id: u64,
    message: Tree,
    i: int,
)
    ensures
        ({
            let after = after_message(connection, id, message);
            let had = connection.notifications;
            let response = message.get("id"@) == Some(json::integer(id as int)) && message.get(
                "method"@,
            ) is None;
            let request = message.get("id"@) is Some && message.get("method"@) is Some;
            &&& after.next_id == connection.next_id
            &&& 0 <= i < had.len() ==> i < after.notifications.len() && after.notifications[i]
                == had[i]
            &&& response || request ==> after.notifications.len() == had.len()
            &&& !response && !request ==> after.notifications.len() == had.len() + 1
                && after.notifications.last() == message
        }),
{
}

} // verus!
