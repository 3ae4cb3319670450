//! The messages of the app-server protocol: requests, responses and notifications.

use vstd::prelude::*;

use crate::json;
use crate::json::{str_in_or, Json, NumberTree, Tree};
use crate::text;

verus! {

/// What a result means.
pub open spec fn result_view<A: DeepView, B: DeepView>(result: Result<A, B>) -> Result<A::V, B::V> {
    match result {
        Ok(value) => Ok(value.deep_view()),
        Err(error) => Err(error.deep_view()),
    }
}

/// A call on the server: a method and its parameters.
pub struct Call {
    pub method: String,
    pub params: Json,
}

/// What a call means.
pub struct CallView {
    pub method: Seq<char>,
    pub params: Tree,
}

impl View for Call {
    type V = CallView;

    open spec fn view(&self) -> CallView {
        CallView { method: self.method@, params: self.params@ }
    }
}

impl DeepView for Call {
    type V = CallView;

    open spec fn deep_view(&self) -> CallView {
        self@
    }
}

impl Call {
    /// A call of `method` with the given parameters.
    pub fn new(method: &str, params: Json) -> (r: Call)
        ensures
            r@ == (CallView { method: method@, params: params@ }),
    {
        Call { method: method.to_owned(), params }
    }
}

/// The message that asks for a call under the identifier `id`.
pub open spec fn request_tree(id: u64, call: CallView) -> Tree {
    Tree::empty()
        .with("id"@, json::integer(id as int))
        .with("method"@, Tree::Text(call.method))
        .with("params"@, call.params)
}

/// The message that asks for a call under the identifier `id`.
pub fn request_message(id: u64, call: Call) -> (r: Json)
    ensures
        r@ == request_tree(id, call@),
{
    Json::object().with("id", Json::Unsigned(id)).with_text("method", call.method.as_str()).with(
        "params",
        call.params,
    )
}

/// The message that makes a call without asking for an answer.
pub open spec fn notification_tree(call: CallView) -> Tree {
    Tree::empty().with("method"@, Tree::Text(call.method)).with("params"@, call.params)
}

/// The message that makes a call without asking for an answer.
pub fn notification_message(call: Call) -> (r: Json)
    ensures
        r@ == notification_tree(call@),
{
    Json::object().with_text("method", call.method.as_str()).with("params", call.params)
}

/// Whether a message is a request of the server: it names a method and wants an answer.
pub open spec fn server_request(message: Tree) -> bool {
    message.get("id"@) is Some && message.get("method"@) is Some
}

/// Whether a message is a request of the server: it names a method and wants an answer.
pub fn is_server_request(message: &Json) -> (r: bool)
    ensures
        r == server_request(message@),
{
    message.get("id").is_some() && message.get("method").is_some()
}

/// The identifier of the request that a message responds to, where it is a response.
pub open spec fn response_id(message: Tree) -> Option<u64> {
    match message.get("id"@) {
        Some(id) => if message.get("method"@) is None {
            id.as_u64()
        } else {
            None
        },
        None => None,
    }
}

/// The identifier of the request that a message responds to, where it is a response.
pub fn responds_to(message: &Json) -> (r: Option<u64>)
    ensures
        r == response_id(message@),
{
    match message.get("id") {
        Some(id) => if message.get("method").is_none() {
            id.as_u64()
        } else {
            None
        },
        None => None,
    }
}

/// How an error of the server reads: its message, with its code where it has one.
pub open spec fn error_text(error: Tree) -> Seq<char> {
    let message = json::text_or(error.get("message"@), "Codex app-server request failed"@);
    match error.get("code"@) {
        Some(code) => match code.as_i64() {
            Some(n) => message + " ("@ + text::integer_text(n as int) + ")"@,
            None => message,
        },
        None => message,
    }
}

/// How an error of the server reads: its message, with its code where it has one.
pub fn format_rpc_error(error: &Json) -> (r: String)
    ensures
        r@ == error_text(error@),
{
    let mut message: String = str_in_or(
        error.get("message"),
        "Codex app-server request failed",
    ).to_owned();
    if let Some(code) = error.get("code") {
        if let Some(n) = code.as_i64() {
            message.append(" (");
            message.append(text::format_integer(n).as_str());
            message.append(")");
        }
    }
    message
}

/// What a response reports: the error in it, or else its result, which is `null` where it
/// is left out.
pub open spec fn response_outcome(message: Tree) -> Result<Tree, Seq<char>> {
    match message.get("error"@) {
        Some(error) => Err(error_text(error)),
        None => Ok(
            match message.get("result"@) {
                Some(result) => result,
                None => Tree::Null,
            },
        ),
    }
}

/// What a response reports: the error in it, or else its result, which is `null` where it
/// is left out.
pub fn outcome(message: &Json) -> (r: Result<Json, String>)
    ensures
        result_view(r) == response_outcome(message@),
{
    match message.get("error") {
        Some(error) => Err(format_rpc_error(error)),
        None => match message.get("result") {
            Some(result) => Ok(result.copy()),
            None => Ok(Json::Null),
        },
    }
}

/// The response that gives `result` to the request `id`.
pub open spec fn result_tree(id: Tree, result: Tree) -> Tree {
    Tree::empty().with("id"@, id).with("result"@, result)
}

/// The response that gives `result` to the request `id`.
pub fn result_message(id: Json, result: Json) -> (r: Json)
    ensures
        r@ == result_tree(id@, result@),
{
    Json::object().with("id", id).with("result", result)
}

/// The code of the error that a method is not found.
pub const METHOD_NOT_FOUND: i64 = -32601;

/// The response that refuses the request `id` because its method is not supported.
pub open spec fn refusal_tree(id: Tree, message: Seq<char>) -> Tree {
    let error = Tree::empty()
        .with("code"@, json::integer(METHOD_NOT_FOUND as int))
        .with("message"@, Tree::Text(message));
    Tree::empty().with("id"@, id).with("error"@, error)
}

/// The response that refuses the request `id` because its method is not supported.
pub fn refusal_message(id: Json, message: &str) -> (r: Json)
    ensures
        r@ == refusal_tree(id@, message@),
{
    let error = Json::object().with("code", Json::Signed(METHOD_NOT_FOUND)).with_text(
        "message",
        message,
    );
    Json::object().with("id", id).with("error", error)
}

/// The result that declines an approval.
pub open spec fn decline_tree() -> Tree {
    Tree::empty().with("decision"@, Tree::Text("decline"@))
}

/// The result that declines an approval.
pub fn decline() -> (r: Json)
    ensures
        r@ == decline_tree(),
{
    Json::object().with_text("decision", "decline")
}

/// Whether a method asks for the approval of a command or of a change to files.
pub open spec fn approval_method(method: Seq<char>) -> bool {
    method == "item/commandExecution/requestApproval"@ || method
        == "item/fileChange/requestApproval"@
}

/// Whether a method asks for the approval of a command or of a change to files.
pub fn is_approval(method: &str) -> (r: bool)
    ensures
        r == approval_method(method@),
{
    text::same_text(method, "item/commandExecution/requestApproval") || text::same_text(
        method,
        "item/fileChange/requestApproval",
    )
}

/// The call that introduces this client, whose version is `version`, to the server.
pub open spec fn initialize_view(version: Seq<char>) -> CallView {
    let client = Tree::empty()
        .with("name"@, Tree::Text("grox_cli"@))
        .with("title"@, Tree::Text("Grox"@))
        .with("version"@, Tree::Text(version));
    let capabilities = Tree::empty().with("experimentalApi"@, Tree::Bool(true));
    CallView {
        method: "initialize"@,
        params: Tree::empty().with("clientInfo"@, client).with("capabilities"@, capabilities),
    }
}

/// The call that introduces this client, whose version is `version`, to the server.
pub fn initialize_call(version: &str) -> (r: Call)
    ensures
        r@ == initialize_view(version@),
{
    let client = Json::object().with_text("name", "grox_cli").with_text("title", "Grox").with_text(
        "version",
        version,
    );
    let capabilities = Json::object().with("experimentalApi", Json::Bool(true));
    Call::new(
        "initialize",
        Json::object().with("clientInfo", client).with("capabilities", capabilities),
    )
}

/// The notification that the introduction is over.
pub fn initialized_call() -> (r: Call)
    ensures
        r@ == (CallView { method: "initialized"@, params: Tree::empty() }),
{
    Call::new("initialized", Json::object())
}

/// The call that asks for the account.
pub fn account_call() -> (r: Call)
    ensures
        r@ == (CallView { method: "account/read"@, params: Tree::empty() }),
{
    Call::new("account/read", Json::object())
}

/// The call that asks for a page of the models: the first one, or the one that a cursor
/// stands for.
pub open spec fn model_list_view(cursor: Option<Seq<char>>) -> CallView {
    CallView {
        method: "model/list"@,
        params: match cursor {
            Some(cursor) => Tree::empty().with("cursor"@, Tree::Text(cursor)),
            None => Tree::empty(),
        },
    }
}

/// The call that asks for a page of the models: the first one, or the one that a cursor
/// stands for.
pub fn model_list_call(cursor: Option<&str>) -> (r: Call)
    ensures
        r@ == model_list_view(cursor.deep_view()),
{
    let fields = match cursor {
        Some(cursor) => Json::object().with_text("cursor", cursor),
        None => Json::object(),
    };
    Call::new("model/list", fields)
}

/// The cursor of the page that follows, where there is one.
pub open spec fn next_cursor(response: Tree) -> Option<Seq<char>> {
    json::text_of(response.get("nextCursor"@))
}

/// The error where the Codex CLI at `binary` cannot be started.
pub open spec fn start_failure(binary: Seq<char>) -> Seq<char> {
    "could not start Codex CLI at '"@ + binary + "'; install @openai/codex and run `codex login`"@
}

/// The error where the Codex CLI at `binary` cannot be started.
pub fn start_error(binary: &str) -> (r: String)
    ensures
        r@ == start_failure(binary@),
{
    let mut message: String = "could not start Codex CLI at '".to_owned();
    message.append(binary);
    message.append("'; install @openai/codex and run `codex login`");
    message
}

/// The error where the server does not answer a call of `method` in time.
pub fn timeout_error(method: &str) -> (r: String)
    ensures
        r@ == "Codex app-server request timed out: "@ + method@,
{
    let mut message: String = "Codex app-server request timed out: ".to_owned();
    message.append(method);
    message
}

/// The identifier of the thread that a response reports, or the error where it has none.
pub open spec fn thread_outcome(response: Tree) -> Result<Seq<char>, Seq<char>> {
    match json::text_of(json::at(response.get("thread"@), "id"@)) {
        Some(id) => Ok(id),
        None => Err("Codex app-server did not return a thread id"@),
    }
}

/// The identifier of the thread that a response reports, or the error where it has none.
pub fn thread_id(response: &Json) -> (r: Result<String, String>)
    ensures
        result_view(r) == thread_outcome(response@),
{
    match json::str_in(json::get_in(response.get("thread"), "id")) {
        Some(id) => Ok(id.to_owned()),
        None => Err("Codex app-server did not return a thread id".to_owned()),
    }
}

/// The identifier of the turn that a response reports, where it has one.
pub open spec fn turn_of(response: Tree) -> Option<Seq<char>> {
    json::text_of(json::at(response.get("turn"@), "id"@))
}

/// A copy of a text that may be missing.
pub fn owned(text: Option<&str>) -> (r: Option<String>)
    ensures
        r.deep_view() == text.deep_view(),
{
    match text {
        Some(text) => Some(text.to_owned()),
        None => None,
    }
}

/// The identifier of the turn that a response reports, where it has one.
pub fn turn_id(response: &Json) -> (r: Option<String>)
    ensures
        r.deep_view() == turn_of(response@),
{
    owned(json::str_in(json::get_in(response.get("turn"), "id")))
}

/// A request says which call is made, under its identifier, and nothing else; a notification
/// says the same without an identifier.
pub proof fn law_messages_say_what_is_called(id: u64, call: CallView, other: Seq<char>)
    ensures
        request_tree(id, call).get("id"@) == Some(json::integer(id as int)),
        request_tree(id, call).get("method"@) == Some(Tree::Text(call.method)),
        request_tree(id, call).get("params"@) == Some(call.params),
        notification_tree(call).get("id"@) is None,
        notification_tree(call).get("method"@) == Some(Tree::Text(call.method)),
        notification_tree(call).get("params"@) == Some(call.params),
        other != "id"@ && other != "method"@ && other != "params"@ ==> request_tree(id, call).get(
            other,
        ) is None && notification_tree(call).get(other) is None,
{
    reveal_strlit("id");
    reveal_strlit("method");
    reveal_strlit("params");
    assert("id"@.len() == 2 && "method"@.len() == 6 && "params"@.len() == 6);
    assert("method"@[0] == 'm' && "params"@[0] == 'p');
}

/// A message is a request exactly where it has both an identifier and a method, and a response
/// to the request `id` exactly where that integer is its identifier and it has no method.
pub proof fn law_requests_and_responses_are_told_apart(message: Tree, id: u64)
    ensures
        server_request(message) <==> message.get("id"@) is Some && message.get("method"@) is Some,
        response_id(message) == Some(id) <==> message.get("id"@) == Some(json::integer(id as int))
            && message.get("method"@) is None,
        server_request(message) ==> response_id(message) is None,
{
}

/// What one side answers, the other reads: a result is read as that result, a refusal as its
/// message with the code of an unknown method, and both respond to the request that they are
/// for. An error always counts, and a response without a result has `null` for one.
pub proof fn law_answers_read_back(id: u64, result: Tree, text: Seq<char>, message: Tree)
    ensures
        response_id(result_tree(json::integer(id as int), result)) == Some(id),
        response_outcome(result_tree(json::integer(id as int), result)) == Ok::<Tree, Seq<char>>(
            result,
        ),
        response_id(refusal_tree(json::integer(id as int), text)) == Some(id),
        response_outcome(refusal_tree(json::integer(id as int), text)) == Err::<Tree, Seq<char>>(
            text + " ("@ + text::integer_text(-32601) + ")"@,
        ),
        response_outcome(message) is Err <==> message.get("error"@) is Some,
        message.get("error"@) is None ==> response_outcome(message) == Ok::<Tree, Seq<char>>(
            match message.get("result"@) {
                Some(found) => found,
                None => Tree::Null,
            },
        ),
        message.get("error"@) matches Some(error) ==> response_outcome(message) == Err::<
            Tree,
            Seq<char>,
        >(error_text(error)),
{
    reveal_strlit("id");
    reveal_strlit("method");
    reveal_strlit("result");
    reveal_strlit("error");
    reveal_strlit("code");
    reveal_strlit("message");
    assert("id"@.len() == 2 && "method"@.len() == 6 && "result"@.len() == 6 && "error"@.len() == 5 && "code"@.len() == 4 && "message"@.len() == 7);
    assert("method"@[0] == 'm' && "result"@[0] == 'r');
}

/// An error reads as its message, followed by its code in brackets where it has one that is an
/// integer of 64 bits; one without a message still reads as something.
pub proof fn law_errors_read_as_message_and_code(error: Tree)
    ensures
        ({
            let message = match error.get("message"@) {
                Some(Tree::Text(text)) => text,
                _ => "Codex app-server request failed"@,
            };
            match error.get("code"@) {
                Some(Tree::Number(NumberTree::Integer(n))) => if i64::MIN <= n <= i64::MAX {
                    error_text(error) == message + " ("@ + text::integer_text(n) + ")"@
                } else {
                    error_text(error) == message
                },
                _ => error_text(error) == message,
            }
        }),
{
}

/// An answer says what it answers, and nothing but a result or an error.
pub proof fn law_answers_say_what_they_answer(
    id: Tree,
    result: Tree,
    text: Seq<char>,
    other: Seq<char>,
)
    ensures
        result_tree(id, result).get("id"@) == Some(id),
        result_tree(id, result).get("result"@) == Some(result),
        other != "id"@ && other != "result"@ ==> result_tree(id, result).get(other) is None,
        refusal_tree(id, text).get("id"@) == Some(id),
        json::at(refusal_tree(id, text).get("error"@), "code"@) == Some(json::integer(-32601)),
        json::at(refusal_tree(id, text).get("error"@), "message"@) == Some(Tree::Text(text)),
        other != "id"@ && other != "error"@ ==> refusal_tree(id, text).get(other) is None,
        decline_tree().get("decision"@) == Some(Tree::Text("decline"@)),
        other != "decision"@ ==> decline_tree().get(other) is None,
        approval_method(text) <==> text == "item/commandExecution/requestApproval"@ || text
            == "item/fileChange/requestApproval"@,
{
    reveal_strlit("id");
    reveal_strlit("result");
    reveal_strlit("error");
    reveal_strlit("code");
    reveal_strlit("message");
    assert("id"@.len() == 2 && "result"@.len() == 6 && "error"@.len() == 5 && "code"@.len() == 4 && "message"@.len() == 7);
}

/// A page of models is asked for by the cursor that the page before it gave, and the first one
/// without a cursor. A page that gives no text for a cursor is the last.
pub proof fn law_pages_are_asked_for_by_cursor(
    cursor: Seq<char>,
    page: Tree,
    other: Seq<char>,
)
    ensures
        model_list_view(None).method == "model/list"@,
        model_list_view(Some(cursor)).method == "model/list"@,
        model_list_view(None).params is Object,
        model_list_view(None).params.get(other) is None,
        model_list_view(Some(cursor)).params.get("cursor"@) == Some(Tree::Text(cursor)),
        other != "cursor"@ ==> model_list_view(Some(cursor)).params.get(other) is None,
        next_cursor(page) == Some(cursor) <==> page.get("nextCursor"@) == Some(
            Tree::Text(cursor),
        ),
{
}

/// A thread or a turn is known by the text under `id` in what a response says of it, and by
/// nothing else.
pub proof fn law_threads_and_turns_are_known_by_id(response: Tree, id: Seq<char>)
    ensures
        thread_outcome(response) == Ok::<Seq<char>, Seq<char>>(id) <==> json::at(
            response.get("thread"@),
            "id"@,
        ) == Some(Tree::Text(id)),
        thread_outcome(response) matches Err(error) ==> error
            == "Codex app-server did not return a thread id"@,
        turn_of(response) == Some(id) <==> json::at(response.get("turn"@), "id"@) == Some(
            Tree::Text(id),
        ),
{
}

/// What the values of this module show in contracts is what they hold, part by part: nothing is
/// left out, and nothing is changed.
pub proof fn law_values_show_what_they_hold(
    call: &Call,
)
    ensures
        call.view() == (CallView { method: call.method@, params: call.params@ }),
{
}

/// What a result shows in contracts is what it holds, be it a value or an error.
pub proof fn law_results_show_what_they_hold<A: DeepView, B: DeepView>(value: A, error: B)
    ensures
        result_view::<A, B>(Ok(value)) == Ok::<A::V, B::V>(value.deep_view()),
        result_view::<A, B>(Err(error)) == Err::<A::V, B::V>(error.deep_view()),
{
}

/// The error of a start that failed names the program that could not be started, and says what
/// to do.
pub proof fn law_a_failed_start_names_the_program(binary: Seq<char>)
    ensures
        start_failure(binary) == "could not start Codex CLI at '"@ + binary
            + "'; install @openai/codex and run `codex login`"@,
{
}

} // verus!
