//! The command: its connection, the status that it reports, and its turns.

use grox_codex::cli::{self, Chat, ChatStep, CodexArgs, Opened, Plan, Session};
use grox_codex::codec::{decode_line, encode_line};
use grox_codex::connection::{
    self, answer_server_request, listen, AppServerConnection, Listening, WaitEnd, Waiting,
};
use grox_codex::json::Json;
use grox_codex::rpc::Call;
use grox_codex::status::{self, CodexStatus, StatusStep};
use grox_codex::tools;
use grox_codex::turn::{self, OpenError, Turn, TurnStep};

fn json(line: &str) -> Json {
    decode_line(line).unwrap()
}

fn shown(json: &Json) -> String {
    String::from_utf8(encode_line(json)).unwrap().trim_end().to_owned()
}

#[test]
fn labels_command_and_mcp_activity() {
    assert_eq!(
        tools::tool_label(Some(
            &Json::object()
                .with("type", Json::text("commandExecution"))
                .with("command", Json::text("cargo test"))
        )),
        Some("shell: cargo test".to_owned())
    );
    assert_eq!(
        tools::tool_label(Some(
            &Json::object()
                .with("type", Json::text("mcpToolCall"))
                .with("server", Json::text("docs"))
                .with("tool", Json::text("search"))
        )),
        Some("docs.search".to_owned())
    );
}

#[test]
fn labels_other_activity() {
    let label = |line: &str| tools::tool_label(Some(&json(line)));
    assert_eq!(label(r#"{"type":"commandExecution"}"#), Some("shell: command".to_owned()));
    assert_eq!(label(r#"{"type":"mcpToolCall"}"#), Some("mcp.tool".to_owned()));
    assert_eq!(label(r#"{"type":"fileChange"}"#), Some("apply patch".to_owned()));
    assert_eq!(label(r#"{"type":"webSearch"}"#), Some("web search".to_owned()));
    assert_eq!(
        label(r#"{"type":"collabAgentToolCall"}"#),
        Some("collaboration agent".to_owned())
    );
    assert_eq!(label(r#"{"type":"agentMessage"}"#), None);
    assert_eq!(label("{}"), None);
    assert_eq!(tools::tool_label(None), None);
}

#[test]
fn a_waiting_request_keeps_what_is_not_for_it() {
    let mut connection = AppServerConnection::new();
    let (id, message) = connection.request(Call::new("account/read", Json::object()));
    assert_eq!(id, 1);
    assert_eq!(shown(&message), r#"{"id":1,"method":"account/read","params":{}}"#);
    assert_eq!(connection.next_id, 2);

    assert!(matches!(
        connection.wait(id, json(r#"{"method":"first"}"#)),
        Waiting::Kept
    ));
    assert!(matches!(
        connection.wait(id, json(r#"{"id":9,"result":1}"#)),
        Waiting::Kept
    ));
    match connection.wait(id, json(r#"{"id":7,"method":"item/fileChange/requestApproval"}"#)) {
        Waiting::Answer(answer) => {
            assert_eq!(shown(&answer), r#"{"id":7,"result":{"decision":"decline"}}"#)
        }
        _ => panic!("the server is to be answered"),
    }
    match connection.wait(id, json(r#"{"id":1,"result":{"ok":true}}"#)) {
        Waiting::Finished(Ok(result)) => assert_eq!(shown(&result), r#"{"ok":true}"#),
        _ => panic!("the response is there"),
    }
    assert_eq!(
        shown(&connection.next_notification().unwrap()),
        r#"{"method":"first"}"#
    );
    assert_eq!(
        shown(&connection.next_notification().unwrap()),
        r#"{"id":9,"result":1}"#
    );
    assert!(connection.next_notification().is_none());
}

#[test]
fn a_failed_request_reports_its_error() {
    let mut connection = AppServerConnection::new();
    let (id, _) = connection.request(Call::new("x", Json::object()));
    match connection.wait(id, json(r#"{"id":1,"error":{"message":"gone","code":-1}}"#)) {
        Waiting::Finished(Err(error)) => assert_eq!(error, "gone (-1)"),
        _ => panic!("the request has failed"),
    }
}

#[test]
fn a_listener_gets_notifications_alone() {
    match listen(json(r#"{"method":"turn/completed","params":{}}"#)) {
        Listening::Deliver(message) => {
            assert_eq!(shown(&message), r#"{"method":"turn/completed","params":{}}"#)
        }
        _ => panic!("a notification is delivered"),
    }
    assert!(matches!(listen(json(r#"{"id":3,"result":1}"#)), Listening::Skip));
    match listen(json(r#"{"id":3,"method":"weird/thing"}"#)) {
        Listening::Answer(answer) => assert_eq!(
            shown(&answer),
            r#"{"error":{"code":-32601,"message":"unsupported server request: weird/thing"},"id":3}"#
        ),
        _ => panic!("the server is to be answered"),
    }
}

#[test]
fn questions_get_their_first_option() {
    let request = json(
        r#"{"id":"q","method":"item/tool/requestUserInput","params":{"questions":[
            {"id":"a","options":[{"label":"yes"},{"label":"no"}]},
            {"id":"b","options":[]},
            {"options":[{"label":"lost"}]},
            {"id":"c","options":[{"name":"x"}]}]}}"#,
    );
    assert_eq!(
        shown(&answer_server_request(&request).unwrap()),
        r#"{"id":"q","result":{"answers":{"a":{"answers":["yes"]},"b":{"answers":[]},"c":{"answers":[]}}}}"#
    );
    let bare = json(r#"{"id":1,"method":"item/tool/requestUserInput"}"#);
    assert_eq!(
        shown(&answer_server_request(&bare).unwrap()),
        r#"{"id":1,"result":{"answers":{}}}"#
    );
    assert!(answer_server_request(&json(r#"{"method":"x"}"#)).is_none());
}

fn ask(step: StatusStep) -> (status::StatusReading, String, String) {
    match step {
        StatusStep::Ask(reading, call) => (reading, call.method, shown(&call.params)),
        _ => panic!("there is something to ask"),
    }
}

#[test]
fn the_status_reads_every_page() {
    let (reading, method, params) = ask(status::status());
    assert_eq!((method.as_str(), params.as_str()), ("account/read", "{}"));
    let (reading, method, params) =
        ask(reading.next(&json(r#"{"account":{"type":"chatgpt","planType":"plus"}}"#)));
    assert_eq!((method.as_str(), params.as_str()), ("model/list", "{}"));
    let (reading, method, params) = ask(reading.next(&json(
        r#"{"data":[{"model":"m1"},{"name":"no id"},{"model":"m2","isDefault":true}],"nextCursor":"c"}"#,
    )));
    assert_eq!((method.as_str(), params.as_str()), ("model/list", r#"{"cursor":"c"}"#));
    match reading.next(&json(r#"{"data":[{"model":"m3"}]}"#)) {
        StatusStep::Ready(found) => {
            assert_eq!(found.account_label, "ChatGPT plus subscription");
            assert_eq!(found.models, vec!["m1", "m2", "m3"]);
            assert_eq!(found.default_model.as_deref(), Some("m2"));
        }
        _ => panic!("the last page ends the reading"),
    }
}

#[test]
fn the_first_model_is_the_default_where_none_is_marked() {
    let (reading, _, _) = ask(status::status());
    let (reading, _, _) = ask(reading.next(&json(r#"{"account":{"type":"apiKey"}}"#)));
    match reading.next(&json(r#"{"data":[{"model":"a"},{"model":"b"}]}"#)) {
        StatusStep::Ready(found) => {
            assert_eq!(found.account_label, "OpenAI API key");
            assert_eq!(found.default_model.as_deref(), Some("a"));
        }
        _ => panic!("the last page ends the reading"),
    }
}

#[test]
fn an_account_is_needed() {
    for line in [r#"{"account":null}"#, "{}"] {
        let (reading, _, _) = ask(status::status());
        match reading.next(&json(line)) {
            StatusStep::Failed(error) => assert_eq!(
                error,
                "Codex CLI is not authenticated; run `codex login` and try again"
            ),
            _ => panic!("there is no account"),
        }
    }
}

#[test]
fn accounts_are_called_by_what_they_are() {
    let label = |line: &str| status::label_account(&json(line));
    assert_eq!(
        label(r#"{"type":"chatgpt"}"#),
        "ChatGPT authenticated subscription"
    );
    assert_eq!(label(r#"{"type":"amazonBedrock"}"#), "Amazon Bedrock");
    assert_eq!(label(r#"{"type":"other"}"#), "other");
    assert_eq!(label("{}"), "authenticated Codex account");
}

#[test]
fn threads_are_opened_in_the_workspace_unless_full_access_is_asked_for() {
    let call = turn::open_thread("/w", None, None, false);
    assert_eq!(call.method, "thread/start");
    assert_eq!(
        shown(&call.params),
        r#"{"approvalPolicy":"never","cwd":"/w","sandbox":"workspace-write"}"#
    );
    let call = turn::open_thread("/w", Some("m"), Some("t1"), true);
    assert_eq!(call.method, "thread/resume");
    assert_eq!(
        shown(&call.params),
        r#"{"approvalPolicy":"never","cwd":"/w","model":"m","sandbox":"danger-full-access","threadId":"t1"}"#
    );
    assert_eq!(turn::resume_error("t1"), "could not resume Codex thread 't1'");
}

#[test]
fn a_thread_that_is_not_opened_says_why() {
    let open = |resume, outcome: Result<Json, u8>| turn::end_open(resume, outcome);
    let good = || json(r#"{"thread":{"id":"t9"}}"#);
    assert!(matches!(open(None, Ok(good())), Ok(id) if id == "t9"));
    assert!(matches!(open(Some("t1"), Ok(good())), Ok(id) if id == "t9"));
    assert!(matches!(open(None, Err(5)), Err(OpenError::Call(5))));
    match open(Some("t1"), Err(5)) {
        Err(OpenError::Resume(message, cause)) => {
            assert_eq!(message, "could not resume Codex thread 't1'");
            assert_eq!(cause, 5);
        }
        _ => panic!("the thread is not resumed"),
    }
    for resume in [None, Some("t1")] {
        match open(resume, Ok(json("{}"))) {
            Err(OpenError::NoThread(message)) => {
                assert_eq!(message, "Codex app-server did not return a thread id")
            }
            _ => panic!("the reply names no thread"),
        }
    }
}

#[test]
fn a_wait_without_a_response_fails() {
    let end = |end| connection::end_wait("turn/start", end);
    assert_eq!(
        end(WaitEnd::TimedOut).err().unwrap(),
        "Codex app-server request timed out: turn/start"
    );
    assert_eq!(
        end(WaitEnd::Closed).err().unwrap(),
        "Codex app-server exited unexpectedly"
    );
    assert_eq!(end(WaitEnd::Response(Err("no".to_owned()))).err().unwrap(), "no");
    assert!(end(WaitEnd::Response(Ok(Json::Null))).ok().unwrap().is_null());
}

#[test]
fn turns_are_started_in_the_workspace_unless_full_access_is_asked_for() {
    let call = turn::start_turn("t1", "hello", None, "/w", false);
    assert_eq!(call.method, "turn/start");
    assert_eq!(
        shown(&call.params),
        r#"{"approvalPolicy":"never","input":[{"text":"hello","type":"text"}],"sandboxPolicy":{"excludeSlashTmp":false,"excludeTmpdirEnvVar":false,"networkAccess":false,"type":"workspaceWrite","writableRoots":["/w"]},"threadId":"t1"}"#
    );
    let call = turn::start_turn("t1", "hello", Some("m"), "/w", true);
    assert_eq!(
        shown(&call.params),
        r#"{"approvalPolicy":"never","input":[{"text":"hello","type":"text"}],"model":"m","sandboxPolicy":{"type":"dangerFullAccess"},"threadId":"t1"}"#
    );
}

#[test]
fn a_turn_shows_its_text_and_ends_with_a_line_break() {
    let mut turn = Turn::started("t1", &json(r#"{"turn":{"id":"u1"}}"#));
    let other = json(r#"{"method":"item/agentMessage/delta","params":{"threadId":"t2","delta":"x"}}"#);
    assert!(matches!(turn.step(&other), TurnStep::Continue));
    assert!(!turn.wrote_text);
    let delta = json(r#"{"method":"item/agentMessage/delta","params":{"threadId":"t1","delta":"hi"}}"#);
    assert!(matches!(turn.step(&delta), TurnStep::Print(text) if text == "hi"));
    let plan = json(r#"{"method":"item/plan/delta","params":{"delta":"plan"}}"#);
    assert!(matches!(turn.step(&plan), TurnStep::Print(text) if text == "plan"));
    let tool = json(r#"{"method":"item/started","params":{"item":{"type":"webSearch"}}}"#);
    assert!(matches!(turn.step(&tool), TurnStep::Announce(label) if label == "web search"));
    let stranger = json(r#"{"method":"turn/completed","params":{"turn":{"id":"u2"}}}"#);
    assert!(matches!(turn.step(&stranger), TurnStep::Continue));
    let end = json(r#"{"method":"turn/completed","params":{"turn":{"id":"u1"}}}"#);
    assert!(matches!(
        turn.step(&end),
        TurnStep::Completed { line_break: true }
    ));
}

#[test]
fn a_turn_without_an_identifier_ends_with_any_turn() {
    let mut turn = Turn::started("t1", &json("{}"));
    assert!(matches!(
        turn.step(&json(r#"{"method":"turn/completed"}"#)),
        TurnStep::Completed { line_break: false }
    ));
}

#[test]
fn a_turn_fails_with_what_is_reported() {
    let mut turn = Turn::started("t1", &json(r#"{"turn":{"id":"u1"}}"#));
    let retried = json(r#"{"method":"error","params":{"willRetry":true,"error":{"message":"m"}}}"#);
    assert!(matches!(turn.step(&retried), TurnStep::Continue));
    let error = json(r#"{"method":"error","params":{"error":{"message":"broken"}}}"#);
    assert!(matches!(turn.step(&error), TurnStep::Failed(text) if text == "broken"));
    let bare = json(r#"{"method":"error"}"#);
    assert!(matches!(
        turn.step(&bare),
        TurnStep::Failed(text) if text == "Codex app-server reported an error"
    ));
    let failed = json(
        r#"{"method":"turn/completed","params":{"turn":{"id":"u1","status":"failed","error":{"message":"out"}}}}"#,
    );
    assert!(matches!(turn.step(&failed), TurnStep::Failed(text) if text == "out"));
    let failed = json(r#"{"method":"turn/completed","params":{"turn":{"id":"u1","status":"failed"}}}"#);
    assert!(matches!(
        turn.step(&failed),
        TurnStep::Failed(text) if text == "Codex turn failed"
    ));
}

fn account() -> CodexStatus {
    CodexStatus {
        account_label: "ChatGPT plus subscription".to_owned(),
        models: vec!["m1".to_owned(), "m2".to_owned()],
        default_model: Some("m1".to_owned()),
    }
}

fn arguments() -> CodexArgs {
    CodexArgs {
        status: false,
        model: None,
        resume: None,
        full_access: false,
        prompt: None,
        message: None,
    }
}

#[test]
fn a_status_run_reports_the_account() {
    let args = CodexArgs { status: true, ..arguments() };
    match cli::plan(args, &account()) {
        Plan::Report(lines) => assert_eq!(
            lines,
            vec![
                "Codex authentication: ChatGPT plus subscription",
                "Default model: m1",
                "Available models:",
                "  m1",
                "  m2",
            ]
        ),
        Plan::Open(_) => panic!("a status run opens nothing"),
    }
    let bare = CodexStatus { models: Vec::new(), default_model: None, ..account() };
    assert_eq!(
        cli::report(&bare)[1],
        "Default model: Codex configuration default"
    );
}

#[test]
fn arguments_come_before_defaults() {
    let args = CodexArgs {
        model: Some("m2".to_owned()),
        resume: Some("t1".to_owned()),
        full_access: true,
        prompt: Some("p".to_owned()),
        message: Some("q".to_owned()),
        ..arguments()
    };
    match cli::plan(args, &account()) {
        Plan::Open(session) => {
            assert_eq!(session.model.as_deref(), Some("m2"));
            assert_eq!(session.resume.as_deref(), Some("t1"));
            assert!(session.full_access);
            assert_eq!(session.prompt.as_deref(), Some("p"));
        }
        Plan::Report(_) => panic!("a thread is to be opened"),
    }
    let args = CodexArgs { message: Some("q".to_owned()), ..arguments() };
    match cli::plan(args, &account()) {
        Plan::Open(session) => {
            assert_eq!(session.model.as_deref(), Some("m1"));
            assert!(!session.full_access);
            assert_eq!(session.prompt.as_deref(), Some("q"));
        }
        Plan::Report(_) => panic!("a thread is to be opened"),
    }
}

fn chat() -> Chat {
    Chat {
        status: account(),
        thread_id: "t1".to_owned(),
        model: None,
    }
}

fn said(step: ChatStep) -> Vec<String> {
    match step {
        ChatStep::Say(lines) => lines,
        _ => panic!("there is something to say"),
    }
}

#[test]
fn every_run_shows_its_thread() {
    assert_eq!(cli::note_thread("t1"), "Codex thread: t1");
    assert_eq!(
        chat().banner(),
        vec![
            "Grox Codex \u{2022} ChatGPT plus subscription \u{2022} model default",
            "Thread t1 \u{2022} /help for commands",
        ]
    );
    assert_eq!(said(chat().step(Some(" /thread "))), vec!["t1"]);
    for outcome in [Ok(()), Err("broken".to_owned())] {
        let (note, returned) = cli::end_prompt("t1", outcome.clone());
        assert_eq!(note, "Codex thread: t1");
        assert_eq!(returned, outcome);
    }
}

#[test]
fn an_open_thread_is_used_once_or_talked_on() {
    let session = |prompt: Option<&str>| Session {
        model: Some("m2".to_owned()),
        resume: None,
        full_access: false,
        prompt: prompt.map(str::to_owned),
    };
    match cli::thread_opened(session(Some("p")), account(), "t1".to_owned()) {
        Opened::Once { prompt, model } => {
            assert_eq!(prompt, "p");
            assert_eq!(model.as_deref(), Some("m2"));
        }
        Opened::Chat(_, _) => panic!("there is one prompt to run"),
    }
    match cli::thread_opened(session(None), account(), "t1".to_owned()) {
        Opened::Chat(chat, lines) => {
            assert_eq!(chat.thread_id, "t1");
            assert_eq!(chat.model.as_deref(), Some("m2"));
            assert_eq!(lines, chat.banner());
            assert_eq!(lines[1], "Thread t1 \u{2022} /help for commands");
        }
        Opened::Once { .. } => panic!("there is no prompt"),
    }
}

#[test]
fn commands_are_carried_out() {
    let mut chat = chat();
    assert!(matches!(chat.step(None), ChatStep::Quit));
    assert!(matches!(chat.step(Some("/exit")), ChatStep::Quit));
    assert!(matches!(chat.step(Some("/quit\r")), ChatStep::Quit));
    assert!(matches!(chat.step(Some("   ")), ChatStep::Ignore));
    assert_eq!(
        said(chat.step(Some("/help"))),
        vec![
            "/model <id>  switch model for following turns",
            "/models      list subscription models",
            "/thread      print the resumable Codex thread id",
            "/exit        quit",
        ]
    );
    assert_eq!(said(chat.step(Some("/models"))), vec!["m1", "m2"]);
    assert!(matches!(chat.step(Some(" hello ")), ChatStep::Turn(prompt) if prompt == "hello"));
    assert!(matches!(chat.step(Some("/model")), ChatStep::Turn(prompt) if prompt == "/model"));
    assert_eq!(
        cli::end_turn(Err("gone".to_owned())),
        Some("Codex error: gone".to_owned())
    );
    assert_eq!(cli::end_turn(Ok(())), None);
}

#[test]
fn the_model_is_switched_for_the_turns_to_come() {
    let mut chat = chat();
    assert_eq!(said(chat.step(Some("/model  m2 "))), vec!["model: m2"]);
    assert_eq!(chat.model.as_deref(), Some("m2"));
    assert_eq!(said(chat.step(Some("/model /model m1"))), vec!["model: m1"]);
    assert_eq!(chat.model.as_deref(), Some("m1"));
    assert_eq!(said(chat.step(Some("/model /model x/model "))), vec!["model: x/model"]);
    assert_eq!(chat.thread_id, "t1");
}
