//! The agent: the app-server behind it, the models it offers, and its sessions.

use grox_codex::catalog::{
    codex_model_info, is_codex_model, offer_models, ModelInfo, ModelState, CODEX_MODEL_PREFIX,
};
use grox_codex::codec::{decode_line, encode_line};
use grox_codex::error::{codex_error, AgentError, ErrorKind};
use grox_codex::json::Json;
use grox_codex::models::{self, CodexModel, CodexStatus, StatusStep};
use grox_codex::prompt::{codex_input, input_resource, PromptBlock};
use grox_codex::prompting::{CodexTurn, PromptStep, StopReason, TurnAction, TurnEvent, Update};
use grox_codex::protocol;
use grox_codex::router::{interrupted, ActiveProvider, Cancellation, GroxAgent, ModelSwitch};
use grox_codex::rpc::Call;
use grox_codex::server::{self, CodexAppServer, Dispatch, RequestEnd};
use grox_codex::status;
use grox_codex::tools::{self, ToolKind, ToolStatus};

fn json(line: &str) -> Json {
    decode_line(line).unwrap()
}

fn shown(json: &Json) -> String {
    String::from_utf8(encode_line(json)).unwrap().trim_end().to_owned()
}

#[test]
fn codex_models_have_collision_safe_ids_and_provider_labels() {
    let info = codex_model_info(
        &CodexModel {
            id: "gpt-5.4".to_owned(),
            name: "GPT-5.4".to_owned(),
            description: None,
            is_default: true,
            supported_reasoning_efforts: vec!["medium".to_owned()],
            default_reasoning_effort: Some("medium".to_owned()),
        },
        "ChatGPT plus subscription",
    );
    assert_eq!(info.model_id, "codex:gpt-5.4");
    assert!(is_codex_model(&info.model_id));
    assert_eq!(info.name, "Codex - GPT-5.4");
    assert_eq!(
        info.meta.as_ref().and_then(|meta| meta.get("provider")).and_then(|value| value.as_str()),
        Some("codex")
    );
}

#[test]
fn tool_events_keep_codex_item_ids() {
    let notification = Json::object().with(
        "params",
        Json::object().with(
            "item",
            Json::object()
                .with("id", Json::text("item-7"))
                .with("type", Json::text("commandExecution"))
                .with("command", Json::text("pwd")),
        ),
    );
    let tool = tools::codex_tool_start(&notification).unwrap();
    assert_eq!(tool.id, "item-7");
    assert_eq!(tool.status, ToolStatus::InProgress);
}

#[test]
fn tool_calls_are_titled_by_what_they_do() {
    let start = |item: &str| {
        let line = format!("{{\"params\":{{\"item\":{item}}}}}");
        tools::codex_tool_start(&json(&line)).map(|call| (call.title, call.kind))
    };
    assert_eq!(
        start(r#"{"id":"1","type":"commandExecution","command":"ls"}"#),
        Some(("Shell: ls".to_owned(), ToolKind::Execute))
    );
    assert_eq!(
        start(r#"{"id":"1","type":"fileChange"}"#),
        Some(("Apply file changes".to_owned(), ToolKind::Edit))
    );
    assert_eq!(
        start(r#"{"id":"1","type":"webSearch"}"#),
        Some(("Web search".to_owned(), ToolKind::Search))
    );
    assert_eq!(
        start(r#"{"id":"1","type":"mcpToolCall","server":"s"}"#),
        Some(("s.tool".to_owned(), ToolKind::Other))
    );
    assert_eq!(
        start(r#"{"id":"1","type":"collabAgentToolCall"}"#),
        Some(("Collaboration agent".to_owned(), ToolKind::Other))
    );
    assert_eq!(start(r#"{"id":"1","type":"agentMessage"}"#), None);
    assert_eq!(start(r#"{"type":"webSearch"}"#), None);
    assert_eq!(tools::codex_tool_kind("reasoning"), None);
}

#[test]
fn tool_calls_end_as_their_status_says() {
    let end = |status: &str| {
        let line = format!(
            "{{\"params\":{{\"item\":{{\"id\":\"i\",\"type\":\"fileChange\",\"status\":\"{status}\"}}}}}}"
        );
        let update = tools::codex_tool_complete(&json(&line)).unwrap();
        assert_eq!(update.id, "i");
        assert_eq!(update.raw_output.get("status").unwrap().as_str(), Some(status));
        update.status
    };
    assert_eq!(end("failed"), ToolStatus::Failed);
    assert_eq!(end("declined"), ToolStatus::Failed);
    assert_eq!(end("completed"), ToolStatus::Completed);
    assert!(tools::codex_tool_complete(&json(r#"{"params":{"item":{"id":"i","type":"x"}}}"#)).is_none());
}

#[test]
fn a_response_reaches_its_request() {
    let mut server: CodexAppServer<&str> = CodexAppServer::new();
    let (first, message) = server.request(Call::new("a", Json::object()), "first");
    let (second, _) = server.request(Call::new("b", Json::object()), "second");
    assert_eq!((first, second), (1, 2));
    assert_eq!(shown(&message), r#"{"id":1,"method":"a","params":{}}"#);
    match server.dispatch(json(r#"{"id":2,"result":"r"}"#)) {
        Dispatch::Resolve("second", Ok(result)) => assert_eq!(result.as_str(), Some("r")),
        _ => panic!("the second request is answered"),
    }
    assert!(matches!(
        server.dispatch(json(r#"{"id":2,"result":"again"}"#)),
        Dispatch::Ignore
    ));
    match server.dispatch(json(r#"{"id":1,"error":{"message":"no"}}"#)) {
        Dispatch::Resolve("first", Err(error)) => assert_eq!(error, "no"),
        _ => panic!("the first request is answered"),
    }
}

#[test]
fn a_reader_answers_and_hands_on() {
    let mut server: CodexAppServer<u8> = CodexAppServer::new();
    match server.dispatch(json(r#"{"id":"x","method":"item/commandExecution/requestApproval"}"#)) {
        Dispatch::Answer(answer) => {
            assert_eq!(shown(&answer), r#"{"id":"x","result":{"decision":"decline"}}"#)
        }
        _ => panic!("the server is to be answered"),
    }
    match server.dispatch(json(r#"{"id":1,"method":"item/tool/requestUserInput"}"#)) {
        Dispatch::Answer(answer) => assert_eq!(
            shown(&answer),
            r#"{"error":{"code":-32601,"message":"Grox does not yet support Codex server request: item/tool/requestUserInput"},"id":1}"#
        ),
        _ => panic!("the server is to be answered"),
    }
    assert!(server::answer_server_request(&json(r#"{"method":"x"}"#)).is_none());
    match server.dispatch(json(r#"{"method":"turn/started"}"#)) {
        Dispatch::Notify(message) => assert_eq!(shown(&message), r#"{"method":"turn/started"}"#),
        _ => panic!("a notification is handed on"),
    }
    assert!(matches!(server.dispatch(json("[]")), Dispatch::Ignore));
}

#[test]
fn requests_that_nobody_answers_are_given_up() {
    let mut server: CodexAppServer<&str> = CodexAppServer::new();
    let (lost, _) = server.request(Call::new("a", Json::object()), "lost");
    server.request(Call::new("b", Json::object()), "left");
    server.request(Call::new("c", Json::object()), "behind");
    server.abandon(lost);
    let mut rest = server.close();
    rest.sort();
    assert_eq!(rest, vec![(2, "left"), (3, "behind")]);
    assert!(server.close().is_empty());
    assert_eq!(server::exited_error(), "Codex app-server exited unexpectedly");
}

#[test]
fn requests_end_with_a_result_or_an_error() {
    let result = server::end_request("m", RequestEnd::Response(Ok(Json::Bool(true))));
    assert_eq!(result.ok().unwrap().as_bool(), Some(true));
    let error = |end| server::end_request("m", end).err().unwrap();
    assert_eq!(error(RequestEnd::Response(Err("e".to_owned()))), "e");
    assert_eq!(error(RequestEnd::NotSent), "Codex app-server is not running");
    assert_eq!(
        error(RequestEnd::TimedOut),
        "Codex app-server request timed out: m"
    );
    assert_eq!(
        error(RequestEnd::Dropped),
        "Codex app-server dropped response: m"
    );
}

#[test]
fn calls_for_threads_and_turns_are_worded() {
    let call = server::start_thread("/w", "m");
    assert_eq!(call.method, "thread/start");
    assert_eq!(
        shown(&call.params),
        r#"{"approvalPolicy":"never","cwd":"/w","model":"m","sandbox":"workspace-write"}"#
    );
    let call = server::start_turn("t", vec![Json::text("i")], "m", "/w");
    assert_eq!(call.method, "turn/start");
    assert_eq!(
        shown(&call.params),
        r#"{"approvalPolicy":"never","input":["i"],"model":"m","sandboxPolicy":{"excludeSlashTmp":false,"excludeTmpdirEnvVar":false,"networkAccess":false,"type":"workspaceWrite","writableRoots":["/w"]},"threadId":"t"}"#
    );
    let call = server::interrupt("t", "u");
    assert_eq!(call.method, "turn/interrupt");
    assert_eq!(shown(&call.params), r#"{"threadId":"t","turnId":"u"}"#);
    assert_eq!(server::turn_id(&json(r#"{"turn":{"id":"u"}}"#)).unwrap(), "u");
    assert_eq!(
        server::turn_id(&json("{}")).err().unwrap(),
        "Codex app-server did not return a turn id"
    );
}

#[test]
fn models_are_read_from_every_page() {
    let reading = match models::status() {
        StatusStep::Ask(reading, call) => {
            assert_eq!(call.method, "account/read");
            reading
        }
        _ => panic!("the account is to be asked for"),
    };
    let reading = match reading.next(&json(r#"{"account":{"type":"amazonBedrock"}}"#)) {
        StatusStep::Ask(reading, call) => {
            assert_eq!(call.method, "model/list");
            assert_eq!(shown(&call.params), "{}");
            reading
        }
        _ => panic!("the models are to be asked for"),
    };
    let page = json(
        r#"{"data":[{"model":"a","displayName":"A","description":"first","isDefault":true,
            "supportedReasoningEfforts":["low",{"reasoningEffort":"high"},{"x":1},3],
            "defaultReasoningEffort":"low"},{"displayName":"no id"}],"nextCursor":"c"}"#,
    );
    let reading = match reading.next(&page) {
        StatusStep::Ask(reading, call) => {
            assert_eq!(shown(&call.params), r#"{"cursor":"c"}"#);
            reading
        }
        _ => panic!("there is another page"),
    };
    match reading.next(&json(r#"{"data":[{"model":"b"}],"nextCursor":null}"#)) {
        StatusStep::Ready(found) => {
            assert_eq!(found.account_label, "amazonBedrock");
            assert_eq!(found.models.len(), 2);
            let first = &found.models[0];
            assert_eq!(first.id, "a");
            assert_eq!(first.name, "A");
            assert_eq!(first.description.as_deref(), Some("first"));
            assert!(first.is_default);
            assert_eq!(first.supported_reasoning_efforts, vec!["low", "high"]);
            assert_eq!(first.default_reasoning_effort.as_deref(), Some("low"));
            let second = &found.models[1];
            assert_eq!(second.name, "b");
            assert_eq!(second.description, None);
            assert!(!second.is_default);
            assert!(second.supported_reasoning_efforts.is_empty());
            assert_eq!(second.default_reasoning_effort, None);
        }
        _ => panic!("the last page ends the reading"),
    }
}

#[test]
fn models_need_an_account() {
    match models::status() {
        StatusStep::Ask(reading, _) => match reading.next(&json(r#"{"account":null}"#)) {
            StatusStep::Failed(error) => {
                assert_eq!(error, "Codex CLI is not authenticated; run `codex login`")
            }
            _ => panic!("there is no account"),
        },
        _ => panic!("the account is to be asked for"),
    }
    assert_eq!(
        models::label_account(&json(r#"{"type":"chatgpt","planType":"pro"}"#)),
        "ChatGPT pro subscription"
    );
    assert_eq!(models::label_account(&json(r#"{"type":"apiKey"}"#)), "OpenAI API key");
    assert_eq!(models::label_account(&json("{}")), "authenticated Codex account");
}

fn model(id: &str) -> CodexModel {
    CodexModel {
        id: id.to_owned(),
        name: id.to_uppercase(),
        description: Some("fast".to_owned()),
        is_default: false,
        supported_reasoning_efforts: Vec::new(),
        default_reasoning_effort: None,
    }
}

fn account() -> CodexStatus {
    CodexStatus {
        account_label: "ChatGPT plus subscription".to_owned(),
        models: vec![model("gpt"), model("mini"), model("gpt")],
    }
}

fn connected() -> GroxAgent {
    let mut agent = GroxAgent::new();
    agent.discovered(Ok(account()));
    agent
}

fn grok_state() -> ModelState {
    ModelState {
        current_model_id: "grok-4".to_owned(),
        available_models: vec![ModelInfo {
            model_id: "grok-4".to_owned(),
            name: "Grok 4".to_owned(),
            description: None,
            meta: None,
        }],
        meta: None,
    }
}

fn ids(state: &ModelState) -> Vec<String> {
    state.available_models.iter().map(|info| info.model_id.clone()).collect()
}

#[test]
fn offered_models_tell_where_they_come_from() {
    let info = codex_model_info(&model("gpt"), "label");
    assert_eq!(
        info.description.as_deref(),
        Some("fast - OpenAI Codex via label")
    );
    assert_eq!(
        shown(&info.meta.unwrap()),
        r#"{"acceptsImages":false,"isProviderDefault":false,"provider":"codex","providerModelId":"gpt","supportedReasoningEfforts":[]}"#
    );
    let info = codex_model_info(
        &CodexModel {
            description: None,
            is_default: true,
            supported_reasoning_efforts: vec!["low".to_owned()],
            default_reasoning_effort: Some("low".to_owned()),
            ..model("x")
        },
        "label",
    );
    assert_eq!(info.description.as_deref(), Some("OpenAI Codex via label"));
    assert_eq!(
        shown(&info.meta.unwrap()),
        r#"{"acceptsImages":false,"defaultReasoningEffort":"low","isProviderDefault":true,"provider":"codex","providerModelId":"x","supportedReasoningEfforts":["low"]}"#
    );
    assert!(!is_codex_model("grok-4"));
    assert!(!is_codex_model("codex"));
    assert_eq!(CODEX_MODEL_PREFIX, "codex:");
}

#[test]
fn models_are_offered_beside_those_of_grok_and_only_once() {
    let mut state = grok_state();
    offer_models(&mut state, &account());
    assert_eq!(ids(&state), vec!["grok-4", "codex:gpt", "codex:mini"]);
    offer_models(&mut state, &account());
    assert_eq!(ids(&state), vec!["grok-4", "codex:gpt", "codex:mini"]);
    assert_eq!(state.current_model_id, "grok-4");
    let mut state = grok_state();
    GroxAgent::new().merge_model_state(&mut state);
    assert_eq!(ids(&state), vec!["grok-4"]);
    let merged = connected().merge_response_models(Some(grok_state())).unwrap();
    assert_eq!(ids(&merged).len(), 3);
    assert!(connected().merge_response_models(None).is_none());
}

#[test]
fn the_models_of_a_session_are_read_and_written_as_the_protocol_has_them() {
    let line = r#"{"_meta":{"a":[1.5]},"availableModels":[{"_meta":{"b":null},"description":"d","modelId":"m","name":"M"},{"modelId":"n","name":"N"}],"currentModelId":"m"}"#;
    let state = protocol::parse_state(&json(line)).unwrap();
    assert_eq!(state.current_model_id, "m");
    assert_eq!(ids(&state), vec!["m", "n"]);
    assert_eq!(state.available_models[0].description.as_deref(), Some("d"));
    assert_eq!(shown(state.meta.as_ref().unwrap()), r#"{"a":[1.5]}"#);
    assert_eq!(shown(&protocol::format_state(&state)), line);
    assert!(protocol::parse_state(&json(r#"{"currentModelId":1}"#)).is_none());
    assert!(protocol::parse_state(&json("null")).is_none());
}

#[test]
fn an_introduction_is_told_of_both_providers() {
    let meta = || {
        Some(json(
            r#"{"kept":1,"modelState":{"currentModelId":"g","availableModels":[]}}"#,
        ))
    };
    let merged = connected().merge_initialize_models(meta()).unwrap();
    assert_eq!(merged.get("kept").unwrap().as_u64(), Some(1));
    assert_eq!(
        shown(merged.get("groxProviders").unwrap()),
        r#"{"codex":{"account":"ChatGPT plus subscription","connected":true},"grok":{"connected":true}}"#
    );
    let state = protocol::parse_state(merged.get("modelState").unwrap()).unwrap();
    assert_eq!(ids(&state), vec!["codex:gpt", "codex:mini"]);

    let mut agent = GroxAgent::new();
    let merged = agent.merge_initialize_models(meta()).unwrap();
    assert_eq!(
        shown(&merged),
        r#"{"groxProviders":{"codex":{"connected":false,"error":null},"grok":{"connected":true}},"kept":1,"modelState":{"availableModels":[],"currentModelId":"g"}}"#
    );
    agent.discovered(Err("no CLI".to_owned()));
    let merged = agent.merge_initialize_models(meta()).unwrap();
    assert_eq!(
        shown(merged.get("groxProviders").unwrap()),
        r#"{"codex":{"connected":false,"error":"no CLI"},"grok":{"connected":true}}"#
    );
}

#[test]
fn an_introduction_without_models_is_left_as_it_is() {
    let agent = connected();
    assert!(agent.merge_initialize_models(None).is_none());
    for line in [r#"{"kept":1}"#, r#"{"modelState":{"currentModelId":"g"}}"#] {
        assert_eq!(shown(&agent.merge_initialize_models(Some(json(line))).unwrap()), line);
    }
    let meta = agent.merge_meta(json("{}"), grok_state());
    assert_eq!(
        meta.get("modelState").unwrap().get("availableModels").unwrap().as_array().unwrap().len(),
        3
    );
}

fn backend_error(agent: &GroxAgent) -> AgentError {
    agent.codex_backend().err().unwrap()
}

#[test]
fn codex_is_looked_for_once() {
    let mut agent = GroxAgent::new();
    assert!(agent.needs_discovery());
    assert_eq!(
        backend_error(&agent).data,
        "Codex subscription is unavailable: Codex was not discovered. Run `codex login`, then restart Grox."
    );
    agent.discovered(Err("no CLI".to_owned()));
    assert!(!agent.needs_discovery());
    let error = backend_error(&agent);
    assert_eq!(error.kind, ErrorKind::Internal);
    assert_eq!(
        error.data,
        "Codex subscription is unavailable: no CLI. Run `codex login`, then restart Grox."
    );
    let agent = connected();
    assert!(!agent.needs_discovery());
    assert_eq!(agent.codex_backend().ok().unwrap().models.len(), 3);
}

fn refusal(switch: ModelSwitch) -> (ErrorKind, String) {
    match switch {
        ModelSwitch::Refused(error) => (error.kind, error.data),
        _ => panic!("the switch is refused"),
    }
}

#[test]
fn a_session_goes_over_to_codex_and_back() {
    let mut agent = connected();
    agent.open_session("s", "/w");
    agent.open_session("other", "/o");
    assert!(matches!(agent.provider("s"), ActiveProvider::Grok));
    match agent.set_session_model("s", "codex:mini") {
        ModelSwitch::Switched(meta) => assert_eq!(
            shown(&meta),
            r#"{"context":"Codex and Grok keep separate conversation branches in this session","modelId":"codex:mini","provider":"codex"}"#
        ),
        _ => panic!("the model can be set"),
    }
    assert!(matches!(agent.provider("s"), ActiveProvider::Codex { model } if model == "mini"));
    assert!(matches!(agent.provider("other"), ActiveProvider::Grok));
    assert!(matches!(agent.set_session_model("s", "grok-4"), ModelSwitch::Grok));
    assert_eq!(agent.grok_model_set("s", Err::<(), u8>(7)), Err(7));
    assert!(matches!(agent.provider("s"), ActiveProvider::Codex { .. }));
    agent.grok_model_set("s", Ok::<(), ()>(())).unwrap();
    assert!(matches!(agent.provider("s"), ActiveProvider::Grok));
    agent.grok_model_set("unknown", Ok::<(), ()>(())).unwrap();
    assert!(matches!(agent.provider("unknown"), ActiveProvider::Grok));
}

#[test]
fn a_switch_is_refused_for_a_reason() {
    let mut agent = GroxAgent::new();
    agent.open_session("s", "/w");
    assert_eq!(
        refusal(agent.set_session_model("s", "codex:gpt")),
        (
            ErrorKind::Internal,
            "Codex subscription is unavailable: Codex was not discovered. Run `codex login`, then restart Grox.".to_owned()
        )
    );
    agent.discovered(Ok(account()));
    assert_eq!(
        refusal(agent.set_session_model("unknown", "codex:nope")),
        (
            ErrorKind::InvalidParams,
            "unknown Codex subscription model: nope".to_owned()
        )
    );
    assert_eq!(
        refusal(agent.set_session_model("unknown", "codex:gpt")),
        (ErrorKind::InvalidParams, "unknown Grox session".to_owned())
    );
}

fn text_blocks(text: &str) -> Vec<PromptBlock> {
    vec![PromptBlock::Text(text.to_owned())]
}

fn request_meta() -> Json {
    json(r#"{"request":7}"#)
}

/// The update in an action that tells the client of one, which bears the request.
fn update(action: TurnAction) -> Update {
    match action {
        TurnAction::Tell(notice) => {
            assert_eq!(notice.session_id, "s");
            assert_eq!(shown(&notice.meta.unwrap()), shown(&request_meta()));
            notice.update
        }
        _ => panic!("the client is told of it"),
    }
}

fn run_to_turn(agent: &mut GroxAgent) -> CodexTurn {
    let (prompt, call) = match agent.prompt_codex("s", "gpt", text_blocks("hello"), Some(request_meta())) {
        PromptStep::StartThread(prompt, call) => (prompt, call),
        _ => panic!("a thread is to be started"),
    };
    assert_eq!(call.method, "thread/start");
    let (pending, call) = match agent.thread_started(prompt, Ok(json(r#"{"thread":{"id":"t"}}"#))) {
        PromptStep::StartTurn(pending, call) => (pending, call),
        _ => panic!("a turn is to be started"),
    };
    assert_eq!(call.method, "turn/start");
    assert_eq!(
        shown(call.params.get("input").unwrap()),
        r#"[{"text":"hello","type":"text"}]"#
    );
    assert_eq!(call.params.get("threadId").unwrap().as_str(), Some("t"));
    assert_eq!(call.params.get("model").unwrap().as_str(), Some("gpt"));
    match agent.turn_started(pending, Ok(json(r#"{"turn":{"id":"u"}}"#))) {
        Ok(turn) => turn,
        Err(_) => panic!("the turn runs"),
    }
}

fn notified(agent: &mut GroxAgent, turn: &CodexTurn, line: &str) -> TurnAction {
    agent.turn_event(turn, TurnEvent::Notification(json(line)))
}

fn opened() -> GroxAgent {
    let mut agent = connected();
    agent.open_session("s", "/w");
    agent.set_session_model("s", "codex:gpt");
    agent
}

#[test]
fn a_prompt_is_run_on_a_turn_of_its_own() {
    let mut agent = opened();
    let turn = run_to_turn(&mut agent);
    assert_eq!((turn.thread_id.as_str(), turn.turn_id.as_str()), ("t", "u"));
    let action = notified(
        &mut agent,
        &turn,
        r#"{"method":"item/agentMessage/delta","params":{"threadId":"t","delta":"hi"}}"#,
    );
    assert!(matches!(update(action), Update::Message(text) if text == "hi"));
    for method in [
        "item/reasoning/summaryTextDelta",
        "item/reasoning/textDelta",
        "item/plan/delta",
    ] {
        let line = format!("{{\"method\":\"{method}\",\"params\":{{\"delta\":\"hm\"}}}}");
        let action = notified(&mut agent, &turn, &line);
        assert!(matches!(update(action), Update::Thought(text) if text == "hm"));
    }
    let action = notified(
        &mut agent,
        &turn,
        r#"{"method":"item/started","params":{"item":{"id":"i","type":"webSearch"}}}"#,
    );
    assert!(matches!(update(action), Update::ToolCall(call) if call.id == "i"));
    let action = notified(
        &mut agent,
        &turn,
        r#"{"method":"item/completed","params":{"item":{"id":"i","type":"webSearch"}}}"#,
    );
    assert!(matches!(update(action), Update::ToolUpdate(update) if update.id == "i"));
    for line in [
        r#"{"method":"item/agentMessage/delta","params":{"threadId":"x","delta":"no"}}"#,
        r#"{"method":"item/agentMessage/delta","params":{"delta":1}}"#,
        r#"{"method":"item/started","params":{"item":{"id":"i","type":"agentMessage"}}}"#,
        r#"{"method":"turn/completed","params":{"turn":{"id":"v"}}}"#,
        r#"{"method":"turn/completed"}"#,
        r#"{"method":"error","params":{"willRetry":true}}"#,
        r#"{"method":"turn/started"}"#,
        r#"{}"#,
    ] {
        assert!(matches!(notified(&mut agent, &turn, line), TurnAction::Continue));
    }
    assert!(matches!(agent.turn_event(&turn, TurnEvent::Lagged), TurnAction::Continue));
    let action = notified(
        &mut agent,
        &turn,
        r#"{"method":"turn/completed","params":{"threadId":"t","turn":{"id":"u","status":"completed"}}}"#,
    );
    assert!(matches!(action, TurnAction::Stopped(StopReason::EndTurn)));
}

#[test]
fn a_running_turn_can_be_cancelled_and_blocks_a_switch() {
    let mut agent = opened();
    assert!(matches!(agent.cancel("s"), Cancellation::Grok));
    assert!(matches!(agent.cancel("unknown"), Cancellation::Grok));
    let turn = run_to_turn(&mut agent);
    match agent.cancel("s") {
        Cancellation::Interrupt(call) => {
            assert_eq!(call.method, "turn/interrupt");
            assert_eq!(shown(&call.params), r#"{"threadId":"t","turnId":"u"}"#);
        }
        _ => panic!("the turn is to be interrupted"),
    }
    assert_eq!(
        refusal(agent.set_session_model("s", "codex:mini")),
        (
            ErrorKind::InvalidParams,
            "cancel or finish the active Codex turn before switching models".to_owned()
        )
    );
    let action = notified(
        &mut agent,
        &turn,
        r#"{"method":"turn/completed","params":{"turn":{"id":"u","status":"interrupted"}}}"#,
    );
    assert!(matches!(action, TurnAction::Stopped(StopReason::Cancelled)));
    assert!(matches!(agent.cancel("s"), Cancellation::Grok));
    assert!(matches!(
        agent.set_session_model("s", "codex:mini"),
        ModelSwitch::Switched(_)
    ));
    assert!(interrupted(Ok(Json::Null)).is_ok());
    assert_eq!(
        interrupted(Err("gone".to_owned())).err().unwrap().data,
        "Codex: gone"
    );
}

#[test]
fn the_thread_of_a_session_is_used_again() {
    let mut agent = opened();
    let turn = run_to_turn(&mut agent);
    agent.clear_active_turn("s");
    agent.grok_model_set("s", Ok::<(), ()>(())).unwrap();
    agent.set_session_model("s", "codex:mini");
    match agent.prompt_codex("s", "mini", text_blocks("more"), None) {
        PromptStep::StartTurn(pending, call) => {
            assert_eq!(pending.thread_id, "t");
            assert_eq!(call.params.get("model").unwrap().as_str(), Some("mini"));
        }
        _ => panic!("the thread is there"),
    }
    agent.open_session("s", "/w");
    assert!(matches!(
        agent.prompt_codex("s", "mini", text_blocks("anew"), None),
        PromptStep::StartThread(_, _)
    ));
    assert_eq!(turn.session_id, "s");
}

fn failed(step: PromptStep) -> (ErrorKind, String) {
    match step {
        PromptStep::Failed(error) => (error.kind, error.data),
        _ => panic!("the prompt fails"),
    }
}

#[test]
fn a_prompt_fails_for_a_reason() {
    let agent = GroxAgent::new();
    assert_eq!(
        failed(agent.prompt_codex("s", "gpt", text_blocks("x"), None)).0,
        ErrorKind::Internal
    );
    let mut agent = opened();
    assert_eq!(
        failed(agent.prompt_codex("unknown", "gpt", text_blocks("x"), None)),
        (ErrorKind::InvalidParams, "unknown Grox session".to_owned())
    );
    let waiting = |agent: &GroxAgent| match agent.prompt_codex("s", "gpt", Vec::new(), None) {
        PromptStep::StartThread(prompt, _) => prompt,
        _ => panic!("a thread is to be started"),
    };
    let prompt = waiting(&agent);
    assert_eq!(
        failed(agent.thread_started(prompt, Err("gone".to_owned()))),
        (ErrorKind::Internal, "Codex: gone".to_owned())
    );
    let prompt = waiting(&agent);
    assert_eq!(
        failed(agent.thread_started(prompt, Ok(json("{}")))),
        (
            ErrorKind::Internal,
            "Codex: Codex app-server did not return a thread id".to_owned()
        )
    );
    let prompt = waiting(&agent);
    assert_eq!(
        failed(agent.thread_started(prompt, Ok(json(r#"{"thread":{"id":"t"}}"#)))),
        (ErrorKind::InvalidParams, "Codex prompt is empty".to_owned())
    );
    let pending = |agent: &GroxAgent| match agent.prompt_codex("s", "gpt", text_blocks("x"), None) {
        PromptStep::StartTurn(pending, _) => pending,
        _ => panic!("the thread is there"),
    };
    let turn = pending(&agent);
    assert_eq!(
        agent.turn_started(turn, Ok(json("{}"))).err().unwrap().data,
        "Codex: Codex app-server did not return a turn id"
    );
    let turn = pending(&agent);
    assert_eq!(
        agent.turn_started(turn, Err("late".to_owned())).err().unwrap().data,
        "Codex: late"
    );
    assert!(matches!(agent.cancel("s"), Cancellation::Grok));
    assert_eq!(codex_error("x").kind, ErrorKind::Internal);
}

#[test]
fn a_failing_turn_ends_its_prompt() {
    for (line, expected) in [
        (
            r#"{"method":"error","params":{"error":{"message":"broken"}}}"#,
            "broken",
        ),
        (r#"{"method":"error"}"#, "Codex app-server reported an error"),
        (
            r#"{"method":"turn/completed","params":{"turn":{"id":"u","status":"failed","error":{"message":"out"}}}}"#,
            "out",
        ),
        (
            r#"{"method":"turn/completed","params":{"turn":{"id":"u","status":"failed"}}}"#,
            "Codex turn failed",
        ),
    ] {
        let mut agent = opened();
        let turn = run_to_turn(&mut agent);
        match notified(&mut agent, &turn, line) {
            TurnAction::Failed(error) => {
                assert_eq!(error.kind, ErrorKind::Internal);
                assert_eq!(error.data, expected);
            }
            _ => panic!("the turn fails"),
        }
        assert!(matches!(agent.cancel("s"), Cancellation::Grok));
    }
    let mut agent = opened();
    let turn = run_to_turn(&mut agent);
    match agent.turn_event(&turn, TurnEvent::Closed) {
        TurnAction::Failed(error) => {
            assert_eq!(error.data, "Codex: Codex app-server notification stream closed")
        }
        _ => panic!("nothing more will come"),
    }
    assert!(matches!(agent.cancel("s"), Cancellation::Grok));
}

#[test]
fn a_cancelled_turn_stops_its_prompt() {
    let mut agent = opened();
    let turn = run_to_turn(&mut agent);
    let line = r#"{"method":"turn/completed","params":{"turn":{"id":"u","status":"cancelled"}}}"#;
    assert!(matches!(
        turn.notify(&json(line)),
        TurnAction::Stopped(StopReason::Cancelled)
    ));
    assert!(matches!(agent.cancel("s"), Cancellation::Interrupt(_)));
    assert!(matches!(
        notified(&mut agent, &turn, line),
        TurnAction::Stopped(StopReason::Cancelled)
    ));
}

fn resource() -> agent_client_protocol::EmbeddedResource {
    agent_client_protocol::EmbeddedResource::new(
        agent_client_protocol::EmbeddedResourceResource::TextResourceContents(
            agent_client_protocol::TextResourceContents::new("body", "file:///a"),
        ),
    )
}

#[test]
fn prompts_are_handed_on_as_text() {
    let blocks = vec![
        PromptBlock::Text("one".to_owned()),
        PromptBlock::ResourceLink("file:///b".to_owned()),
        PromptBlock::Resource(resource()),
    ];
    let input = codex_input(&blocks).ok().unwrap();
    let text: Vec<&str> =
        input.iter().map(|piece| piece.get("text").unwrap().as_str().unwrap()).collect();
    assert_eq!(
        text,
        vec![
            "one",
            "Referenced resource: file:///b",
            r#"{"resource":{"text":"body","uri":"file:///a"}}"#,
        ]
    );
    assert!(input.iter().all(|piece| piece.get("type").unwrap().as_str() == Some("text")));
    assert_eq!(shown(&input_resource(None)), r#"{"text":"","type":"text"}"#);
    assert_eq!(shown(&input_resource(Some("r"))), r#"{"text":"r","type":"text"}"#);
}

#[test]
fn prompts_are_refused_for_a_reason() {
    let error = |blocks: Vec<PromptBlock>| {
        let error = codex_input(&blocks).err().unwrap();
        assert_eq!(error.kind, ErrorKind::InvalidParams);
        error.data
    };
    assert_eq!(error(Vec::new()), "Codex prompt is empty");
    let text_only = "this Grox Codex connector currently supports text prompts only";
    assert_eq!(error(vec![PromptBlock::Image, PromptBlock::Other]), text_only);
    assert_eq!(
        error(vec![PromptBlock::Text("x".to_owned()), PromptBlock::Audio]),
        text_only
    );
    assert_eq!(
        error(vec![PromptBlock::Other, PromptBlock::Image]),
        "unsupported prompt block for Codex"
    );
}

#[test]
fn the_command_and_the_agent_see_the_same_models() {
    let account = json(r#"{"account":{"type":"apiKey"}}"#);
    let page = json(r#"{"data":[{"model":"a"},{"displayName":"x"},{"model":"b"},{"model":"a"}]}"#);
    let listed = match status::status() {
        status::StatusStep::Ask(reading, _) => match reading.next(&account) {
            status::StatusStep::Ask(reading, _) => match reading.next(&page) {
                status::StatusStep::Ready(found) => found.models,
                _ => panic!("the last page ends the reading"),
            },
            _ => panic!("the models are to be asked for"),
        },
        _ => panic!("the account is to be asked for"),
    };
    let offered: Vec<String> = match models::status() {
        StatusStep::Ask(reading, _) => match reading.next(&account) {
            StatusStep::Ask(reading, _) => match reading.next(&page) {
                StatusStep::Ready(found) => found.models.into_iter().map(|m| m.id).collect(),
                _ => panic!("the last page ends the reading"),
            },
            _ => panic!("the models are to be asked for"),
        },
        _ => panic!("the account is to be asked for"),
    };
    assert_eq!(listed, vec!["a", "b", "a"]);
    assert_eq!(listed, offered);
}

#[test]
fn every_offered_model_can_be_selected() {
    let mut agent = connected();
    agent.open_session("s", "/w");
    let offer = agent.merge_response_models(Some(grok_state())).unwrap();
    for id in ids(&offer) {
        let switch = agent.set_session_model("s", &id);
        if is_codex_model(&id) {
            assert!(matches!(switch, ModelSwitch::Switched(_)));
        } else {
            assert!(matches!(switch, ModelSwitch::Grok));
        }
    }
}

#[test]
fn turns_do_not_mix() {
    let mut agent = opened();
    let first = run_to_turn(&mut agent);
    let second = CodexTurn {
        session_id: "other".to_owned(),
        thread_id: "t2".to_owned(),
        turn_id: "u2".to_owned(),
        meta: None,
    };
    let delta = r#"{"method":"item/agentMessage/delta","params":{"threadId":"t2","delta":"x"}}"#;
    assert!(matches!(notified(&mut agent, &first, delta), TurnAction::Continue));
    match notified(&mut agent, &second, delta) {
        TurnAction::Tell(notice) => {
            assert_eq!(notice.session_id, "other");
            assert!(notice.meta.is_none());
            assert!(matches!(notice.update, Update::Message(text) if text == "x"));
        }
        _ => panic!("the client is told of it"),
    }
    let end = r#"{"method":"turn/completed","params":{"threadId":"t2","turn":{"id":"u2"}}}"#;
    assert!(matches!(notified(&mut agent, &first, end), TurnAction::Continue));
    assert!(matches!(notified(&mut agent, &second, end), TurnAction::Stopped(_)));
    assert!(matches!(agent.cancel("s"), Cancellation::Interrupt(_)));
}

#[test]
fn a_turn_is_interrupted_while_a_prompt_listens() {
    let mut server: CodexAppServer<&str> = CodexAppServer::new();
    let (_, message) = server.request(server::interrupt("t", "u"), "interrupt");
    assert_eq!(
        shown(&message),
        r#"{"id":1,"method":"turn/interrupt","params":{"threadId":"t","turnId":"u"}}"#
    );
    let delta = r#"{"method":"item/agentMessage/delta","params":{"delta":"x","threadId":"t"}}"#;
    match server.dispatch(json(delta)) {
        Dispatch::Notify(handed) => assert_eq!(shown(&handed), delta),
        _ => panic!("the prompt still listens"),
    }
    match server.dispatch(json(r#"{"id":1,"result":{}}"#)) {
        Dispatch::Resolve("interrupt", outcome) => {
            assert!(server::end_interrupt(outcome).is_ok())
        }
        _ => panic!("the interruption is answered"),
    }
    assert_eq!(
        server::end_interrupt(Err("no turn (3)".to_owned())),
        Err("no turn (3)".to_owned())
    );
    assert_eq!(server::end_notification(true), Ok(()));
    assert_eq!(
        server::end_notification(false),
        Err("Codex app-server is not running".to_owned())
    );
}
