//! JSON values, lines, and the messages of the app-server protocol.

use grox_codex::codec::{decode_line, encode_line, end_line, is_blank, json_of, value_of};
use grox_codex::handshake::{introduced, Handshake};
use grox_codex::json::{get_in, str_in, str_in_or, true_in, Json, Member};
use grox_codex::rpc;
use grox_codex::text;

fn json(line: &str) -> Json {
    decode_line(line).unwrap()
}

fn shown(json: &Json) -> String {
    String::from_utf8(encode_line(json)).unwrap()
}

#[test]
fn codex_formats_rpc_errors_with_codes() {
    let error = Json::object()
        .with("code", Json::Signed(-32000))
        .with("message", Json::text("no thread"));
    assert_eq!(rpc::format_rpc_error(&error), "no thread (-32000)");
}

#[test]
fn codex_app_server_formats_rpc_errors_with_codes() {
    let error = json(r#"{"code": -32000, "message": "no thread"}"#);
    assert_eq!(rpc::format_rpc_error(&error), "no thread (-32000)");
}

#[test]
fn distinguishes_server_requests_from_notifications() {
    assert!(rpc::is_server_request(
        &Json::object()
            .with("id", Json::Unsigned(4))
            .with("method", Json::text("request"))
    ));
    assert!(!rpc::is_server_request(
        &Json::object().with("method", Json::text("turn/completed"))
    ));
}

#[test]
fn errors_without_message_or_code_still_read() {
    assert_eq!(
        rpc::format_rpc_error(&json("{}")),
        "Codex app-server request failed"
    );
    assert_eq!(
        rpc::format_rpc_error(&json(r#"{"message":"busy"}"#)),
        "busy"
    );
    assert_eq!(
        rpc::format_rpc_error(&json(r#"{"message":"busy","code":1.5}"#)),
        "busy"
    );
    assert_eq!(
        rpc::format_rpc_error(&json(r#"{"message":"busy","code":9223372036854775808}"#)),
        "busy"
    );
    assert_eq!(
        rpc::format_rpc_error(&json(r#"{"message":"busy","code":0}"#)),
        "busy (0)"
    );
}

#[test]
fn lines_hold_one_message_each() {
    let message = Json::object()
        .with("text", Json::text("two\nlines"))
        .with("n", Json::Signed(-7));
    assert_eq!(shown(&message), "{\"n\":-7,\"text\":\"two\\nlines\"}\n");
    assert_eq!(end_line(vec![123, 125]), vec![123, 125, 10]);
}

#[test]
fn blank_and_broken_lines_are_passed_over() {
    assert!(decode_line("").is_none());
    assert!(decode_line(" \t\u{3000}").is_none());
    assert!(is_blank("\u{2003}\r\n") && !is_blank(" x "));
    assert!(decode_line("not json").is_none());
    assert!(decode_line("{\"a\":").is_none());
    assert!(decode_line("null").unwrap().is_null());
}

#[test]
fn values_survive_the_way_to_the_json_crate_and_back() {
    let text = r#"{"a":[1,-2,3.25,true,null,"x"],"b":{"c":18446744073709551615}}"#;
    let value = json(text);
    assert_eq!(shown(&value).trim_end(), text);
    assert_eq!(shown(&json_of(&value_of(&value))).trim_end(), text);
    assert_eq!(shown(&value.copy()).trim_end(), text);
}

#[test]
fn numbers_are_read_within_their_ranges() {
    assert_eq!(json("7").as_u64(), Some(7));
    assert_eq!(json("7").as_i64(), Some(7));
    assert_eq!(json("-7").as_u64(), None);
    assert_eq!(json("-7").as_i64(), Some(-7));
    assert_eq!(json("18446744073709551615").as_u64(), Some(u64::MAX));
    assert_eq!(json("18446744073709551615").as_i64(), None);
    assert_eq!(json("1.0").as_u64(), None);
    assert_eq!(json("1.0").as_i64(), None);
    assert_eq!(Json::Signed(5).as_u64(), Some(5));
    assert_eq!(Json::Signed(-5).as_u64(), None);
    assert_eq!(Json::Unsigned(u64::MAX).as_i64(), None);
    assert_eq!(
        Json::Number(serde_json::Number::from(9u64)).as_u64(),
        Some(9)
    );
    assert_eq!(
        Json::Number(serde_json::Number::from(-9i64)).as_i64(),
        Some(-9)
    );
    assert_eq!(json("\"7\"").as_u64(), None);
}

#[test]
fn members_are_found_by_name() {
    let value = json(r#"{"params":{"item":{"id":"i","done":true}}}"#);
    let item = get_in(value.get("params"), "item");
    assert_eq!(str_in(get_in(item, "id")), Some("i"));
    assert!(true_in(get_in(item, "done")));
    assert!(!true_in(get_in(item, "id")));
    assert_eq!(str_in_or(get_in(item, "name"), "none"), "none");
    assert!(json("[1]").get("0").is_none());
    assert!(json("[1]").as_array().unwrap().len() == 1);
    assert_eq!(json("true").as_bool(), Some(true));
}

#[test]
fn a_later_member_replaces_an_earlier_one() {
    let twice = Json::Object(vec![
        Member { name: "a".to_owned(), value: Json::Unsigned(1) },
        Member { name: "a".to_owned(), value: Json::Unsigned(2) },
    ]);
    assert_eq!(twice.get("a").unwrap().as_u64(), Some(2));
    assert_eq!(shown(&twice), "{\"a\":2}\n");
    assert_eq!(shown(&Json::text("x").with("a", Json::Null)), "\"x\"\n");
}

#[test]
fn requests_and_notifications_are_worded() {
    let call = rpc::Call::new("account/read", Json::object());
    assert_eq!(
        shown(&rpc::request_message(3, call)),
        "{\"id\":3,\"method\":\"account/read\",\"params\":{}}\n"
    );
    assert_eq!(
        shown(&rpc::notification_message(rpc::initialized_call())),
        "{\"method\":\"initialized\",\"params\":{}}\n"
    );
    let call = rpc::initialize_call("1.2.3");
    assert_eq!(call.method, "initialize");
    assert_eq!(
        shown(&call.params),
        "{\"capabilities\":{\"experimentalApi\":true},\"clientInfo\":{\"name\":\"grox_cli\",\"title\":\"Grox\",\"version\":\"1.2.3\"}}\n"
    );
    assert_eq!(rpc::account_call().method, "account/read");
    assert_eq!(shown(&rpc::model_list_call(None).params), "{}\n");
    assert_eq!(
        shown(&rpc::model_list_call(Some("c1")).params),
        "{\"cursor\":\"c1\"}\n"
    );
}

#[test]
fn responses_are_told_from_requests() {
    assert_eq!(rpc::responds_to(&json(r#"{"id":4,"result":1}"#)), Some(4));
    assert_eq!(rpc::responds_to(&json(r#"{"id":4,"method":"x"}"#)), None);
    assert_eq!(rpc::responds_to(&json(r#"{"id":"4"}"#)), None);
    assert_eq!(rpc::responds_to(&json(r#"{"result":1}"#)), None);
    let result = rpc::outcome(&json(r#"{"id":4,"result":[1]}"#)).unwrap();
    assert_eq!(shown(&result), "[1]\n");
    assert!(rpc::outcome(&json(r#"{"id":4}"#)).unwrap().is_null());
    let error = rpc::outcome(&json(r#"{"id":4,"error":{"message":"no"},"result":1}"#));
    assert_eq!(error.err().unwrap(), "no");
}

#[test]
fn answers_are_worded() {
    assert_eq!(
        shown(&rpc::result_message(Json::text("r1"), rpc::decline())),
        "{\"id\":\"r1\",\"result\":{\"decision\":\"decline\"}}\n"
    );
    assert_eq!(
        shown(&rpc::refusal_message(Json::Unsigned(2), "no")),
        "{\"error\":{\"code\":-32601,\"message\":\"no\"},\"id\":2}\n"
    );
    assert!(rpc::is_approval("item/commandExecution/requestApproval"));
    assert!(rpc::is_approval("item/fileChange/requestApproval"));
    assert!(!rpc::is_approval("item/tool/requestUserInput"));
}

#[test]
fn identifiers_of_threads_and_turns_are_read() {
    assert_eq!(
        rpc::thread_id(&json(r#"{"thread":{"id":"t1"}}"#)).unwrap(),
        "t1"
    );
    assert_eq!(
        rpc::thread_id(&json(r#"{"thread":{}}"#)).err().unwrap(),
        "Codex app-server did not return a thread id"
    );
    assert_eq!(
        rpc::turn_id(&json(r#"{"turn":{"id":"u1"}}"#)),
        Some("u1".to_owned())
    );
    assert_eq!(rpc::turn_id(&json("{}")), None);
    assert_eq!(
        rpc::start_error("/bin/codex"),
        "could not start Codex CLI at '/bin/codex'; install @openai/codex and run `codex login`"
    );
    assert_eq!(
        rpc::timeout_error("turn/start"),
        "Codex app-server request timed out: turn/start"
    );
}

#[test]
fn integers_are_written_in_decimal() {
    assert_eq!(text::format_integer(0), "0");
    assert_eq!(text::format_integer(1234567890), "1234567890");
    assert_eq!(text::format_integer(i64::MAX), "9223372036854775807");
    assert_eq!(text::format_integer(i64::MIN), "-9223372036854775808");
}

#[test]
fn prefixes_are_cut_off() {
    assert_eq!(text::strip_prefix("codex:gpt", "codex:"), Some("gpt"));
    assert_eq!(text::strip_prefix("codex", "codex:"), None);
    assert_eq!(text::strip_prefix("\u{e9}t\u{e9}", "\u{e9}"), Some("t\u{e9}"));
    assert_eq!(text::strip_prefix("abc", ""), Some("abc"));
    assert_eq!(text::strip_prefixes("aaab", "a"), "b");
    assert_eq!(text::strip_prefixes("b", "a"), "b");
}

#[test]
fn an_introduction_is_confirmed_only_after_a_good_reply() {
    match introduced(rpc::outcome(&json(r#"{"id":1,"result":{"userAgent":"x"}}"#))) {
        Handshake::Confirm(message) => {
            assert_eq!(shown(&message), "{\"method\":\"initialized\",\"params\":{}}\n")
        }
        Handshake::Failed(_) => panic!("the reply was good"),
    }
    match introduced(rpc::outcome(&json(r#"{"id":1,"error":{"message":"old","code":-5}}"#))) {
        Handshake::Failed(error) => assert_eq!(error, "old (-5)"),
        Handshake::Confirm(_) => panic!("the reply was an error"),
    }
}
