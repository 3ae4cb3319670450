//! Tool activity: how the items of a turn are labelled and reported.

use vstd::prelude::*;

use crate::json;
use crate::json::{get_in, str_in, str_in_or, Json, Tree};
use crate::text::same_text;

verus! {

/// What a tool does.
#[derive(Clone, Copy, Debug, PartialEq, Eq, Structural)]
pub enum ToolKind {
    Execute,
    Edit,
    Search,
    Other,
}

/// How far a tool call has come.
#[derive(Clone, Copy, Debug, PartialEq, Eq, Structural)]
pub enum ToolStatus {
    InProgress,
    Completed,
    Failed,
}

/// A tool call that has begun.
pub struct ToolCall {
    pub id: String,
    pub title: String,
    pub kind: ToolKind,
    pub status: ToolStatus,
    pub raw_input: Json,
}

/// What a tool call means.
pub struct ToolCallView {
    pub id: Seq<char>,
    pub title: Seq<char>,
    pub kind: ToolKind,
    pub status: ToolStatus,
    pub raw_input: Tree,
}

impl DeepView for ToolCall {
    type V = ToolCallView;

    open spec fn deep_view(&self) -> ToolCallView {
        ToolCallView {
            id: self.id@,
            title: self.title@,
            kind: self.kind,
            status: self.status,
            raw_input: self.raw_input@,
        }
    }
}

/// What has become of a tool call.
pub struct ToolCallUpdate {
    pub id: String,
    pub status: ToolStatus,
    pub raw_output: Json,
}

/// What an update of a tool call means.
pub struct ToolCallUpdateView {
    pub id: Seq<char>,
    pub status: ToolStatus,
    pub raw_output: Tree,
}

impl DeepView for ToolCallUpdate {
    type V = ToolCallUpdateView;

    open spec fn deep_view(&self) -> ToolCallUpdateView {
        ToolCallUpdateView { id: self.id@, status: self.status, raw_output: self.raw_output@ }
    }
}

/// The name of an MCP tool call: the server's name and the tool's.
pub open spec fn mcp_name(item: Tree) -> Seq<char> {
    json::text_or(item.get("server"@), "mcp"@) + "."@ + json::text_or(item.get("tool"@), "tool"@)
}

fn mcp_title(item: &Json) -> (r: String)
    ensures
        r@ == mcp_name(item@),
{
    let mut name: String = str_in_or(item.get("server"), "mcp").to_owned();
    name.append(".");
    name.append(str_in_or(item.get("tool"), "tool"));
    name
}

/// `prefix`, followed by the command of an item.
pub open spec fn command_name(prefix: Seq<char>, item: Tree) -> Seq<char> {
    prefix + json::text_or(item.get("command"@), "command"@)
}

fn command_title(prefix: &str, item: &Json) -> (r: String)
    ensures
        r@ == command_name(prefix@, item@),
{
    let mut name: String = prefix.to_owned();
    name.append(str_in_or(item.get("command"), "command"));
    name
}

/// The label of an item of a turn, where the item is tool activity.
pub open spec fn label(item: Option<Tree>) -> Option<Seq<char>> {
    match json::text_of(json::at(item, "type"@)) {
        Some(kind) => if kind == "commandExecution"@ {
            Some(command_name("shell: "@, item->0))
        } else if kind == "fileChange"@ {
            Some("apply patch"@)
        } else if kind == "mcpToolCall"@ {
            Some(mcp_name(item->0))
        } else if kind == "webSearch"@ {
            Some("web search"@)
        } else if kind == "collabAgentToolCall"@ {
            Some("collaboration agent"@)
        } else {
            None
        },
        None => None,
    }
}

/// The label of an item of a turn, where the item is tool activity.
pub fn tool_label(item: Option<&Json>) -> (r: Option<String>)
    ensures
        r.deep_view() == label(item.deep_view()),
{
    let item = match item {
        Some(item) => item,
        None => {
            return None;
        },
    };
    let kind = match str_in(item.get("type")) {
        Some(kind) => kind,
        None => {
            return None;
        },
    };
    if same_text(kind, "commandExecution") {
        Some(command_title("shell: ", item))
    } else if same_text(kind, "fileChange") {
        Some("apply patch".to_owned())
    } else if same_text(kind, "mcpToolCall") {
        Some(mcp_title(item))
    } else if same_text(kind, "webSearch") {
        Some("web search".to_owned())
    } else if same_text(kind, "collabAgentToolCall") {
        Some("collaboration agent".to_owned())
    } else {
        None
    }
}

/// What an item of the given type does, where the item is a tool call.
pub open spec fn kind_of(item_type: Seq<char>) -> Option<ToolKind> {
    if item_type == "commandExecution"@ {
        Some(ToolKind::Execute)
    } else if item_type == "fileChange"@ {
        Some(ToolKind::Edit)
    } else if item_type == "webSearch"@ {
        Some(ToolKind::Search)
    } else if item_type == "mcpToolCall"@ || item_type == "collabAgentToolCall"@ {
        Some(ToolKind::Other)
    } else {
        None
    }
}

/// What an item of the given type does, where the item is a tool call.
pub fn codex_tool_kind(item_type: &str) -> (r: Option<ToolKind>)
    ensures
        r == kind_of(item_type@),
{
    if same_text(item_type, "commandExecution") {
        Some(ToolKind::Execute)
    } else if same_text(item_type, "fileChange") {
        Some(ToolKind::Edit)
    } else if same_text(item_type, "webSearch") {
        Some(ToolKind::Search)
    } else if same_text(item_type, "mcpToolCall") || same_text(item_type, "collabAgentToolCall") {
        Some(ToolKind::Other)
    } else {
        None
    }
}

/// The title of a tool call: what it runs, or what it is.
pub open spec fn title(item: Tree, item_type: Seq<char>) -> Seq<char> {
    if item_type == "commandExecution"@ {
        command_name("Shell: "@, item)
    } else if item_type == "fileChange"@ {
        "Apply file changes"@
    } else if item_type == "webSearch"@ {
        "Web search"@
    } else if item_type == "mcpToolCall"@ {
        mcp_name(item)
    } else {
        "Collaboration agent"@
    }
}

/// The item that a notification is about.
pub open spec fn item_of(notification: Tree) -> Option<Tree> {
    json::at(notification.get("params"@), "item"@)
}

/// The tool call that a notification reports the beginning of: one for each item that has
/// an identifier and is a tool call.
pub open spec fn tool_start(notification: Tree) -> Option<ToolCallView> {
    let item = item_of(notification);
    let id = json::text_of(json::at(item, "id"@));
    let item_type = json::text_of(json::at(item, "type"@));
    if id is Some && item_type is Some && kind_of(item_type->0) is Some {
        Some(
            ToolCallView {
                id: id->0,
                title: title(item->0, item_type->0),
                kind: kind_of(item_type->0)->0,
                status: ToolStatus::InProgress,
                raw_input: item->0,
            },
        )
    } else {
        None
    }
}

/// The tool call that a notification reports the beginning of: one for each item that has
/// an identifier and is a tool call.
pub fn codex_tool_start(notification: &Json) -> (r: Option<ToolCall>)
    ensures
        r.deep_view() == tool_start(notification@),
{
    let found = get_in(notification.get("params"), "item");
    let item = match found {
        Some(item) => item,
        None => {
            return None;
        },
    };
    let id = match str_in(item.get("id")) {
        Some(id) => id,
        None => {
            return None;
        },
    };
    let item_type = match str_in(item.get("type")) {
        Some(item_type) => item_type,
        None => {
            return None;
        },
    };
    let (title, kind): (String, ToolKind) = if same_text(item_type, "commandExecution") {
        (command_title("Shell: ", item), ToolKind::Execute)
    } else if same_text(item_type, "fileChange") {
        ("Apply file changes".to_owned(), ToolKind::Edit)
    } else if same_text(item_type, "webSearch") {
        ("Web search".to_owned(), ToolKind::Search)
    } else if same_text(item_type, "mcpToolCall") {
        (mcp_title(item), ToolKind::Other)
    } else if same_text(item_type, "collabAgentToolCall") {
        ("Collaboration agent".to_owned(), ToolKind::Other)
    } else {
        return None;
    };
    Some(
        ToolCall {
            id: id.to_owned(),
            title,
            kind,
            status: ToolStatus::InProgress,
            raw_input: item.copy(),
        },
    )
}

/// Whether the status of an item says that it did not come about.
pub open spec fn item_failed(item: Tree) -> bool {
    let status = json::text_of(item.get("status"@));
    status == Some("failed"@) || status == Some("declined"@)
}

/// What a notification reports of the end of a tool call: one for each item that has an
/// identifier and is a tool call.
pub open spec fn tool_complete(notification: Tree) -> Option<ToolCallUpdateView> {
    let item = item_of(notification);
    let id = json::text_of(json::at(item, "id"@));
    let item_type = json::text_of(json::at(item, "type"@));
    if id is Some && item_type is Some && kind_of(item_type->0) is Some {
        Some(
            ToolCallUpdateView {
                id: id->0,
                status: if item_failed(item->0) {
                    ToolStatus::Failed
                } else {
                    ToolStatus::Completed
                },
                raw_output: item->0,
            },
        )
    } else {
        None
    }
}

/// What a notification reports of the end of a tool call: one for each item that has an
/// identifier and is a tool call.
pub fn codex_tool_complete(notification: &Json) -> (r: Option<ToolCallUpdate>)
    ensures
        r.deep_view() == tool_complete(notification@),
{
    let found = get_in(notification.get("params"), "item");
    let item = match found {
        Some(item) => item,
        None => {
            return None;
        },
    };
    let id = match str_in(item.get("id")) {
        Some(id) => id,
        None => {
            return None;
        },
    };
    let item_type = match str_in(item.get("type")) {
        Some(item_type) => item_type,
        None => {
            return None;
        },
    };
    if codex_tool_kind(item_type).is_none() {
        return None;
    }
    let failed: bool = match str_in(item.get("status")) {
        Some(status) => same_text(status, "failed") || same_text(status, "declined"),
        None => false,
    };
    Some(
        ToolCallUpdate {
            id: id.to_owned(),
            status: if failed {
                ToolStatus::Failed
            } else {
                ToolStatus::Completed
            },
            raw_output: item.copy(),
        },
    )
}

/// Tool events keep the identifiers of the items that they are about: what is reported of
/// the beginning and of the end of an item bears the item's own identifier and the item.
pub proof fn law_tool_events_keep_item_ids(notification: Tree)
    ensures
        tool_start(notification) matches Some(call) ==> {
            &&& item_of(notification) == Some(call.raw_input)
            &&& json::text_of(call.raw_input.get("id"@)) == Some(call.id)
            &&& call.status == ToolStatus::InProgress
        },
        tool_complete(notification) matches Some(update) ==> {
            &&& item_of(notification) == Some(update.raw_output)
            &&& json::text_of(update.raw_output.get("id"@)) == Some(update.id)
            &&& update.status != ToolStatus::InProgress
        },
{
}

/// A tool call that is reported as begun is also reported as ended, and the other way
/// round, whatever else has changed in the item, as long as its identifier and its type are
/// the same: the two reports then bear the same identifier.
pub proof fn law_tool_reports_pair(begun: Tree, ended: Tree)
    requires
        json::text_of(json::at(item_of(begun), "id"@)) == json::text_of(
            json::at(item_of(ended), "id"@),
        ),
        json::text_of(json::at(item_of(begun), "type"@)) == json::text_of(
            json::at(item_of(ended), "type"@),
        ),
    ensures
        tool_start(begun) is Some <==> tool_complete(ended) is Some,
        tool_start(begun) is Some ==> tool_start(begun)->0.id == tool_complete(ended)->0.id,
{
}

/// The items that are labelled as tool activity are those that are reported as tool calls,
/// as far as they have an identifier.
pub proof fn law_labels_cover_tool_calls(notification: Tree)
    ensures
        tool_start(notification) is Some <==> {
            &&& label(item_of(notification)) is Some
            &&& json::text_of(json::at(item_of(notification), "id"@)) is Some
        },
{
}

/// Tool activity is labelled by what it is: a command by the command, an MCP call by the server
/// and the tool, all else by its kind. What is no tool activity has no label.
pub proof fn law_labels_say_what_is_done(item: Tree)
    ensures
        label(None) is None,
        ({
            let command = match item.get("command"@) {
                Some(Tree::Text(text)) => text,
                _ => "command"@,
            };
            let server = match item.get("server"@) {
                Some(Tree::Text(text)) => text,
                _ => "mcp"@,
            };
            let tool = match item.get("tool"@) {
                Some(Tree::Text(text)) => text,
                _ => "tool"@,
            };
            label(Some(item)) == (match item.get("type"@) {
                Some(Tree::Text(kind)) => if kind == "commandExecution"@ {
                    Some("shell: "@ + command)
                } else if kind == "fileChange"@ {
                    Some("apply patch"@)
                } else if kind == "mcpToolCall"@ {
                    Some(server + "."@ + tool)
                } else if kind == "webSearch"@ {
                    Some("web search"@)
                } else if kind == "collabAgentToolCall"@ {
                    Some("collaboration agent"@)
                } else {
                    None
                },
                _ => None,
            })
        }),
{
}

/// A tool call is reported exactly where the item of the notification has an identifier and is
/// of a known kind. It bears the item's identifier, a title and a kind that say what is done,
/// and the item as it is. When it ends it has failed exactly where its status says that it
/// failed or was declined.
pub proof fn law_tool_calls_say_what_is_done(notification: Tree, item: Tree)
    requires
        json::at(notification.get("params"@), "item"@) == Some(item),
    ensures
        ({
            let command = match item.get("command"@) {
                Some(Tree::Text(text)) => text,
                _ => "command"@,
            };
            let server = match item.get("server"@) {
                Some(Tree::Text(text)) => text,
                _ => "mcp"@,
            };
            let tool = match item.get("tool"@) {
                Some(Tree::Text(text)) => text,
                _ => "tool"@,
            };
            let named = match item.get("type"@) {
                Some(Tree::Text(kind)) => if kind == "commandExecution"@ {
                    Some(("Shell: "@ + command, ToolKind::Execute))
                } else if kind == "fileChange"@ {
                    Some(("Apply file changes"@, ToolKind::Edit))
                } else if kind == "webSearch"@ {
                    Some(("Web search"@, ToolKind::Search))
                } else if kind == "mcpToolCall"@ {
                    Some((server + "."@ + tool, ToolKind::Other))
                } else if kind == "collabAgentToolCall"@ {
                    Some(("Collaboration agent"@, ToolKind::Other))
                } else {
                    None
                },
                _ => None,
            };
            match item.get("id"@) {
                Some(Tree::Text(id)) => match named {
                    Some((title, kind)) => {
                        &&& tool_start(notification) == Some(
                            ToolCallView {
                                id,
                                title,
                                kind,
                                status: ToolStatus::InProgress,
                                raw_input: item,
                            },
                        )
                        &&& tool_complete(notification) == Some(
                            ToolCallUpdateView {
                                id,
                                status: if item.get("status"@) == Some(Tree::Text("failed"@))
                                    || item.get("status"@) == Some(Tree::Text("declined"@)) {
                                    ToolStatus::Failed
                                } else {
                                    ToolStatus::Completed
                                },
                                raw_output: item,
                            },
                        )
                    },
                    None => tool_start(notification) is None && tool_complete(notification) is None,
                },
                _ => tool_start(notification) is None && tool_complete(notification) is None,
            }
        }),
{
    reveal_strlit("commandExecution");
    reveal_strlit("fileChange");
    reveal_strlit("webSearch");
    reveal_strlit("mcpToolCall");
    reveal_strlit("collabAgentToolCall");
    assert("commandExecution"@.len() == 16 && "fileChange"@.len() == 10 && "webSearch"@.len() == 9 && "mcpToolCall"@.len() == 11 && "collabAgentToolCall"@.len() == 19);
}

/// A notification without an item reports no tool call.
pub proof fn law_no_item_is_no_tool_call(notification: Tree)
    requires
        json::at(notification.get("params"@), "item"@) is None,
    ensures
        tool_start(notification) is None,
        tool_complete(notification) is None,
{
}

/// What the values of this module show in contracts is what they hold, part by part: nothing is
/// left out, and nothing is changed.
pub proof fn law_values_show_what_they_hold(
    tool_call: &ToolCall,
    tool_call_update: &ToolCallUpdate,
)
    ensures
        tool_call.deep_view() == (ToolCallView {
            id: tool_call.id@,
            title: tool_call.title@,
            kind: tool_call.kind,
            status: tool_call.status,
            raw_input: tool_call.raw_input@,
        }),
        tool_call_update.deep_view() == (ToolCallUpdateView { id: tool_call_update.id@, status: tool_call_update.status, raw_output: tool_call_update.raw_output@ }),
{
}

} // verus!
