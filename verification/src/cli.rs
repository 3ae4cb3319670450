//! The `codex` command: what a run does with its arguments, and what an interactive run does
//! with each line that is typed.

use vstd::prelude::*;

use crate::rpc::result_view;
use crate::status::{CodexStatus, CodexStatusView};
use crate::text;
use crate::text::{same_text, strip_prefix, strip_prefixes};

verus! {

/// The arguments of the command.
pub struct CodexArgs {
    /// Report the account and its models, and do nothing else.
    pub status: bool,
    pub model: Option<String>,
    /// The thread to resume.
    pub resume: Option<String>,
    pub full_access: bool,
    /// The prompt that is given as an option.
    pub prompt: Option<String>,
    /// The prompt that is given as an argument.
    pub message: Option<String>,
}

/// What the arguments mean.
pub struct CodexArgsView {
    pub status: bool,
    pub model: Option<Seq<char>>,
    pub resume: Option<Seq<char>>,
    pub full_access: bool,
    pub prompt: Option<Seq<char>>,
    pub message: Option<Seq<char>>,
}

impl DeepView for CodexArgs {
    type V = CodexArgsView;

    open spec fn deep_view(&self) -> CodexArgsView {
        CodexArgsView {
            status: self.status,
            model: self.model.deep_view(),
            resume: self.resume.deep_view(),
            full_access: self.full_access,
            prompt: self.prompt.deep_view(),
            message: self.message.deep_view(),
        }
    }
}

/// What a run does once the status of the account is known.
pub enum Plan {
    /// Show these lines and end.
    Report(Vec<String>),
    /// Open a thread, and run the prompt where there is one.
    Open(Session),
}

/// A thread that is to be opened, and what for.
pub struct Session {
    pub model: Option<String>,
    pub resume: Option<String>,
    pub full_access: bool,
    pub prompt: Option<String>,
}

/// What a session means.
pub struct SessionView {
    pub model: Option<Seq<char>>,
    pub resume: Option<Seq<char>>,
    pub full_access: bool,
    pub prompt: Option<Seq<char>>,
}

impl DeepView for Session {
    type V = SessionView;

    open spec fn deep_view(&self) -> SessionView {
        SessionView {
            model: self.model.deep_view(),
            resume: self.resume.deep_view(),
            full_access: self.full_access,
            prompt: self.prompt.deep_view(),
        }
    }
}

/// What a plan means.
pub enum PlanView {
    Report(Seq<Seq<char>>),
    Open(SessionView),
}

impl DeepView for Plan {
    type V = PlanView;

    open spec fn deep_view(&self) -> PlanView {
        match self {
            Plan::Report(lines) => PlanView::Report(lines.deep_view()),
            Plan::Open(session) => PlanView::Open(session.deep_view()),
        }
    }
}

/// The first of two, or else the second.
pub open spec fn either(first: Option<Seq<char>>, second: Option<Seq<char>>) -> Option<Seq<char>> {
    if first is Some {
        first
    } else {
        second
    }
}

/// The lines that report the status of an account.
pub open spec fn report_view(status: CodexStatusView) -> Seq<Seq<char>> {
    let default_model = match status.default_model {
        Some(model) => model,
        None => "Codex configuration default"@,
    };
    seq![
        "Codex authentication: "@ + status.account_label,
        "Default model: "@ + default_model,
        "Available models:"@,
    ] + Seq::new(status.models.len(), |i: int| "  "@ + status.models[i])
}

fn joined(a: &str, b: &str) -> (r: String)
    ensures
        r@ == a@ + b@,
{
    let mut text: String = a.to_owned();
    text.append(b);
    text
}

/// The lines that report the status of an account.
pub fn report(status: &CodexStatus) -> (r: Vec<String>)
    ensures
        r.deep_view() == report_view(status.deep_view()),
{
    let default_model: &str = match &status.default_model {
        Some(model) => model.as_str(),
        None => "Codex configuration default",
    };
    let mut lines: Vec<String> = Vec::new();
    lines.push(joined("Codex authentication: ", status.account_label.as_str()));
    lines.push(joined("Default model: ", default_model));
    lines.push("Available models:".to_owned());
    let mut i: usize = 0;
    while i < status.models.len()
        invariant
            0 <= i <= status.models@.len(),
            lines@.len() == 3 + i,
            forall|k: int|
                0 <= k < 3 ==> (#[trigger] lines@[k])@ == report_view(status.deep_view())[k],
            forall|k: int|
                3 <= k < 3 + i ==> (#[trigger] lines@[k])@ == "  "@ + status.models@[k - 3]@,
        decreases status.models@.len() - i,
    {
        lines.push(joined("  ", status.models[i].as_str()));
        i += 1;
    }
    assert(lines.deep_view() =~= report_view(status.deep_view()));
    lines
}

/// What a run does: report the status, or open a thread with the model that was asked for,
/// or else the default one, for the prompt that was given.
pub open spec fn plan_view(args: CodexArgsView, status: CodexStatusView) -> PlanView {
    if args.status {
        PlanView::Report(report_view(status))
    } else {
        PlanView::Open(
            SessionView {
                model: either(args.model, status.default_model),
                resume: args.resume,
                full_access: args.full_access,
                prompt: either(args.prompt, args.message),
            },
        )
    }
}

/// What a run does: report the status, or open a thread with the model that was asked for,
/// or else the default one, for the prompt that was given.
pub fn plan(args: CodexArgs, status: &CodexStatus) -> (r: Plan)
    ensures
        r.deep_view() == plan_view(args.deep_view(), status.deep_view()),
{
    if args.status {
        return Plan::Report(report(status));
    }
    let model: Option<String> = match args.model {
        Some(model) => Some(model),
        None => match &status.default_model {
            Some(model) => Some(model.clone()),
            None => None,
        },
    };
    let prompt: Option<String> = match args.prompt {
        Some(prompt) => Some(prompt),
        None => args.message,
    };
    Plan::Open(Session { model, resume: args.resume, full_access: args.full_access, prompt })
}

/// The line that shows the thread of a run of one prompt.
pub open spec fn thread_note(thread_id: Seq<char>) -> Seq<char> {
    "Codex thread: "@ + thread_id
}

/// The line that shows the thread of a run of one prompt.
pub fn note_thread(thread_id: &str) -> (r: String)
    ensures
        r@ == thread_note(thread_id@),
{
    joined("Codex thread: ", thread_id)
}

/// An interactive run: the account, the thread, and the model of the turns to come.
pub struct Chat {
    pub status: CodexStatus,
    pub thread_id: String,
    pub model: Option<String>,
}

/// What an interactive run means.
pub struct ChatView {
    pub status: CodexStatusView,
    pub thread_id: Seq<char>,
    pub model: Option<Seq<char>>,
}

impl DeepView for Chat {
    type V = ChatView;

    open spec fn deep_view(&self) -> ChatView {
        ChatView {
            status: self.status.deep_view(),
            thread_id: self.thread_id@,
            model: self.model.deep_view(),
        }
    }
}

/// What is to be done with a line.
pub enum ChatStep {
    /// Nothing: ask for the next line.
    Ignore,
    /// End the run.
    Quit,
    /// Show these lines.
    Say(Vec<String>),
    /// Run a turn with this prompt.
    Turn(String),
}

/// What a step of an interactive run means.
pub enum ChatStepView {
    Ignore,
    Quit,
    Say(Seq<Seq<char>>),
    Turn(Seq<char>),
}

impl DeepView for ChatStep {
    type V = ChatStepView;

    open spec fn deep_view(&self) -> ChatStepView {
        match self {
            ChatStep::Ignore => ChatStepView::Ignore,
            ChatStep::Quit => ChatStepView::Quit,
            ChatStep::Say(lines) => ChatStepView::Say(lines.deep_view()),
            ChatStep::Turn(prompt) => ChatStepView::Turn(prompt@),
        }
    }
}

/// The lines that an interactive run begins with.
pub open spec fn banner_view(chat: ChatView) -> Seq<Seq<char>> {
    let model = match chat.model {
        Some(model) => model,
        None => "default"@,
    };
    seq![
        "Grox Codex \u{2022} "@ + chat.status.account_label + " \u{2022} model "@ + model,
        "Thread "@ + chat.thread_id + " \u{2022} /help for commands"@,
    ]
}

/// The lines that explain the commands.
pub open spec fn help_view() -> Seq<Seq<char>> {
    seq![
        "/model <id>  switch model for following turns"@,
        "/models      list subscription models"@,
        "/thread      print the resumable Codex thread id"@,
        "/exit        quit"@,
    ]
}

/// The model that a line asks for, where it is the command that switches the model.
pub open spec fn model_requested(prompt: Seq<char>) -> Option<Seq<char>> {
    if text::has_prefix(prompt, "/model "@) {
        Some(text::trimmed(text::without_prefixes(prompt, "/model "@)))
    } else {
        None
    }
}

/// What is to be done with a line, or at the end of the input. A blank line is passed over,
/// a command is carried out, and anything else is a prompt.
pub open spec fn chat_step(chat: ChatView, line: Option<Seq<char>>) -> ChatStepView {
    match line {
        None => ChatStepView::Quit,
        Some(line) => {
            let prompt = text::trimmed(line);
            if prompt.len() == 0 {
                ChatStepView::Ignore
            } else if prompt == "/exit"@ || prompt == "/quit"@ {
                ChatStepView::Quit
            } else if prompt == "/help"@ {
                ChatStepView::Say(help_view())
            } else if prompt == "/models"@ {
                ChatStepView::Say(chat.status.models)
            } else if prompt == "/thread"@ {
                ChatStepView::Say(seq![chat.thread_id])
            } else {
                match model_requested(prompt) {
                    Some(model) => if model.len() == 0 {
                        ChatStepView::Say(seq!["usage: /model <id>"@])
                    } else {
                        ChatStepView::Say(seq!["model: "@ + model])
                    },
                    None => ChatStepView::Turn(prompt),
                }
            }
        },
    }
}

/// The run after a line: only the command that switches the model changes anything.
pub open spec fn chat_after(chat: ChatView, line: Option<Seq<char>>) -> ChatView {
    match line {
        None => chat,
        Some(line) => match model_requested(text::trimmed(line)) {
            Some(model) => if model.len() == 0 {
                chat
            } else {
                ChatView { model: Some(model), ..chat }
            },
            None => chat,
        },
    }
}

fn one_line(line: String) -> (r: Vec<String>)
    ensures
        r.deep_view() == seq![line@],
{
    let mut lines: Vec<String> = Vec::new();
    lines.push(line);
    assert(lines.deep_view() =~= seq![line@]);
    lines
}

fn help() -> (r: Vec<String>)
    ensures
        r.deep_view() == help_view(),
{
    let mut lines: Vec<String> = Vec::new();
    lines.push("/model <id>  switch model for following turns".to_owned());
    lines.push("/models      list subscription models".to_owned());
    lines.push("/thread      print the resumable Codex thread id".to_owned());
    lines.push("/exit        quit".to_owned());
    assert(lines.deep_view() =~= help_view());
    lines
}

fn copy_lines(list: &Vec<String>) -> (r: Vec<String>)
    ensures
        r.deep_view() == list.deep_view(),
{
    let mut lines: Vec<String> = Vec::new();
    let mut i: usize = 0;
    while i < list.len()
        invariant
            0 <= i <= list@.len(),
            lines@.len() == i,
            forall|k: int| 0 <= k < i ==> (#[trigger] lines@[k])@ == list@[k]@,
        decreases list@.len() - i,
    {
        lines.push(list[i].clone());
        i += 1;
    }
    assert(lines.deep_view() =~= list.deep_view());
    lines
}

impl Chat {
    /// The lines that the run begins with.
    pub fn banner(&self) -> (r: Vec<String>)
        ensures
            r.deep_view() == banner_view(self.deep_view()),
    {
        let model: &str = match &self.model {
            Some(model) => model.as_str(),
            None => "default",
        };
        let mut first: String = joined("Grox Codex \u{2022} ", self.status.account_label.as_str());
        first.append(" \u{2022} model ");
        first.append(model);
        let mut second: String = joined("Thread ", self.thread_id.as_str());
        second.append(" \u{2022} /help for commands");
        let mut lines: Vec<String> = Vec::new();
        lines.push(first);
        lines.push(second);
        assert(lines.deep_view() =~= banner_view(self.deep_view()));
        lines
    }

    /// What is to be done with a line, or at the end of the input.
    pub fn step(&mut self, line: Option<&str>) -> (r: ChatStep)
        ensures
            r.deep_view() == chat_step(old(self).deep_view(), line.deep_view()),
            final(self).deep_view() == chat_after(old(self).deep_view(), line.deep_view()),
    {
        let line = match line {
            Some(line) => line,
            None => {
                return ChatStep::Quit;
            },
        };
        let prompt = line.trim();
        proof {
            lemma_commands_are_no_switch();
        }
        if prompt.is_empty() {
            ChatStep::Ignore
        } else if same_text(prompt, "/exit") || same_text(prompt, "/quit") {
            ChatStep::Quit
        } else if same_text(prompt, "/help") {
            ChatStep::Say(help())
        } else if same_text(prompt, "/models") {
            ChatStep::Say(copy_lines(&self.status.models))
        } else if same_text(prompt, "/thread") {
            ChatStep::Say(one_line(self.thread_id.clone()))
        } else if strip_prefix(prompt, "/model ").is_some() {
            let requested = strip_prefixes(prompt, "/model ").trim();
            if requested.is_empty() {
                ChatStep::Say(one_line("usage: /model <id>".to_owned()))
            } else {
                self.model = Some(requested.to_owned());
                ChatStep::Say(one_line(joined("model: ", requested)))
            }
        } else {
            ChatStep::Turn(prompt.to_owned())
        }
    }
}

proof fn lemma_commands_are_no_switch()
    ensures
        "/model "@.len() == 7,
        forall|prompt: Seq<char>|
            prompt.len() == 0 || prompt == "/exit"@ || prompt == "/quit"@ || prompt == "/help"@
                || prompt == "/models"@ || prompt == "/thread"@ ==> #[trigger] model_requested(
                prompt,
            ) is None,
{
    reveal_strlit("/model ");
    reveal_strlit("/exit");
    reveal_strlit("/quit");
    reveal_strlit("/help");
    reveal_strlit("/models");
    reveal_strlit("/thread");
    assert("/models"@.take(7)[6] == 's');
    assert("/thread"@.take(7)[1] == 't');
    assert("/model "@[6] == ' ' && "/model "@[1] == 'm');
    assert("/exit"@.len() == 5 && "/quit"@.len() == 5 && "/help"@.len() == 5);
}

/// What a run does once its thread is open.
pub enum Opened {
    /// Run one turn with this prompt, and end; see [`end_prompt`].
    Once { prompt: String, model: Option<String> },
    /// Show these lines, and go on with what is typed.
    Chat(Chat, Vec<String>),
}

/// What a run with an open thread means.
pub enum OpenedView {
    Once { prompt: Seq<char>, model: Option<Seq<char>> },
    Chat(ChatView, Seq<Seq<char>>),
}

impl DeepView for Opened {
    type V = OpenedView;

    open spec fn deep_view(&self) -> OpenedView {
        match self {
            Opened::Once { prompt, model } => OpenedView::Once {
                prompt: prompt@,
                model: model.deep_view(),
            },
            Opened::Chat(chat, lines) => OpenedView::Chat(chat.deep_view(), lines.deep_view()),
        }
    }
}

/// What a run does once its thread is open: one turn, where it was given a prompt, and
/// otherwise whatever is typed.
pub open spec fn opened_view(
    session: SessionView,
    status: CodexStatusView,
    thread_id: Seq<char>,
) -> OpenedView {
    match session.prompt {
        Some(prompt) => OpenedView::Once { prompt, model: session.model },
        None => {
            let chat = ChatView { status, thread_id, model: session.model };
            OpenedView::Chat(chat, banner_view(chat))
        },
    }
}

/// What a run does once its thread is open.
pub fn thread_opened(session: Session, status: CodexStatus, thread_id: String) -> (r: Opened)
    ensures
        r.deep_view() == opened_view(session.deep_view(), status.deep_view(), thread_id@),
{
    match session.prompt {
        Some(prompt) => Opened::Once { prompt, model: session.model },
        None => {
            let chat = Chat { status, thread_id, model: session.model };
            let lines = chat.banner();
            Opened::Chat(chat, lines)
        },
    }
}

/// How a run of one prompt ends, by what its turn came to: the line that it shows last, which
/// is the same whether or not the turn failed, and what it returns.
pub open spec fn prompt_end<E>(thread_id: Seq<char>, outcome: Result<(), E>) -> (
    Seq<char>,
    Result<(), E>,
) {
    (thread_note(thread_id), outcome)
}

/// How a run of one prompt ends, by what its turn came to: the line to show, and what to
/// return after it.
pub fn end_prompt<E>(thread_id: &str, outcome: Result<(), E>) -> (r: (String, Result<(), E>))
    ensures
        (r.0@, r.1) == prompt_end(thread_id@, outcome),
{
    (note_thread(thread_id), outcome)
}

/// What is said of a turn that failed in an interactive run.
pub open spec fn turn_failure(error: Seq<char>) -> Seq<char> {
    "Codex error: "@ + error
}

/// What is said after a turn of an interactive run, which goes on whatever the turn came to:
/// nothing, unless the turn failed.
pub open spec fn turn_said(outcome: Result<(), Seq<char>>) -> Option<Seq<char>> {
    match outcome {
        Ok(()) => None,
        Err(error) => Some(turn_failure(error)),
    }
}

/// What is said after a turn of an interactive run, which goes on whatever the turn came to.
pub fn end_turn(outcome: Result<(), String>) -> (r: Option<String>)
    ensures
        r.deep_view() == turn_said(result_view(outcome)),
{
    match outcome {
        Ok(()) => None,
        Err(error) => Some(joined("Codex error: ", error.as_str())),
    }
}

/// Whether `part` occurs in `whole`.
pub open spec fn occurs(part: Seq<char>, whole: Seq<char>) -> bool {
    exists|a: Seq<char>, b: Seq<char>| whole == #[trigger] ((a + part) + b)
}

/// Every run that opens a thread shows its identifier: one of a single prompt in the line
/// that it ends with, whether its turn succeeds or fails, and an interactive one in the lines
/// that it begins with, and again whenever it is asked for. What a turn came to is returned as
/// it is.
pub proof fn law_every_run_shows_its_thread<E>(
    session: SessionView,
    status: CodexStatusView,
    thread_id: Seq<char>,
    outcome: Result<(), E>,
    line: Seq<char>,
)
    ensures
        match opened_view(session, status, thread_id) {
            OpenedView::Once { prompt, model } => {
                &&& session.prompt == Some(prompt)
                &&& model == session.model
                &&& occurs(thread_id, prompt_end(thread_id, outcome).0)
                &&& prompt_end(thread_id, outcome).1 == outcome
            },
            OpenedView::Chat(chat, lines) => {
                &&& session.prompt is None
                &&& chat.thread_id == thread_id
                &&& lines.len() == 2
                &&& occurs(thread_id, lines[1])
                &&& text::trimmed(line) == "/thread"@ ==> chat_step(chat, Some(line))
                    == ChatStepView::Say(seq![thread_id])
            },
        },
{
    let id = thread_id;
    assert(thread_note(id) =~= ("Codex thread: "@ + id) + Seq::empty());
    if let OpenedView::Chat(chat, lines) = opened_view(session, status, thread_id) {
        assert(lines[1] == ("Thread "@ + id) + " \u{2022} /help for commands"@);
    }
    reveal_strlit("/thread");
    reveal_strlit("/exit");
    reveal_strlit("/quit");
    reveal_strlit("/help");
    reveal_strlit("/models");
    assert("/thread"@[1] == 't' && "/models"@[1] == 'm');
    assert("/thread"@.len() == 7 && "/exit"@.len() == 5 && "/quit"@.len() == 5 && "/help"@.len()
        == 5);
}

/// The account and the thread of an interactive run never change, and its model only by the
/// command that switches it, which runs no turn.
pub proof fn law_only_the_model_switches(chat: ChatView, line: Option<Seq<char>>)
    ensures
        chat_after(chat, line).status == chat.status,
        chat_after(chat, line).thread_id == chat.thread_id,
        chat_after(chat, line).model != chat.model ==> {
            &&& line is Some
            &&& model_requested(text::trimmed(line->0)) == chat_after(chat, line).model
            &&& chat_step(chat, line) == ChatStepView::Say(
                seq!["model: "@ + chat_after(chat, line).model->0],
            )
        },
        chat_step(chat, line) is Turn ==> chat_after(chat, line) == chat,
{
    lemma_commands_are_no_switch();
}

/// The model that a run uses is the one that was asked for, where one was, and full access
/// and the thread to resume are taken from the arguments as they are.
pub proof fn law_arguments_come_first(args: CodexArgsView, status: CodexStatusView)
    requires
        !args.status,
    ensures
        plan_view(args, status) matches PlanView::Open(session) && {
            &&& session.full_access == args.full_access
            &&& session.resume == args.resume
            &&& args.model is Some ==> session.model == args.model
            &&& args.model is None ==> session.model == status.default_model
            &&& args.prompt is Some ==> session.prompt == args.prompt
        },
{
}

/// A run with neither the status to report nor a prompt is an interactive one. It has a prompt
/// exactly where one was given, as an option or as an argument, and the option counts where
/// both were; and where it has one, it runs that prompt as it is.
pub proof fn law_a_run_without_a_prompt_is_interactive(
    args: CodexArgsView,
    status: CodexStatusView,
    thread_id: Seq<char>,
)
    ensures
        plan_view(args, status) is Report <==> args.status,
        plan_view(args, status) matches PlanView::Open(session) ==> {
            let opened = opened_view(session, status, thread_id);
            &&& args.prompt is None && args.message is None ==> session.prompt is None
            &&& args.prompt matches Some(prompt) ==> session.prompt == Some(prompt)
            &&& args.prompt is None ==> session.prompt == args.message
            &&& opened is Chat <==> args.prompt is None && args.message is None
            &&& args.prompt matches Some(given) ==> (opened matches OpenedView::Once {
                prompt,
                model,
            } && prompt == given && model == session.model)
            &&& args.prompt is None && args.message is Some ==> (opened matches OpenedView::Once {
                prompt,
                model,
            } && prompt == args.message->0 && model == session.model)
            &&& opened matches OpenedView::Chat(chat, lines) ==> {
                &&& chat.thread_id == thread_id
                &&& chat.status == status
                &&& chat.model == session.model
                &&& lines == banner_view(chat)
            }
        },
{
}

/// The report of a status names the account, the default model, or that the configuration
/// decides, and every model on a line of its own, in order, and nothing else.
pub proof fn law_the_report_names_every_model(
    args: CodexArgsView,
    status: CodexStatusView,
    i: int,
)
    requires
        args.status,
    ensures
        plan_view(args, status) matches PlanView::Report(lines) && {
            &&& lines.len() == 3 + status.models.len()
            &&& lines[0] == "Codex authentication: "@ + status.account_label
            &&& lines[1] == "Default model: "@ + (match status.default_model {
                Some(model) => model,
                None => "Codex configuration default"@,
            })
            &&& lines[2] == "Available models:"@
            &&& 0 <= i < status.models.len() ==> lines[3 + i] == "  "@ + status.models[i]
        },
{
}

/// An interactive run begins by saying who it is, with which model, on which thread, and how to
/// find the commands.
pub proof fn law_the_banner_says_where_one_is(chat: ChatView)
    ensures
        banner_view(chat).len() == 2,
        banner_view(chat)[0] == "Grox Codex \u{2022} "@ + chat.status.account_label
            + " \u{2022} model "@ + (match chat.model {
            Some(model) => model,
            None => "default"@,
        }),
        banner_view(chat)[1] == "Thread "@ + chat.thread_id + " \u{2022} /help for commands"@,
        help_view().len() == 4,
        help_view()[0] == "/model <id>  switch model for following turns"@,
        help_view()[1] == "/models      list subscription models"@,
        help_view()[2] == "/thread      print the resumable Codex thread id"@,
        help_view()[3] == "/exit        quit"@,
{
}

/// Whatever is typed that is no command is a prompt, as it was typed but for the white space
/// around it, and a blank line is nothing. The run ends with the input or when it is told to,
/// and each command does what it says: the help is shown, the models, the thread.
pub proof fn law_lines_are_commands_or_prompts(chat: ChatView, line: Seq<char>)
    ensures
        chat_step(chat, None) is Quit,
        ({
            let typed = text::trimmed(line);
            let step = chat_step(chat, Some(line));
            &&& step is Ignore <==> text::all_white(line)
            &&& step is Quit <==> typed == "/exit"@ || typed == "/quit"@
            &&& typed == "/help"@ ==> step == ChatStepView::Say(help_view())
            &&& typed == "/models"@ ==> step == ChatStepView::Say(chat.status.models)
            &&& typed == "/thread"@ ==> step == ChatStepView::Say(seq![chat.thread_id])
            &&& step is Turn <==> {
                &&& !text::all_white(line)
                &&& typed != "/exit"@
                &&& typed != "/quit"@
                &&& typed != "/help"@
                &&& typed != "/models"@
                &&& typed != "/thread"@
                &&& !text::has_prefix(typed, "/model "@)
            }
            &&& step matches ChatStepView::Turn(prompt) ==> prompt == typed
        }),
{
    text::law_trimming_takes_white_space_alone(line);
    lemma_commands_are_no_switch();
    reveal_strlit("/exit");
    reveal_strlit("/quit");
    reveal_strlit("/help");
    reveal_strlit("/models");
    reveal_strlit("/thread");
    assert("/exit"@.len() == 5 && "/quit"@.len() == 5 && "/help"@.len() == 5 && "/models"@.len() == 7 && "/thread"@.len() == 7);
    assert("/exit"@[1] == 'e' && "/quit"@[1] == 'q');
    assert("/exit"@[1] == 'e' && "/help"@[1] == 'h');
    assert("/quit"@[1] == 'q' && "/help"@[1] == 'h');
    assert("/models"@[1] == 'm' && "/thread"@[1] == 't');
}

/// The command that switches the model takes the name that follows it, without white space
/// around it: that is then the model of the turns to come, and said so. A name must follow.
pub proof fn law_the_model_is_switched_by_name(chat: ChatView, line: Seq<char>, name: Seq<char>)
    requires
        text::trimmed(line) == "/model "@ + name,
        !text::has_prefix(name, "/model "@),
    ensures
        ({
            let model = text::trimmed(name);
            &&& model.len() > 0 ==> {
                &&& chat_step(chat, Some(line)) == ChatStepView::Say(seq!["model: "@ + model])
                &&& chat_after(chat, Some(line)) == ChatView { model: Some(model), ..chat }
            }
            &&& model.len() == 0 ==> {
                &&& chat_step(chat, Some(line)) == ChatStepView::Say(seq!["usage: /model <id>"@])
                &&& chat_after(chat, Some(line)) == chat
            }
        }),
{
    lemma_commands_are_no_switch();
    text::law_cutting_undoes_prefixing("/model "@, name, name);
    text::law_every_copy_is_cut_off("/model "@, name);
    let typed = text::trimmed(line);
    assert(model_requested(typed) is Some);
}

/// What is not the command that switches the model leaves the run as it is.
pub proof fn law_nothing_else_changes_a_run(chat: ChatView, line: Seq<char>)
    requires
        !text::has_prefix(text::trimmed(line), "/model "@),
    ensures
        chat_after(chat, Some(line)) == chat,
        chat_after(chat, None) == chat,
{
}

/// A run of one prompt ends with the line that names its thread, and returns what its turn came
/// to; an interactive run says that a turn failed, and why, and says nothing of one that did
/// not.
pub proof fn law_ends_are_said_and_returned<E>(
    thread_id: Seq<char>,
    outcome: Result<(), E>,
    error: Seq<char>,
)
    ensures
        prompt_end(thread_id, outcome).0 == "Codex thread: "@ + thread_id,
        prompt_end(thread_id, outcome).1 == outcome,
        turn_said(Ok(())) is None,
        turn_said(Err(error)) == Some("Codex error: "@ + error),
{
}

/// To write the command that switches the model more than once is to write it once.
pub proof fn law_a_switch_can_be_repeated(chat: ChatView, line: Seq<char>, twice: Seq<char>)
    requires
        text::has_prefix(text::trimmed(line), "/model "@),
        text::trimmed(twice) == "/model "@ + text::trimmed(line),
    ensures
        chat_step(chat, Some(twice)) == chat_step(chat, Some(line)),
        chat_after(chat, Some(twice)) == chat_after(chat, Some(line)),
{
    lemma_commands_are_no_switch();
    text::law_cutting_undoes_prefixing("/model "@, text::trimmed(line), text::trimmed(line));
    text::law_every_copy_is_cut_off("/model "@, text::trimmed(line));
    assert(model_requested(text::trimmed(twice)) is Some);
    assert(model_requested(text::trimmed(line)) is Some);
}

/// What the values of this module show in contracts is what they hold, part by part: nothing is
/// left out, and nothing is changed.
pub proof fn law_values_show_what_they_hold(
    codex_args: &CodexArgs,
    session: &Session,
    plan: &Plan,
    chat: &Chat,
    chat_step: &ChatStep,
    opened: &Opened,
)
    ensures
        codex_args.deep_view() == (CodexArgsView {
            status: codex_args.status,
            model: codex_args.model.deep_view(),
            resume: codex_args.resume.deep_view(),
            full_access: codex_args.full_access,
            prompt: codex_args.prompt.deep_view(),
            message: codex_args.message.deep_view(),
        }),
        session.deep_view() == (SessionView {
            model: session.model.deep_view(),
            resume: session.resume.deep_view(),
            full_access: session.full_access,
            prompt: session.prompt.deep_view(),
        }),
        plan.deep_view() == (match plan {
            Plan::Report(lines) => PlanView::Report(lines.deep_view()),
            Plan::Open(session) => PlanView::Open(session.deep_view()),
        }),
        chat.deep_view() == (ChatView {
            status: chat.status.deep_view(),
            thread_id: chat.thread_id@,
            model: chat.model.deep_view(),
        }),
        chat_step.deep_view() == (match chat_step {
            ChatStep::Ignore => ChatStepView::Ignore,
            ChatStep::Quit => ChatStepView::Quit,
            ChatStep::Say(lines) => ChatStepView::Say(lines.deep_view()),
            ChatStep::Turn(prompt) => ChatStepView::Turn(prompt@),
        }),
        opened.deep_view() == (match opened {
            Opened::Once { prompt, model } => OpenedView::Once {
                prompt: prompt@,
                model: model.deep_view(),
            },
            Opened::Chat(chat, lines) => OpenedView::Chat(chat.deep_view(), lines.deep_view()),
        }),
{
}

} // verus!
