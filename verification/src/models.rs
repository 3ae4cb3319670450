//! The models of a Codex account, with what is known of each.

use vstd::prelude::*;

use crate::json;
use crate::json::{array_in, str_in, str_in_or, true_in, Json, Tree};
use crate::rpc;
use crate::rpc::{owned, Call, CallView};
use crate::status;
use crate::status::account_in;
use crate::text::same_text;

verus! {

/// A model of the account.
pub struct CodexModel {
    pub id: String,
    pub name: String,
    pub description: Option<String>,
    pub is_default: bool,
    pub supported_reasoning_efforts: Vec<String>,
    pub default_reasoning_effort: Option<String>,
}

/// What a model means.
#[verifier::ext_equal]
pub struct CodexModelView {
    pub id: Seq<char>,
    pub name: Seq<char>,
    pub description: Option<Seq<char>>,
    pub is_default: bool,
    pub supported_reasoning_efforts: Seq<Seq<char>>,
    pub default_reasoning_effort: Option<Seq<char>>,
}

impl DeepView for CodexModel {
    type V = CodexModelView;

    open spec fn deep_view(&self) -> CodexModelView {
        CodexModelView {
            id: self.id@,
            name: self.name@,
            description: self.description.deep_view(),
            is_default: self.is_default,
            supported_reasoning_efforts: self.supported_reasoning_efforts.deep_view(),
            default_reasoning_effort: self.default_reasoning_effort.deep_view(),
        }
    }
}

/// An account and its models.
pub struct CodexStatus {
    pub account_label: String,
    pub models: Vec<CodexModel>,
}

/// What the status of an account means.
#[verifier::ext_equal]
pub struct CodexStatusView {
    pub account_label: Seq<char>,
    pub models: Seq<CodexModelView>,
}

impl DeepView for CodexStatus {
    type V = CodexStatusView;

    open spec fn deep_view(&self) -> CodexStatusView {
        CodexStatusView { account_label: self.account_label@, models: self.models.deep_view() }
    }
}

/// How an account is called: after its plan, the kind of its key, or else its type.
pub open spec fn account_label(account: Tree) -> Seq<char> {
    match json::text_of(account.get("type"@)) {
        Some(kind) => if kind == "chatgpt"@ {
            status::chatgpt_label(account)
        } else if kind == "apiKey"@ {
            "OpenAI API key"@
        } else {
            kind
        },
        None => "authenticated Codex account"@,
    }
}

/// How an account is called: after its plan, the kind of its key, or else its type.
pub fn label_account(account: &Json) -> (r: String)
    ensures
        r@ == account_label(account@),
{
    match str_in(account.get("type")) {
        Some(kind) => if same_text(kind, "chatgpt") {
            status::label_chatgpt(account)
        } else if same_text(kind, "apiKey") {
            "OpenAI API key".to_owned()
        } else {
            kind.to_owned()
        },
        None => "authenticated Codex account".to_owned(),
    }
}

/// A reasoning effort: a text, or an object that holds one.
pub open spec fn effort(entry: Tree) -> Option<Seq<char>> {
    match entry.as_text() {
        Some(text) => Some(text),
        None => json::text_of(entry.get("reasoningEffort"@)),
    }
}

/// The reasoning efforts in a list, in order. An entry that is none is left out.
pub open spec fn efforts(list: Seq<Tree>) -> Seq<Seq<char>>
    decreases list.len(),
{
    if list.len() == 0 {
        seq![]
    } else {
        let earlier = efforts(list.drop_last());
        match effort(list.last()) {
            Some(text) => earlier.push(text),
            None => earlier,
        }
    }
}

/// A model as a page lists it, where it has an identifier. A model without a name is called
/// by its identifier.
pub open spec fn model(entry: Tree) -> Option<CodexModelView> {
    match json::text_of(entry.get("model"@)) {
        Some(id) => Some(
            CodexModelView {
                id,
                name: json::text_or(entry.get("displayName"@), id),
                description: json::text_of(entry.get("description"@)),
                is_default: json::is_true(entry.get("isDefault"@)),
                supported_reasoning_efforts: efforts(
                    json::items_of(entry.get("supportedReasoningEfforts"@)),
                ),
                default_reasoning_effort: json::text_of(entry.get("defaultReasoningEffort"@)),
            },
        ),
        None => None,
    }
}

/// The models in a list, in order. One without an identifier is left out.
pub open spec fn models(list: Seq<Tree>) -> Seq<CodexModelView>
    decreases list.len(),
{
    if list.len() == 0 {
        seq![]
    } else {
        let earlier = models(list.drop_last());
        match model(list.last()) {
            Some(found) => earlier.push(found),
            None => earlier,
        }
    }
}

fn read_efforts(found: Option<&Json>) -> (r: Vec<String>)
    ensures
        r.deep_view() == efforts(json::items_of(found.deep_view())),
{
    let mut list: Vec<String> = Vec::new();
    let ghost all = json::items_of(found.deep_view());
    assert(list.deep_view() =~= efforts(all.take(0)));
    match array_in(found) {
        Some(entries) => {
            let mut i: usize = 0;
            while i < entries.len()
                invariant
                    0 <= i <= entries@.len(),
                    all == entries.deep_view(),
                    list.deep_view() == efforts(all.take(i as int)),
                decreases entries@.len() - i,
            {
                let entry = &entries[i];
                let ghost before = list.deep_view();
                proof {
                    assert(all.take(i + 1).drop_last() =~= all.take(i as int));
                    assert(all.take(i + 1).last() == entry@);
                }
                let text: Option<&str> = match entry.as_str() {
                    Some(text) => Some(text),
                    None => str_in(entry.get("reasoningEffort")),
                };
                if let Some(text) = text {
                    list.push(text.to_owned());
                    assert(list.deep_view() =~= before.push(text@));
                }
                i += 1;
            }
            assert(all.take(i as int) =~= all);
        },
        None => {
            assert(all.take(0) =~= all);
        },
    }
    list
}

/// A model as a page lists it, where it has an identifier.
pub fn read_model(entry: &Json) -> (r: Option<CodexModel>)
    ensures
        r.deep_view() == model(entry@),
{
    match str_in(entry.get("model")) {
        Some(id) => Some(
            CodexModel {
                id: id.to_owned(),
                name: str_in_or(entry.get("displayName"), id).to_owned(),
                description: owned(str_in(entry.get("description"))),
                is_default: true_in(entry.get("isDefault")),
                supported_reasoning_efforts: read_efforts(entry.get("supportedReasoningEfforts")),
                default_reasoning_effort: owned(str_in(entry.get("defaultReasoningEffort"))),
            },
        ),
        None => None,
    }
}

fn add_page(status: CodexStatus, response: &Json) -> (r: CodexStatus)
    ensures
        r.deep_view() == (CodexStatusView {
            account_label: status.account_label@,
            models: status.models.deep_view() + models(status::listed(response@)),
        }),
{
    let ghost all = status::listed(response@);
    let ghost first = status.models.deep_view();
    let ghost label = status.account_label@;
    let mut status = status;
    assert(all.take(0) =~= Seq::<Tree>::empty());
    assert(first + models(all.take(0)) =~= first);
    match array_in(response.get("data")) {
        Some(list) => {
            let mut i: usize = 0;
            while i < list.len()
                invariant
                    0 <= i <= list@.len(),
                    all == list.deep_view(),
                    status.account_label@ == label,
                    status.models.deep_view() == first + models(all.take(i as int)),
                decreases list@.len() - i,
            {
                let entry = &list[i];
                let ghost before = status.models.deep_view();
                proof {
                    assert(all.take(i + 1).drop_last() =~= all.take(i as int));
                    assert(all.take(i + 1).last() == entry@);
                }
                if let Some(found) = read_model(entry) {
                    status.models.push(found);
                    proof {
                        assert(status.models.deep_view() =~= before.push(found.deep_view()));
                        assert(first + models(all.take(i + 1)) =~= (first + models(
                            all.take(i as int),
                        )).push(found.deep_view()));
                    }
                }
                i += 1;
            }
            assert(all.take(i as int) =~= all);
        },
        None => {
            assert(all.take(0) =~= all);
        },
    }
    status
}

/// How far the reading of a status has come.
pub enum StatusReading {
    /// The account has been asked for.
    Account,
    /// A page of models has been asked for; the models so far.
    Models(CodexStatus),
}

/// How far the reading of a status has come.
pub enum StatusReadingView {
    Account,
    Models(CodexStatusView),
}

impl DeepView for StatusReading {
    type V = StatusReadingView;

    open spec fn deep_view(&self) -> StatusReadingView {
        match self {
            StatusReading::Account => StatusReadingView::Account,
            StatusReading::Models(status) => StatusReadingView::Models(status.deep_view()),
        }
    }
}

/// What is to be done to read a status.
pub enum StatusStep {
    /// Make a call, and go on with its result.
    Ask(StatusReading, Call),
    Ready(CodexStatus),
    Failed(String),
}

/// What a step of reading a status means.
pub enum StatusStepView {
    Ask(StatusReadingView, CallView),
    Ready(CodexStatusView),
    Failed(Seq<char>),
}

impl DeepView for StatusStep {
    type V = StatusStepView;

    open spec fn deep_view(&self) -> StatusStepView {
        match self {
            StatusStep::Ask(reading, call) => StatusStepView::Ask(reading.deep_view(), call@),
            StatusStep::Ready(status) => StatusStepView::Ready(status.deep_view()),
            StatusStep::Failed(error) => StatusStepView::Failed(error@),
        }
    }
}

/// The first step: to ask for the account.
pub open spec fn first_step() -> StatusStepView {
    StatusStepView::Ask(
        StatusReadingView::Account,
        CallView { method: "account/read"@, params: Tree::empty() },
    )
}

/// The step that follows a result: after the account the first page of models, after a page
/// the next one, and after the last page the end.
pub open spec fn status_step(reading: StatusReadingView, response: Tree) -> StatusStepView {
    match reading {
        StatusReadingView::Account => match status::account_of(response) {
            Some(account) => StatusStepView::Ask(
                StatusReadingView::Models(
                    CodexStatusView { account_label: account_label(account), models: seq![] },
                ),
                rpc::model_list_view(None),
            ),
            None => StatusStepView::Failed("Codex CLI is not authenticated; run `codex login`"@),
        },
        StatusReadingView::Models(status) => {
            let more = CodexStatusView {
                account_label: status.account_label,
                models: status.models + models(status::listed(response)),
            };
            match rpc::next_cursor(response) {
                Some(cursor) => StatusStepView::Ask(
                    StatusReadingView::Models(more),
                    rpc::model_list_view(Some(cursor)),
                ),
                None => StatusStepView::Ready(more),
            }
        },
    }
}

/// The first step of reading a status.
pub fn status() -> (r: StatusStep)
    ensures
        r.deep_view() == first_step(),
{
    StatusStep::Ask(StatusReading::Account, rpc::account_call())
}

impl StatusReading {
    /// The step that follows a result.
    pub fn next(self, response: &Json) -> (r: StatusStep)
        ensures
            r.deep_view() == status_step(self.deep_view(), response@),
    {
        match self {
            StatusReading::Account => match account_in(response) {
                Some(account) => {
                    let status = CodexStatus {
                        account_label: label_account(account),
                        models: Vec::new(),
                    };
                    assert(status.models.deep_view() =~= Seq::<CodexModelView>::empty());
                    StatusStep::Ask(StatusReading::Models(status), rpc::model_list_call(None))
                },
                None => StatusStep::Failed(
                    "Codex CLI is not authenticated; run `codex login`".to_owned(),
                ),
            },
            StatusReading::Models(status) => {
                let more = add_page(status, response);
                match str_in(response.get("nextCursor")) {
                    Some(cursor) => StatusStep::Ask(
                        StatusReading::Models(more),
                        rpc::model_list_call(Some(cursor)),
                    ),
                    None => StatusStep::Ready(more),
                }
            },
        }
    }
}

/// Where the reading of a status stands after some results.
pub open spec fn status_run(responses: Seq<Tree>) -> StatusStepView
    decreases responses.len(),
{
    if responses.len() == 0 {
        first_step()
    } else {
        match status_run(responses.drop_last()) {
            StatusStepView::Ask(reading, _) => status_step(reading, responses.last()),
            over => over,
        }
    }
}

proof fn lemma_models_concat(a: Seq<Tree>, b: Seq<Tree>)
    ensures
        models(a + b) == models(a) + models(b),
    decreases b.len(),
{
    if b.len() == 0 {
        assert(a + b =~= a);
        assert(models(a) + models(b) =~= models(a));
    } else {
        lemma_models_concat(a, b.drop_last());
        assert((a + b).drop_last() =~= a + b.drop_last());
        assert(models(a + b) =~= models(a) + models(b));
    }
}

proof fn lemma_status_pages(account: Tree, pages: Seq<Tree>)
    requires
        status::account_of(account) is Some,
        forall|i: int| 0 <= i < pages.len() ==> rpc::next_cursor(#[trigger] pages[i]) is Some,
    ensures
        status_run(seq![account] + pages) == StatusStepView::Ask(
            StatusReadingView::Models(
                CodexStatusView {
                    account_label: account_label(status::account_of(account)->0),
                    models: models(status::all_listed(pages)),
                },
            ),
            rpc::model_list_view(
                if pages.len() == 0 {
                    None
                } else {
                    rpc::next_cursor(pages.last())
                },
            ),
        ),
    decreases pages.len(),
{
    let all = seq![account] + pages;
    if pages.len() == 0 {
        assert(all =~= seq![account]);
        assert(all.drop_last() =~= Seq::<Tree>::empty());
        assert(models(status::all_listed(pages)) =~= seq![]);
        assert(status_run(all.drop_last()) == first_step());
    } else {
        let front = pages.drop_last();
        assert forall|i: int| 0 <= i < front.len() implies rpc::next_cursor(
            #[trigger] front[i],
        ) is Some by {
            assert(front[i] == pages[i]);
        }
        lemma_status_pages(account, front);
        assert(all.drop_last() =~= seq![account] + front);
        assert(all.last() == pages.last());
        assert(pages[pages.len() - 1] == pages.last());
        lemma_models_concat(status::all_listed(front), status::listed(pages.last()));
    }
}

/// The models of the account are found on every page: the reading of a status asks for the
/// account, then for one page after another, each by the cursor of the one before, and ends
/// with the first page that names no further one. It then has the models of all pages in
/// order.
pub proof fn law_status_reads_every_page(account: Tree, pages: Seq<Tree>, last: Tree)
    requires
        status::account_of(account) is Some,
        forall|i: int| 0 <= i < pages.len() ==> rpc::next_cursor(#[trigger] pages[i]) is Some,
        rpc::next_cursor(last) is None,
    ensures
        status_run(seq![account] + pages.push(last)) == StatusStepView::Ready(
            CodexStatusView {
                account_label: account_label(status::account_of(account)->0),
                models: models(status::all_listed(pages.push(last))),
            },
        ),
        status_run(seq![account] + pages) matches StatusStepView::Ask(_, call) && call
            == rpc::model_list_view(
            if pages.len() == 0 {
                None
            } else {
                rpc::next_cursor(pages.last())
            },
        ),
{
    lemma_status_pages(account, pages);
    let all = seq![account] + pages.push(last);
    assert(all.drop_last() =~= seq![account] + pages);
    assert(all.last() == last);
    assert(pages.push(last).drop_last() =~= pages);
    lemma_models_concat(status::all_listed(pages), status::listed(last));
}

/// The command and the pager see the same models: those with an identifier, in order.
pub proof fn law_both_readings_list_the_same_models(list: Seq<Tree>)
    ensures
        models(list).map_values(|m: CodexModelView| m.id) == status::model_ids(list),
    decreases list.len(),
{
    let id = |m: CodexModelView| m.id;
    if list.len() > 0 {
        law_both_readings_list_the_same_models(list.drop_last());
    }
    assert(models(list).map_values(id) =~= status::model_ids(list));
}

/// An account is there exactly where the response has one that is not `null`, and is called
/// after its plan where it is one of ChatGPT, after its key where it has one, and otherwise
/// by its type.
pub proof fn law_accounts_are_called_after_what_they_are(response: Tree, account: Tree)
    ensures
        status::account_of(response) == Some(account) <==> response.get("account"@) == Some(account)
            && account != Tree::Null,
        match account.get("type"@) {
            Some(Tree::Text(kind)) => if kind == "chatgpt"@ {
                account_label(account) == "ChatGPT "@ + (match account.get("planType"@) {
                    Some(Tree::Text(plan)) => plan,
                    _ => "authenticated"@,
                }) + " subscription"@
            } else if kind == "apiKey"@ {
                account_label(account) == "OpenAI API key"@
            } else {
                account_label(account) == kind
            },
            _ => account_label(account) == "authenticated Codex account"@,
        },
{
}

/// A reasoning effort is a text, or the text under `reasoningEffort` in an object. The efforts
/// of a list are those of its entries, in order.
pub proof fn law_efforts_are_read_in_order(list: Seq<Tree>, entry: Tree)
    ensures
        efforts(seq![]).len() == 0,
        efforts(list.push(entry)) == (match entry {
            Tree::Text(text) => efforts(list).push(text),
            _ => match entry.get("reasoningEffort"@) {
                Some(Tree::Text(text)) => efforts(list).push(text),
                _ => efforts(list),
            },
        }),
{
    assert(list.push(entry).drop_last() =~= list);
}

/// A model is read as its page lists it: under its identifier and its name, or its identifier
/// where it has no name, with its description, its efforts and whether it is the default; one
/// without an identifier is none. The models of a list are those of its entries, in order.
pub proof fn law_models_are_read_as_listed(list: Seq<Tree>, entry: Tree)
    ensures
        models(seq![]).len() == 0,
        match entry.get("model"@) {
            Some(Tree::Text(id)) => {
                &&& models(list.push(entry)).len() == models(list).len() + 1
                &&& models(list.push(entry)).drop_last() == models(list)
                &&& ({
                    let found = models(list.push(entry)).last();
                    &&& found.id == id
                    &&& found.name == (match entry.get("displayName"@) {
                        Some(Tree::Text(name)) => name,
                        _ => id,
                    })
                    &&& found.description == (match entry.get("description"@) {
                        Some(Tree::Text(text)) => Some(text),
                        _ => None,
                    })
                    &&& found.is_default <==> entry.get("isDefault"@) == Some(Tree::Bool(true))
                    &&& found.supported_reasoning_efforts == (match entry.get(
                        "supportedReasoningEfforts"@,
                    ) {
                        Some(Tree::Array(items)) => efforts(items),
                        _ => seq![],
                    })
                    &&& found.default_reasoning_effort == (match entry.get(
                        "defaultReasoningEffort"@,
                    ) {
                        Some(Tree::Text(text)) => Some(text),
                        _ => None,
                    })
                })
            },
            _ => models(list.push(entry)) == models(list),
        },
{
    assert(list.push(entry).drop_last() =~= list);
    assert(efforts(Seq::<Tree>::empty()) =~= Seq::<Seq<char>>::empty());
    if model(entry) is Some {
        assert(models(list.push(entry)).drop_last() =~= models(list));
    }
}

/// The models of an account are all that its pages list, one page after the other, and nothing
/// else, under the name of the account; the reading begins by asking for the account, and ends
/// at once where there is none.
pub proof fn law_a_status_is_what_the_pages_say(account: Tree, pages: Seq<Tree>, last: Tree)
    requires
        forall|i: int| 0 <= i < pages.len() ==> rpc::next_cursor(#[trigger] pages[i]) is Some,
        rpc::next_cursor(last) is None,
    ensures
        status_run(seq![]) matches StatusStepView::Ask(_, call) && call.method == "account/read"@
            && call.params == Tree::empty(),
        status::account_of(account) is None ==> status_run(seq![account])
            == StatusStepView::Failed("Codex CLI is not authenticated; run `codex login`"@),
        status::account_of(account) is Some ==> (status_run(
            seq![account] + pages.push(last),
        ) matches StatusStepView::Ready(status) && status.models == models(
            status::all_listed(pages.push(last)),
        ) && status.account_label == account_label(status::account_of(account)->0)),
{
    assert(seq![account].drop_last() =~= Seq::<Tree>::empty());
    assert(status_run(seq![account].drop_last()) == first_step());
    if status::account_of(account) is Some {
        law_status_reads_every_page(account, pages, last);
    }
}

/// What the values of this module show in contracts is what they hold, part by part: nothing is
/// left out, and nothing is changed.
pub proof fn law_values_show_what_they_hold(
    codex_model: &CodexModel,
    codex_status: &CodexStatus,
    status_reading: &StatusReading,
    status_step: &StatusStep,
)
    ensures
        codex_model.deep_view() == (CodexModelView {
            id: codex_model.id@,
            name: codex_model.name@,
            description: codex_model.description.deep_view(),
            is_default: codex_model.is_default,
            supported_reasoning_efforts: codex_model.supported_reasoning_efforts.deep_view(),
            default_reasoning_effort: codex_model.default_reasoning_effort.deep_view(),
        }),
        codex_status.deep_view() == (CodexStatusView { account_label: codex_status.account_label@, models: codex_status.models.deep_view() }),
        status_reading.deep_view() == (match status_reading {
            StatusReading::Account => StatusReadingView::Account,
            StatusReading::Models(status) => StatusReadingView::Models(status.deep_view()),
        }),
        status_step.deep_view() == (match status_step {
            StatusStep::Ask(reading, call) => StatusStepView::Ask(reading.deep_view(), call@),
            StatusStep::Ready(status) => StatusStepView::Ready(status.deep_view()),
            StatusStep::Failed(error) => StatusStepView::Failed(error@),
        }),
{
}

} // verus!
