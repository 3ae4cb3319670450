//! What a Codex account has to offer: who it is, and which models it can use.

use vstd::prelude::*;

use crate::json;
use crate::json::{array_in, str_in, str_in_or, true_in, Json, Tree};
use crate::rpc;
use crate::rpc::{Call, CallView};
use crate::text::same_text;

verus! {

/// An account and its models.
pub struct CodexStatus {
    pub account_label: String,
    pub models: Vec<String>,
    pub default_model: Option<String>,
}

/// What the status of an account means.
#[verifier::ext_equal]
pub struct CodexStatusView {
    pub account_label: Seq<char>,
    pub models: Seq<Seq<char>>,
    pub default_model: Option<Seq<char>>,
}

impl DeepView for CodexStatus {
    type V = CodexStatusView;

    open spec fn deep_view(&self) -> CodexStatusView {
        CodexStatusView {
            account_label: self.account_label@,
            models: self.models.deep_view(),
            default_model: self.default_model.deep_view(),
        }
    }
}

/// The account in a response, where there is one that is not `null`.
pub open spec fn account_of(response: Tree) -> Option<Tree> {
    match response.get("account"@) {
        Some(Tree::Null) => None,
        found => found,
    }
}

/// The account in a response, where there is one that is not `null`.
pub fn account_in(response: &Json) -> (r: Option<&Json>)
    ensures
        r.deep_view() == account_of(response@),
{
    match response.get("account") {
        Some(account) => if account.is_null() {
            None
        } else {
            Some(account)
        },
        None => None,
    }
}

/// How a ChatGPT account is called: after its plan.
pub open spec fn chatgpt_label(account: Tree) -> Seq<char> {
    "ChatGPT "@ + json::text_or(account.get("planType"@), "authenticated"@) + " subscription"@
}

/// How a ChatGPT account is called: after its plan.
pub fn label_chatgpt(account: &Json) -> (r: String)
    ensures
        r@ == chatgpt_label(account@),
{
    let mut label: String = "ChatGPT ".to_owned();
    label.append(str_in_or(account.get("planType"), "authenticated"));
    label.append(" subscription");
    label
}

/// How an account is called: after its plan, the kind of its key, or else its type.
pub open spec fn account_label(account: Tree) -> Seq<char> {
    match json::text_of(account.get("type"@)) {
        Some(kind) => if kind == "chatgpt"@ {
            chatgpt_label(account)
        } else if kind == "apiKey"@ {
            "OpenAI API key"@
        } else if kind == "amazonBedrock"@ {
            "Amazon Bedrock"@
        } else {
            kind
        },
        None => "authenticated Codex account"@,
    }
}

/// How an account is called: after its plan, the kind of its key, or else its type.
pub fn label_account(account: &Json) -> (r: String)
    ensures
        r@ == account_label(account@),
{
    match str_in(account.get("type")) {
        Some(kind) => if same_text(kind, "chatgpt") {
            label_chatgpt(account)
        } else if same_text(kind, "apiKey") {
            "OpenAI API key".to_owned()
        } else if same_text(kind, "amazonBedrock") {
            "Amazon Bedrock".to_owned()
        } else {
            kind.to_owned()
        },
        None => "authenticated Codex account".to_owned(),
    }
}

/// The models on a page, as the page lists them.
pub open spec fn listed(response: Tree) -> Seq<Tree> {
    json::items_of(response.get("data"@))
}

/// The identifiers in a list of models, in order. A model without one is left out.
pub open spec fn model_ids(list: Seq<Tree>) -> Seq<Seq<char>>
    decreases list.len(),
{
    if list.len() == 0 {
        seq![]
    } else {
        let earlier = model_ids(list.drop_last());
        match json::text_of(list.last().get("model"@)) {
            Some(id) => earlier.push(id),
            None => earlier,
        }
    }
}

/// The last model in a list that is marked as the default, or else `before`.
pub open spec fn marked_default(before: Option<Seq<char>>, list: Seq<Tree>) -> Option<Seq<char>>
    decreases list.len(),
{
    if list.len() == 0 {
        before
    } else {
        let id = json::text_of(list.last().get("model"@));
        if id is Some && json::is_true(list.last().get("isDefault"@)) {
            id
        } else {
            marked_default(before, list.drop_last())
        }
    }
}

impl CodexStatusView {
    /// The status with the models of one page more.
    pub open spec fn with_page(self, response: Tree) -> CodexStatusView {
        CodexStatusView {
            account_label: self.account_label,
            models: self.models + model_ids(listed(response)),
            default_model: marked_default(self.default_model, listed(response)),
        }
    }

    /// The status with the first model as the default where none is marked.
    pub open spec fn completed(self) -> CodexStatusView {
        CodexStatusView {
            default_model: match self.default_model {
                Some(id) => Some(id),
                None => if self.models.len() > 0 {
                    Some(self.models[0])
                } else {
                    None
                },
            },
            ..self
        }
    }
}

fn add_page(status: CodexStatus, response: &Json) -> (r: CodexStatus)
    ensures
        r.deep_view() == status.deep_view().with_page(response@),
{
    let ghost all = listed(response@);
    let ghost first = status.deep_view();
    let mut status = status;
    match array_in(response.get("data")) {
        Some(list) => {
            let mut i: usize = 0;
            proof {
                assert(all.take(0) =~= Seq::<Tree>::empty());
                assert(first.models + model_ids(all.take(0)) =~= first.models);
            }
            while i < list.len()
                invariant
                    0 <= i <= list@.len(),
                    all == list.deep_view(),
                    status.account_label@ == first.account_label,
                    status.models.deep_view() == first.models + model_ids(all.take(i as int)),
                    status.default_model.deep_view() == marked_default(
                        first.default_model,
                        all.take(i as int),
                    ),
                decreases list@.len() - i,
            {
                let model = &list[i];
                proof {
                    assert(all.take(i + 1).drop_last() =~= all.take(i as int));
                    assert(all.take(i + 1).last() == model@);
                }
                if let Some(id) = str_in(model.get("model")) {
                    let ghost before = status.models.deep_view();
                    if true_in(model.get("isDefault")) {
                        status.default_model = Some(id.to_owned());
                    }
                    status.models.push(id.to_owned());
                    proof {
                        assert(status.models.deep_view() =~= before.push(id@));
                        assert(first.models + model_ids(all.take(i + 1)) =~= (first.models
                            + model_ids(all.take(i as int))).push(id@));
                    }
                }
                i += 1;
            }
            proof {
                assert(all.take(i as int) =~= all);
            }
        },
        None => {
            assert(first.models + model_ids(all) =~= first.models);
        },
    }
    status
}

fn complete(status: CodexStatus) -> (r: CodexStatus)
    ensures
        r.deep_view() == status.deep_view().completed(),
{
    if status.default_model.is_none() && status.models.len() > 0 {
        let first = status.models[0].clone();
        CodexStatus { default_model: Some(first), ..status }
    } else {
        status
    }
}

/// How far the reading of a status has come.
pub enum StatusReading {
    /// The account has been asked for.
    Account,
    /// A page of models has been asked for; the models so far.
    Models(CodexStatus),
}

/// How far the reading of a status has come.
pub enum StatusReadingView {
    Account,
    Models(CodexStatusView),
}

impl DeepView for StatusReading {
    type V = StatusReadingView;

    open spec fn deep_view(&self) -> StatusReadingView {
        match self {
            StatusReading::Account => StatusReadingView::Account,
            StatusReading::Models(status) => StatusReadingView::Models(status.deep_view()),
        }
    }
}

/// What is to be done to read a status.
pub enum StatusStep {
    /// Make a call, and go on with its result.
    Ask(StatusReading, Call),
    Ready(CodexStatus),
    Failed(String),
}

/// What a step of reading a status means.
pub enum StatusStepView {
    Ask(StatusReadingView, CallView),
    Ready(CodexStatusView),
    Failed(Seq<char>),
}

impl DeepView for StatusStep {
    type V = StatusStepView;

    open spec fn deep_view(&self) -> StatusStepView {
        match self {
            StatusStep::Ask(reading, call) => StatusStepView::Ask(reading.deep_view(), call@),
            StatusStep::Ready(status) => StatusStepView::Ready(status.deep_view()),
            StatusStep::Failed(error) => StatusStepView::Failed(error@),
        }
    }
}

/// The first step: to ask for the account.
pub open spec fn first_step() -> StatusStepView {
    StatusStepView::Ask(
        StatusReadingView::Account,
        CallView { method: "account/read"@, params: Tree::empty() },
    )
}

/// The step that follows a result: after the account the first page of models, after a page
/// the next one, and after the last page the end.
pub open spec fn status_step(reading: StatusReadingView, response: Tree) -> StatusStepView {
    match reading {
        StatusReadingView::Account => match account_of(response) {
            Some(account) => StatusStepView::Ask(
                StatusReadingView::Models(
                    CodexStatusView {
                        account_label: account_label(account),
                        models: seq![],
                        default_model: None,
                    },
                ),
                rpc::model_list_view(None),
            ),
            None => StatusStepView::Failed(
                "Codex CLI is not authenticated; run `codex login` and try again"@,
            ),
        },
        StatusReadingView::Models(status) => {
            let more = status.with_page(response);
            match rpc::next_cursor(response) {
                Some(cursor) => StatusStepView::Ask(
                    StatusReadingView::Models(more),
                    rpc::model_list_view(Some(cursor)),
                ),
                None => StatusStepView::Ready(more.completed()),
            }
        },
    }
}

/// The first step of reading a status.
pub fn status() -> (r: StatusStep)
    ensures
        r.deep_view() == first_step(),
{
    StatusStep::Ask(StatusReading::Account, rpc::account_call())
}

impl StatusReading {
    /// The step that follows a result.
    pub fn next(self, response: &Json) -> (r: StatusStep)
        ensures
            r.deep_view() == status_step(self.deep_view(), response@),
    {
        match self {
            StatusReading::Account => match account_in(response) {
                Some(account) => {
                    let status = CodexStatus {
                        account_label: label_account(account),
                        models: Vec::new(),
                        default_model: None,
                    };
                    assert(status.models.deep_view() =~= Seq::<Seq<char>>::empty());
                    StatusStep::Ask(StatusReading::Models(status), rpc::model_list_call(None))
                },
                None => StatusStep::Failed(
                    "Codex CLI is not authenticated; run `codex login` and try again".to_owned(),
                ),
            },
            StatusReading::Models(status) => {
                let more = add_page(status, response);
                match str_in(response.get("nextCursor")) {
                    Some(cursor) => StatusStep::Ask(
                        StatusReading::Models(more),
                        rpc::model_list_call(Some(cursor)),
                    ),
                    None => StatusStep::Ready(complete(more)),
                }
            },
        }
    }
}

/// Where the reading of a status stands after some results.
pub open spec fn status_run(responses: Seq<Tree>) -> StatusStepView
    decreases responses.len(),
{
    if responses.len() == 0 {
        first_step()
    } else {
        match status_run(responses.drop_last()) {
            StatusStepView::Ask(reading, _) => status_step(reading, responses.last()),
            over => over,
        }
    }
}

/// The models on all of a list of pages.
pub open spec fn all_listed(pages: Seq<Tree>) -> Seq<Tree>
    decreases pages.len(),
{
    if pages.len() == 0 {
        seq![]
    } else {
        all_listed(pages.drop_last()) + listed(pages.last())
    }
}

proof fn lemma_model_ids_concat(a: Seq<Tree>, b: Seq<Tree>)
    ensures
        model_ids(a + b) == model_ids(a) + model_ids(b),
    decreases b.len(),
{
    if b.len() == 0 {
        assert(a + b =~= a);
        assert(model_ids(a) + model_ids(b) =~= model_ids(a));
    } else {
        lemma_model_ids_concat(a, b.drop_last());
        assert((a + b).drop_last() =~= a + b.drop_last());
        assert(model_ids(a + b) =~= model_ids(a) + model_ids(b));
    }
}

proof fn lemma_marked_default_concat(before: Option<Seq<char>>, a: Seq<Tree>, b: Seq<Tree>)
    ensures
        marked_default(before, a + b) == marked_default(marked_default(before, a), b),
    decreases b.len(),
{
    if b.len() == 0 {
        assert(a + b =~= a);
    } else {
        lemma_marked_default_concat(before, a, b.drop_last());
        assert((a + b).drop_last() =~= a + b.drop_last());
    }
}

proof fn lemma_status_pages(account: Tree, pages: Seq<Tree>)
    requires
        account_of(account) is Some,
        forall|i: int| 0 <= i < pages.len() ==> rpc::next_cursor(#[trigger] pages[i]) is Some,
    ensures
        status_run(seq![account] + pages) == StatusStepView::Ask(
            StatusReadingView::Models(
                CodexStatusView {
                    account_label: account_label(account_of(account)->0),
                    models: model_ids(all_listed(pages)),
                    default_model: marked_default(None, all_listed(pages)),
                },
            ),
            rpc::model_list_view(
                if pages.len() == 0 {
                    None
                } else {
                    rpc::next_cursor(pages.last())
                },
            ),
        ),
    decreases pages.len(),
{
    let all = seq![account] + pages;
    if pages.len() == 0 {
        assert(all =~= seq![account]);
        assert(all.drop_last() =~= Seq::<Tree>::empty());
        assert(model_ids(all_listed(pages)) =~= seq![]);
        assert(status_run(all.drop_last()) == first_step());
    } else {
        let front = pages.drop_last();
        assert forall|i: int| 0 <= i < front.len() implies rpc::next_cursor(
            #[trigger] front[i],
        ) is Some by {
            assert(front[i] == pages[i]);
        }
        lemma_status_pages(account, front);
        assert(all.drop_last() =~= seq![account] + front);
        assert(all.last() == pages.last());
        assert(pages[pages.len() - 1] == pages.last());
        lemma_model_ids_concat(all_listed(front), listed(pages.last()));
        lemma_marked_default_concat(None, all_listed(front), listed(pages.last()));
    }
}

/// The models of the account are found on every page: the reading of a status asks for the
/// account, then for one page after another, each by the cursor of the one before, and ends
/// with the first page that names no further one. It then has the models of all pages in
/// order. Its default is the last model that is marked as such, or else the first one.
pub proof fn law_status_reads_every_page(account: Tree, pages: Seq<Tree>, last: Tree)
    requires
        account_of(account) is Some,
        forall|i: int| 0 <= i < pages.len() ==> rpc::next_cursor(#[trigger] pages[i]) is Some,
        rpc::next_cursor(last) is None,
    ensures
        status_run(seq![account] + pages.push(last)) == StatusStepView::Ready(
            CodexStatusView {
                account_label: account_label(account_of(account)->0),
                models: model_ids(all_listed(pages.push(last))),
                default_model: marked_default(None, all_listed(pages.push(last))),
            }.completed(),
        ),
        status_run(seq![account] + pages) matches StatusStepView::Ask(_, call) && call
            == rpc::model_list_view(
            if pages.len() == 0 {
                None
            } else {
                rpc::next_cursor(pages.last())
            },
        ),
{
    lemma_status_pages(account, pages);
    let all = seq![account] + pages.push(last);
    assert(all.drop_last() =~= seq![account] + pages);
    assert(all.last() == last);
    assert(pages.push(last).drop_last() =~= pages);
    lemma_model_ids_concat(all_listed(pages), listed(last));
    lemma_marked_default_concat(None, all_listed(pages), listed(last));
}

proof fn lemma_marked_is_listed(list: Seq<Tree>)
    ensures
        marked_default(None, list) is Some ==> model_ids(list).contains(
            marked_default(None, list)->0,
        ),
    decreases list.len(),
{
    if list.len() > 0 {
        lemma_marked_is_listed(list.drop_last());
        let earlier = model_ids(list.drop_last());
        let all = model_ids(list);
        let id = json::text_of(list.last().get("model"@));
        if id is Some {
            assert(all =~= earlier.push(id->0));
            assert(all[all.len() - 1] == id->0);
        }
        if marked_default(None, list.drop_last()) is Some {
            let i = choose|i: int|
                0 <= i < earlier.len() && earlier[i] == marked_default(None, list.drop_last())->0;
            assert(all[i] == earlier[i]);
        }
    }
}

/// An account that has models has a default, which is one of them; one that has none has no
/// default.
pub proof fn law_default_is_a_model(label: Seq<char>, list: Seq<Tree>)
    ensures
        ({
            let status = CodexStatusView {
                account_label: label,
                models: model_ids(list),
                default_model: marked_default(None, list),
            }.completed();
            match status.default_model {
                Some(id) => status.models.contains(id),
                None => status.models.len() == 0,
            }
        }),
{
    lemma_marked_is_listed(list);
    let ids = model_ids(list);
    if ids.len() > 0 {
        assert(ids.contains(ids[0]));
    }
}

/// An account is there exactly where the response has one that is not `null`, and is called
/// after its plan where it is one of ChatGPT, after its key where it has one, after the cloud that
/// lends it, and otherwise
/// by its type.
pub proof fn law_accounts_are_called_after_what_they_are(response: Tree, account: Tree)
    ensures
        account_of(response) == Some(account) <==> response.get("account"@) == Some(account)
            && account != Tree::Null,
        match account.get("type"@) {
            Some(Tree::Text(kind)) => if kind == "chatgpt"@ {
                account_label(account) == "ChatGPT "@ + (match account.get("planType"@) {
                    Some(Tree::Text(plan)) => plan,
                    _ => "authenticated"@,
                }) + " subscription"@
            } else if kind == "apiKey"@ {
                account_label(account) == "OpenAI API key"@
            } else if kind == "amazonBedrock"@ {
                account_label(account) == "Amazon Bedrock"@
            } else {
                account_label(account) == kind
            },
            _ => account_label(account) == "authenticated Codex account"@,
        },
{
}

/// The models of a page are those in its `data`, and those of two lists are those of the one
/// followed by those of the other. A model counts exactly where it has a text for its
/// identifier.
pub proof fn law_models_are_those_with_an_id(page: Tree, list: Seq<Tree>, more: Seq<Tree>, entry: Tree)
    ensures
        match page.get("data"@) {
            Some(Tree::Array(items)) => listed(page) == items,
            _ => listed(page).len() == 0,
        },
        model_ids(seq![]).len() == 0,
        model_ids(list + more) == model_ids(list) + model_ids(more),
        match entry.get("model"@) {
            Some(Tree::Text(id)) => model_ids(seq![entry]) == seq![id],
            _ => model_ids(seq![entry]).len() == 0,
        },
{
    lemma_model_ids_concat(list, more);
    assert(seq![entry].drop_last() =~= Seq::<Tree>::empty());
    assert(model_ids(seq![entry].drop_last()).len() == 0);
    if let Some(Tree::Text(id)) = entry.get("model"@) {
        assert(model_ids(seq![entry]) =~= seq![id]);
    }
}

/// Whether an entry of a list is a model that is marked as the default: it has an identifier,
/// and its mark is `true`, not merely there.
pub open spec fn is_marked(entry: Tree) -> bool {
    entry.get("model"@) matches Some(Tree::Text(_)) && entry.get("isDefault"@) == Some(
        Tree::Bool(true),
    )
}

proof fn lemma_last_marked(before: Option<Seq<char>>, list: Seq<Tree>, i: int)
    ensures
        0 <= i < list.len() && is_marked(list[i]) && (forall|k: int|
            i < k < list.len() ==> !is_marked(#[trigger] list[k])) ==> Some(
            Tree::Text(marked_default(before, list)->0),
        ) == list[i].get("model"@) && marked_default(before, list) is Some,
        (forall|k: int| 0 <= k < list.len() ==> !is_marked(#[trigger] list[k]))
            ==> marked_default(before, list) == before,
    decreases list.len(),
{
    if list.len() > 0 {
        let front = list.drop_last();
        lemma_last_marked(before, front, i);
        assert(list[list.len() - 1] == list.last());
        assert forall|k: int| 0 <= k < front.len() implies #[trigger] front[k] == list[k] by {}
    }
}

/// The default model is the last one on any page whose mark is `true`. A model whose mark is
/// `false` or missing is the default only where no model's mark is `true`, and then only if it
/// is the first model of all. An account without models has no default.
pub proof fn law_default_is_the_last_that_is_marked(
    account: Tree,
    pages: Seq<Tree>,
    last: Tree,
    i: int,
)
    requires
        account_of(account) is Some,
        forall|i: int| 0 <= i < pages.len() ==> rpc::next_cursor(#[trigger] pages[i]) is Some,
        rpc::next_cursor(last) is None,
    ensures
        ({
            let list = all_listed(pages.push(last));
            status_run(seq![account] + pages.push(last)) matches StatusStepView::Ready(status) && {
                &&& 0 <= i < list.len() && is_marked(list[i]) && (forall|k: int|
                    i < k < list.len() ==> !is_marked(#[trigger] list[k]))
                    ==> status.default_model is Some && Some(
                    Tree::Text(status.default_model->0),
                ) == list[i].get("model"@)
                &&& (forall|k: int| 0 <= k < list.len() ==> !is_marked(#[trigger] list[k])) ==> {
                    &&& status.models.len() == 0 ==> status.default_model is None
                    &&& status.models.len() > 0 ==> status.default_model == Some(status.models[0])
                }
            }
        }),
{
    law_status_reads_every_page(account, pages, last);
    lemma_last_marked(None, all_listed(pages.push(last)), i);
}

/// The models of an account are all that its pages list, one page after the other, and nothing
/// else, under the name of the account; the reading begins by asking for the account, and ends
/// at once where there is none.
pub proof fn law_a_status_is_what_the_pages_say(account: Tree, pages: Seq<Tree>, last: Tree)
    requires
        forall|i: int| 0 <= i < pages.len() ==> rpc::next_cursor(#[trigger] pages[i]) is Some,
        rpc::next_cursor(last) is None,
    ensures
        status_run(seq![]) matches StatusStepView::Ask(_, call) && call.method == "account/read"@
            && call.params == Tree::empty(),
        account_of(account) is None ==> status_run(seq![account]) == StatusStepView::Failed(
            "Codex CLI is not authenticated; run `codex login` and try again"@,
        ),
        account_of(account) is Some ==> (status_run(
            seq![account] + pages.push(last),
        ) matches StatusStepView::Ready(status) && status.models == model_ids(
            all_listed(pages.push(last)),
        ) && status.account_label == account_label(account_of(account)->0)),
{
    assert(seq![account].drop_last() =~= Seq::<Tree>::empty());
    assert(status_run(seq![account].drop_last()) == first_step());
    if account_of(account) is Some {
        law_status_reads_every_page(account, pages, last);
    }
}

/// What the values of this module show in contracts is what they hold, part by part: nothing is
/// left out, and nothing is changed.
pub proof fn law_values_show_what_they_hold(
    codex_status: &CodexStatus,
    status_reading: &StatusReading,
    status_step: &StatusStep,
)
    ensures
        codex_status.deep_view() == (CodexStatusView {
            account_label: codex_status.account_label@,
            models: codex_status.models.deep_view(),
            default_model: codex_status.default_model.deep_view(),
        }),
        status_reading.deep_view() == (match status_reading {
            StatusReading::Account => StatusReadingView::Account,
            StatusReading::Models(status) => StatusReadingView::Models(status.deep_view()),
        }),
        status_step.deep_view() == (match status_step {
            StatusStep::Ask(reading, call) => StatusStepView::Ask(reading.deep_view(), call@),
            StatusStep::Ready(status) => StatusStepView::Ready(status.deep_view()),
            StatusStep::Failed(error) => StatusStepView::Failed(error@),
        }),
{
}

} // verus!
