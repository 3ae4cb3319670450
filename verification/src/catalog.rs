//! The models that a session offers: those of the Codex account beside those of Grok.

use vstd::prelude::*;

use crate::json;
use crate::json::{Json, Tree};
use crate::models::{CodexModel, CodexModelView, CodexStatus, CodexStatusView};
use crate::text;
use crate::text::{same_text, strip_prefix};

verus! {

/// What the identifier of a Codex model begins with.
pub const CODEX_MODEL_PREFIX: &'static str = "codex:";

/// The identifier under which a model of the account is offered.
pub open spec fn codex_id(id: Seq<char>) -> Seq<char> {
    CODEX_MODEL_PREFIX@ + id
}

/// Whether a model is one of the Codex account.
pub fn is_codex_model(model_id: &str) -> (r: bool)
    ensures
        r == text::has_prefix(model_id@, CODEX_MODEL_PREFIX@),
{
    strip_prefix(model_id, CODEX_MODEL_PREFIX).is_some()
}

/// A model that a session offers.
pub struct ModelInfo {
    pub model_id: String,
    pub name: String,
    pub description: Option<String>,
    pub meta: Option<Json>,
}

/// What an offered model means.
#[verifier::ext_equal]
pub struct ModelInfoView {
    pub model_id: Seq<char>,
    pub name: Seq<char>,
    pub description: Option<Seq<char>>,
    pub meta: Option<Tree>,
}

impl DeepView for ModelInfo {
    type V = ModelInfoView;

    open spec fn deep_view(&self) -> ModelInfoView {
        ModelInfoView {
            model_id: self.model_id@,
            name: self.name@,
            description: self.description.deep_view(),
            meta: self.meta.deep_view(),
        }
    }
}

/// The models of a session: the one in use, and those to choose from.
pub struct ModelState {
    pub current_model_id: String,
    pub available_models: Vec<ModelInfo>,
    pub meta: Option<Json>,
}

/// What the models of a session mean.
#[verifier::ext_equal]
pub struct ModelStateView {
    pub current_model_id: Seq<char>,
    pub available_models: Seq<ModelInfoView>,
    pub meta: Option<Tree>,
}

impl DeepView for ModelState {
    type V = ModelStateView;

    open spec fn deep_view(&self) -> ModelStateView {
        ModelStateView {
            current_model_id: self.current_model_id@,
            available_models: self.available_models.deep_view(),
            meta: self.meta.deep_view(),
        }
    }
}

/// What is attached to an offered model of the account.
pub open spec fn codex_meta(model: CodexModelView) -> Tree {
    let meta = Tree::empty()
        .with("provider"@, Tree::Text("codex"@))
        .with("providerModelId"@, Tree::Text(model.id))
        .with("acceptsImages"@, Tree::Bool(false))
        .with("isProviderDefault"@, Tree::Bool(model.is_default))
        .with("supportedReasoningEfforts"@, json::texts(model.supported_reasoning_efforts));
    match model.default_reasoning_effort {
        Some(effort) => meta.with("defaultReasoningEffort"@, Tree::Text(effort)),
        None => meta,
    }
}

/// How a model of the account is offered: under an identifier, a name and a description that
/// tell where it comes from.
pub open spec fn codex_info(model: CodexModelView, account_label: Seq<char>) -> ModelInfoView {
    let source = "OpenAI Codex via "@ + account_label;
    ModelInfoView {
        model_id: codex_id(model.id),
        name: "Codex - "@ + model.name,
        description: Some(
            match model.description {
                Some(description) => description + " - "@ + source,
                None => source,
            },
        ),
        meta: Some(codex_meta(model)),
    }
}

/// The identifier under which a model of the account is offered.
pub fn codex_model_id(id: &str) -> (r: String)
    ensures
        r@ == codex_id(id@),
{
    let mut model_id: String = CODEX_MODEL_PREFIX.to_owned();
    model_id.append(id);
    model_id
}

/// How a model of the account is offered: under an identifier, a name and a description that
/// tell where it comes from.
pub fn codex_model_info(model: &CodexModel, account_label: &str) -> (r: ModelInfo)
    ensures
        r.deep_view() == codex_info(model.deep_view(), account_label@),
{
    let mut name: String = "Codex - ".to_owned();
    name.append(model.name.as_str());
    let mut source: String = "OpenAI Codex via ".to_owned();
    source.append(account_label);
    let description: String = match &model.description {
        Some(description) => {
            let mut text: String = description.clone();
            text.append(" - ");
            text.append(source.as_str());
            text
        },
        None => source,
    };
    let meta = Json::object().with_text("provider", "codex").with_text(
        "providerModelId",
        model.id.as_str(),
    ).with("acceptsImages", Json::Bool(false)).with(
        "isProviderDefault",
        Json::Bool(model.is_default),
    ).with("supportedReasoningEfforts", Json::texts(&model.supported_reasoning_efforts));
    let meta = match &model.default_reasoning_effort {
        Some(effort) => meta.with_text("defaultReasoningEffort", effort.as_str()),
        None => meta,
    };
    ModelInfo {
        model_id: codex_model_id(model.id.as_str()),
        name,
        description: Some(description),
        meta: Some(meta),
    }
}

/// Whether a list has a model of the given identifier.
pub open spec fn lists(list: Seq<ModelInfoView>, model_id: Seq<char>) -> bool {
    exists|i: int| 0 <= i < list.len() && (#[trigger] list[i]).model_id == model_id
}

/// A list of models, followed by those of an account that it does not list yet.
pub open spec fn offered(
    list: Seq<ModelInfoView>,
    models: Seq<CodexModelView>,
    account_label: Seq<char>,
) -> Seq<ModelInfoView>
    decreases models.len(),
{
    if models.len() == 0 {
        list
    } else {
        let earlier = offered(list, models.drop_last(), account_label);
        let info = codex_info(models.last(), account_label);
        if lists(earlier, info.model_id) {
            earlier
        } else {
            earlier.push(info)
        }
    }
}

/// The models of a session, with those of the account beside them.
pub open spec fn with_offer(state: ModelStateView, status: CodexStatusView) -> ModelStateView {
    ModelStateView {
        available_models: offered(state.available_models, status.models, status.account_label),
        ..state
    }
}

fn is_listed(list: &Vec<ModelInfo>, model_id: &str) -> (r: bool)
    ensures
        r == lists(list.deep_view(), model_id@),
{
    let ghost all = list.deep_view();
    let mut i: usize = 0;
    while i < list.len()
        invariant
            0 <= i <= list@.len(),
            all == list.deep_view(),
            forall|k: int| 0 <= k < i ==> (#[trigger] all[k]).model_id != model_id@,
        decreases list@.len() - i,
    {
        assert(all[i as int].model_id == list@[i as int].model_id@);
        if same_text(list[i].model_id.as_str(), model_id) {
            return true;
        }
        i += 1;
    }
    false
}

/// Adds the models of the account to those of a session, each one that is not listed yet.
pub fn offer_models(state: &mut ModelState, status: &CodexStatus)
    ensures
        final(state).deep_view() == with_offer(old(state).deep_view(), status.deep_view()),
{
    let ghost list = state.available_models.deep_view();
    let ghost models = status.models.deep_view();
    let ghost label = status.account_label@;
    assert(models.take(0) =~= Seq::<CodexModelView>::empty());
    let mut i: usize = 0;
    while i < status.models.len()
        invariant
            0 <= i <= status.models@.len(),
            models == status.models.deep_view(),
            label == status.account_label@,
            state.current_model_id == old(state).current_model_id,
            state.meta == old(state).meta,
            state.available_models.deep_view() == offered(list, models.take(i as int), label),
        decreases status.models@.len() - i,
    {
        let info = codex_model_info(&status.models[i], status.account_label.as_str());
        let ghost before = state.available_models.deep_view();
        proof {
            assert(models.take(i + 1).drop_last() =~= models.take(i as int));
            assert(models.take(i + 1).last() == models[i as int]);
        }
        if !is_listed(&state.available_models, info.model_id.as_str()) {
            state.available_models.push(info);
            assert(state.available_models.deep_view() =~= before.push(info.deep_view()));
        }
        i += 1;
    }
    assert(models.take(i as int) =~= models);
}

/// The identifiers of Codex models are safe from collisions: two different models are
/// offered under different identifiers, no identifier without the prefix is one of them, and
/// the model can be told from its identifier.
pub proof fn law_codex_ids_are_collision_safe(a: Seq<char>, b: Seq<char>)
    ensures
        codex_id(a) == codex_id(b) ==> a == b,
        text::has_prefix(codex_id(a), CODEX_MODEL_PREFIX@),
        text::without_prefix(codex_id(a), CODEX_MODEL_PREFIX@) == Some(a),
        !text::has_prefix(b, CODEX_MODEL_PREFIX@) ==> codex_id(a) != b,
        text::has_prefix(b, CODEX_MODEL_PREFIX@) ==> codex_id(
            text::without_prefix(b, CODEX_MODEL_PREFIX@)->0,
        ) == b,
{
    let prefix = CODEX_MODEL_PREFIX@;
    let n = prefix.len() as int;
    assert(codex_id(a).take(n) =~= prefix);
    assert(codex_id(a).skip(n) =~= a);
    assert(codex_id(b).skip(n) =~= b);
    if text::has_prefix(b, prefix) {
        assert(codex_id(b.skip(n)) =~= b) by {
            assert(b.take(n) == prefix);
        }
    }
}

proof fn lemma_offered(
    list: Seq<ModelInfoView>,
    models: Seq<CodexModelView>,
    account_label: Seq<char>,
)
    ensures
        ({
            let all = offered(list, models, account_label);
            &&& list.len() <= all.len()
            &&& all.take(list.len() as int) == list
            &&& forall|i: int|
                0 <= i < models.len() ==> lists(all, codex_id((#[trigger] models[i]).id))
            &&& forall|k: int|
                list.len() <= k < all.len() ==> exists|i: int|
                    0 <= i < models.len() && #[trigger] all[k] == codex_info(
                        #[trigger] models[i],
                        account_label,
                    )
        }),
    decreases models.len(),
{
    let all = offered(list, models, account_label);
    if models.len() == 0 {
        assert(all.take(list.len() as int) =~= list);
    } else {
        let front = models.drop_last();
        let earlier = offered(list, front, account_label);
        lemma_offered(list, front, account_label);
        assert(all.take(list.len() as int) =~= earlier.take(list.len() as int));
        assert forall|i: int| 0 <= i < models.len() implies lists(
            all,
            codex_id((#[trigger] models[i]).id),
        ) by {
            if i < front.len() {
                assert(front[i] == models[i]);
                let k = choose|k: int|
                    0 <= k < earlier.len() && (#[trigger] earlier[k]).model_id == codex_id(
                        models[i].id,
                    );
                assert(all[k] == earlier[k]);
            } else if !lists(earlier, codex_id(models[i].id)) {
                assert(all[earlier.len() as int].model_id == codex_id(models[i].id));
            }
        }
        assert forall|k: int| list.len() <= k < all.len() implies exists|i: int|
            0 <= i < models.len() && #[trigger] all[k] == codex_info(
                #[trigger] models[i],
                account_label,
            ) by {
            if k < earlier.len() {
                assert(all[k] == earlier[k]);
                let i = choose|i: int|
                    0 <= i < front.len() && earlier[k] == codex_info(
                        #[trigger] front[i],
                        account_label,
                    );
                assert(models[i] == front[i]);
            } else {
                assert(all[k] == codex_info(models[models.len() - 1], account_label));
            }
        }
    }
}

/// The account's models are offered beside those that a session has: these stay first, as
/// they were and in their order, every model of the account is then listed, and nothing else
/// is added. The model in use stays in use.
pub proof fn law_offer_keeps_and_completes(state: ModelStateView, status: CodexStatusView)
    ensures
        ({
            let had = state.available_models;
            let has = with_offer(state, status).available_models;
            &&& had.len() <= has.len()
            &&& has.take(had.len() as int) == had
            &&& forall|i: int|
                0 <= i < status.models.len() ==> lists(
                    has,
                    codex_id((#[trigger] status.models[i]).id),
                )
            &&& forall|k: int|
                had.len() <= k < has.len() ==> exists|i: int|
                    0 <= i < status.models.len() && #[trigger] has[k] == codex_info(
                        #[trigger] status.models[i],
                        status.account_label,
                    )
        }),
        with_offer(state, status).current_model_id == state.current_model_id,
        with_offer(state, status).meta == state.meta,
{
    lemma_offered(state.available_models, status.models, status.account_label);
}

/// Whether no two models of a list have the same identifier.
pub open spec fn distinct(list: Seq<ModelInfoView>) -> bool {
    forall|i: int, j: int|
        0 <= i < j < list.len() ==> (#[trigger] list[i]).model_id != (#[trigger] list[j]).model_id
}

/// No model comes to be listed twice: where no two models of a session have the same
/// identifier, none have after the account's models are offered, even where the account
/// lists a model twice.
pub proof fn law_offer_lists_no_model_twice(
    list: Seq<ModelInfoView>,
    models: Seq<CodexModelView>,
    account_label: Seq<char>,
)
    requires
        distinct(list),
    ensures
        distinct(offered(list, models, account_label)),
    decreases models.len(),
{
    if models.len() > 0 {
        law_offer_lists_no_model_twice(list, models.drop_last(), account_label);
    }
}

proof fn lemma_nothing_to_offer(
    list: Seq<ModelInfoView>,
    models: Seq<CodexModelView>,
    account_label: Seq<char>,
)
    requires
        forall|i: int| 0 <= i < models.len() ==> lists(list, codex_id((#[trigger] models[i]).id)),
    ensures
        offered(list, models, account_label) == list,
    decreases models.len(),
{
    if models.len() > 0 {
        let front = models.drop_last();
        assert forall|i: int| 0 <= i < front.len() implies lists(
            list,
            codex_id((#[trigger] front[i]).id),
        ) by {
            assert(front[i] == models[i]);
        }
        lemma_nothing_to_offer(list, front, account_label);
        assert(lists(list, codex_id(models[models.len() - 1].id)));
    }
}

/// To offer the account's models once more changes nothing.
pub proof fn law_offer_is_idempotent(state: ModelStateView, status: CodexStatusView)
    ensures
        with_offer(with_offer(state, status), status) == with_offer(state, status),
{
    lemma_offered(state.available_models, status.models, status.account_label);
    lemma_nothing_to_offer(
        with_offer(state, status).available_models,
        status.models,
        status.account_label,
    );
}

/// A model of the account is offered as what it is: under its prefixed identifier, by its name
/// and description with where it comes from, and with what is known of it attached, which
/// leaves out an effort that it does not have.
pub proof fn law_models_are_offered_as_what_they_are(
    model: CodexModelView,
    account_label: Seq<char>,
    other: Seq<char>,
)
    ensures
        ({
            let info = codex_info(model, account_label);
            &&& info.model_id == "codex:"@ + model.id
            &&& info.name == "Codex - "@ + model.name
            &&& info.description == Some(
                match model.description {
                    Some(text) => text + " - "@ + ("OpenAI Codex via "@ + account_label),
                    None => "OpenAI Codex via "@ + account_label,
                },
            )
            &&& info.meta matches Some(meta) && {
                &&& meta.get("provider"@) == Some(Tree::Text("codex"@))
                &&& meta.get("providerModelId"@) == Some(Tree::Text(model.id))
                &&& meta.get("acceptsImages"@) == Some(Tree::Bool(false))
                &&& meta.get("isProviderDefault"@) == Some(Tree::Bool(model.is_default))
                &&& meta.get("supportedReasoningEfforts"@) matches Some(Tree::Array(items))
                    && items.len() == model.supported_reasoning_efforts.len() && forall|i: int|
                    0 <= i < items.len() ==> #[trigger] items[i] == Tree::Text(
                        model.supported_reasoning_efforts[i],
                    )
                &&& model.default_reasoning_effort matches Some(effort) ==> meta.get(
                    "defaultReasoningEffort"@,
                ) == Some(Tree::Text(effort))
                &&& model.default_reasoning_effort is None ==> meta.get(
                    "defaultReasoningEffort"@,
                ) is None
                &&& other != "provider"@ && other != "providerModelId"@ && other
                    != "acceptsImages"@ && other != "isProviderDefault"@ && other
                    != "supportedReasoningEfforts"@ && other != "defaultReasoningEffort"@
                    ==> meta.get(other) is None
            }
        }),
{
    reveal_strlit("provider");
    reveal_strlit("providerModelId");
    reveal_strlit("acceptsImages");
    reveal_strlit("isProviderDefault");
    reveal_strlit("supportedReasoningEfforts");
    reveal_strlit("defaultReasoningEffort");
    assert("provider"@.len() == 8 && "providerModelId"@.len() == 15 && "acceptsImages"@.len() == 13 && "isProviderDefault"@.len() == 17 && "supportedReasoningEfforts"@.len() == 25 && "defaultReasoningEffort"@.len() == 22);
}

/// Models are offered one after the other, in the order of the account: one more is added at
/// the end, unless one of its identifier is already there. Without a model nothing is added.
pub proof fn law_models_are_offered_in_order(
    list: Seq<ModelInfoView>,
    models: Seq<CodexModelView>,
    model: CodexModelView,
    account_label: Seq<char>,
)
    ensures
        offered(list, seq![], account_label) == list,
        ({
            let before = offered(list, models, account_label);
            let after = offered(list, models.push(model), account_label);
            if exists|i: int|
                0 <= i < before.len() && (#[trigger] before[i]).model_id == "codex:"@ + model.id {
                after == before
            } else {
                after == before.push(codex_info(model, account_label))
            }
        }),
{
    assert(models.push(model).drop_last() =~= models);
}

/// What the values of this module show in contracts is what they hold, part by part: nothing is
/// left out, and nothing is changed.
pub proof fn law_values_show_what_they_hold(
    model_info: &ModelInfo,
    model_state: &ModelState,
)
    ensures
        model_info.deep_view() == (ModelInfoView {
            model_id: model_info.model_id@,
            name: model_info.name@,
            description: model_info.description.deep_view(),
            meta: model_info.meta.deep_view(),
        }),
        model_state.deep_view() == (ModelStateView {
            current_model_id: model_state.current_model_id@,
            available_models: model_state.available_models.deep_view(),
            meta: model_state.meta.deep_view(),
        }),
{
}

} // verus!
