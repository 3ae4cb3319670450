//! The models of a session as the Agent Client Protocol writes them in JSON.

use serde_json::Value;
use vstd::prelude::*;

use crate::catalog::{ModelInfo, ModelInfoView, ModelState, ModelStateView};
use crate::codec;
use crate::json::{Json, Tree};

verus! {

/// A model as the protocol's crate holds it.
struct RawModel {
    model_id: String,
    name: String,
    description: Option<String>,
    meta: Option<serde_json::Map<String, Value>>,
}

/// The models of a session as the protocol's crate holds them.
struct RawState {
    current_model_id: String,
    available_models: Vec<RawModel>,
    meta: Option<serde_json::Map<String, Value>>,
}

spec fn raw_meta(meta: Option<serde_json::Map<String, Value>>) -> Option<Tree> {
    match meta {
        Some(map) => Some(Tree::Object(codec::entries(map))),
        None => None,
    }
}

spec fn raw_model(raw: RawModel) -> ModelInfoView {
    ModelInfoView {
        model_id: raw.model_id@,
        name: raw.name@,
        description: raw.description.deep_view(),
        meta: raw_meta(raw.meta),
    }
}

spec fn raw_models(list: Seq<RawModel>) -> Seq<ModelInfoView> {
    Seq::new(list.len(), |i: int| raw_model(list[i]))
}

spec fn raw_state(raw: RawState) -> ModelStateView {
    ModelStateView {
        current_model_id: raw.current_model_id@,
        available_models: raw_models(raw.available_models@),
        meta: raw_meta(raw.meta),
    }
}

/// The models of a session that the protocol's crate reads in a JSON value; `None` where it
/// refuses the value.
pub uninterp spec fn session_state(tree: Tree) -> Option<ModelStateView>;

/// `serde_json::from_value` reads a value as the protocol's `SessionModelState`, or refuses
/// it. Which values it refuses, and what it makes of the others, is left to the name.
#[verifier::external_body]
fn read_state(value: Value) -> (r: Option<RawState>)
    ensures
        match r {
            Some(raw) => session_state(codec::document(value)) == Some(raw_state(raw)),
            None => session_state(codec::document(value)) is None,
        },
{
    let state: agent_client_protocol::SessionModelState = serde_json::from_value(value).ok()?;
    let models = state.available_models.into_iter().map(|info| RawModel {
        model_id: info.model_id.0.to_string(),
        name: info.name,
        description: info.description,
        meta: info.meta,
    });
    Some(RawState {
        current_model_id: state.current_model_id.0.to_string(),
        available_models: models.collect(),
        meta: state.meta,
    })
}

/// `tree` with what is attached to it, where anything is.
pub open spec fn with_meta(tree: Tree, meta: Option<Tree>) -> Tree {
    match meta {
        Some(meta) => tree.with("_meta"@, meta),
        None => tree,
    }
}

/// A model in JSON.
pub open spec fn model_tree(info: ModelInfoView) -> Tree {
    let named = Tree::empty()
        .with("modelId"@, Tree::Text(info.model_id))
        .with("name"@, Tree::Text(info.name));
    let described = match info.description {
        Some(description) => named.with("description"@, Tree::Text(description)),
        None => named,
    };
    with_meta(described, info.meta)
}

/// The models of a session in JSON.
pub open spec fn state_tree(state: ModelStateView) -> Tree {
    let models = Seq::new(
        state.available_models.len(),
        |i: int| model_tree(state.available_models[i]),
    );
    with_meta(
        Tree::empty()
            .with("currentModelId"@, Tree::Text(state.current_model_id))
            .with("availableModels"@, Tree::Array(models)),
        state.meta,
    )
}

/// `serde_json::to_value` writes the protocol's `SessionModelState`, and never fails on one:
/// its fields are written under their names in camel case, what is attached under `_meta`,
/// and an optional one is left out where there is none.
#[verifier::external_body]
fn write_state(raw: RawState) -> (r: Option<Value>)
    ensures
        match r {
            Some(value) => codec::document(value) == state_tree(raw_state(raw)),
            None => false,
        },
{
    let models = raw.available_models.into_iter().map(|info| {
        agent_client_protocol::ModelInfo::new(info.model_id, info.name)
            .description(info.description)
            .meta(info.meta)
    });
    let id = raw.current_model_id;
    let state = agent_client_protocol::SessionModelState::new(id, models.collect());
    serde_json::to_value(state.meta(raw.meta)).ok()
}

fn json_meta(meta: &Option<serde_json::Map<String, Value>>) -> (r: Option<Json>)
    ensures
        r.deep_view() == raw_meta(*meta),
{
    match meta {
        Some(map) => Some(codec::object_of(map)),
        None => None,
    }
}

/// Whether what is attached, if anything is, is an object.
pub open spec fn meta_wf(meta: Option<Tree>) -> bool {
    match meta {
        Some(tree) => tree is Object,
        None => true,
    }
}

/// Whether all that is attached to a session's models is an object, as the protocol has it.
pub open spec fn state_wf(state: ModelStateView) -> bool {
    &&& meta_wf(state.meta)
    &&& forall|i: int|
        0 <= i < state.available_models.len() ==> meta_wf(
            (#[trigger] state.available_models[i]).meta,
        )
}

fn map_meta(meta: &Option<Json>) -> (r: Option<serde_json::Map<String, Value>>)
    requires
        meta_wf(meta.deep_view()),
    ensures
        raw_meta(r) == meta.deep_view(),
{
    match meta {
        Some(Json::Object(list)) => Some(codec::map_of(list)),
        _ => None,
    }
}

/// Reads the models of a session; `None` where the value is not one.
pub fn parse_state(json: &Json) -> (r: Option<ModelState>)
    ensures
        r.deep_view() == session_state(json@),
        match r {
            Some(state) => state_wf(state.deep_view()),
            None => true,
        },
{
    let raw = match read_state(codec::value_of(json)) {
        Some(raw) => raw,
        None => {
            return None;
        },
    };
    let mut models: Vec<ModelInfo> = Vec::new();
    let mut i: usize = 0;
    while i < raw.available_models.len()
        invariant
            0 <= i <= raw.available_models@.len(),
            models@.len() == i,
            forall|k: int|
                0 <= k < i ==> (#[trigger] models@[k]).deep_view() == raw_model(
                    raw.available_models@[k],
                ),
        decreases raw.available_models@.len() - i,
    {
        let info = &raw.available_models[i];
        models.push(
            ModelInfo {
                model_id: info.model_id.clone(),
                name: info.name.clone(),
                description: info.description.clone(),
                meta: json_meta(&info.meta),
            },
        );
        i += 1;
    }
    assert(models.deep_view() =~= raw_models(raw.available_models@));
    Some(
        ModelState {
            current_model_id: raw.current_model_id.clone(),
            available_models: models,
            meta: json_meta(&raw.meta),
        },
    )
}

/// Writes the models of a session.
pub fn format_state(state: &ModelState) -> (r: Json)
    requires
        state_wf(state.deep_view()),
    ensures
        r@ == state_tree(state.deep_view()),
{
    let ghost all = state.available_models.deep_view();
    let mut models: Vec<RawModel> = Vec::new();
    let mut i: usize = 0;
    while i < state.available_models.len()
        invariant
            0 <= i <= state.available_models@.len(),
            state_wf(state.deep_view()),
            all == state.available_models.deep_view(),
            models@.len() == i,
            forall|k: int| 0 <= k < i ==> raw_model(#[trigger] models@[k]) == all[k],
        decreases state.available_models@.len() - i,
    {
        let info = &state.available_models[i];
        assert(info.deep_view() == all[i as int]);
        assert(meta_wf(state.deep_view().available_models[i as int].meta));
        models.push(
            RawModel {
                model_id: info.model_id.clone(),
                name: info.name.clone(),
                description: info.description.clone(),
                meta: map_meta(&info.meta),
            },
        );
        i += 1;
    }
    let raw = RawState {
        current_model_id: state.current_model_id.clone(),
        available_models: models,
        meta: map_meta(&state.meta),
    };
    assert(raw_models(raw.available_models@) =~= all);
    match write_state(raw) {
        Some(value) => codec::json_of(&value),
        None => Json::Null,
    }
}

/// The models of a session are written under the protocol's names, each with what there is of
/// it and nothing else: the one in use, all to choose from, in order, and what is attached.
pub proof fn law_states_are_written_under_their_names(
    state: ModelStateView,
    info: ModelInfoView,
    i: int,
    other: Seq<char>,
)
    ensures
        state_tree(state).get("currentModelId"@) == Some(Tree::Text(state.current_model_id)),
        state_tree(state).get("availableModels"@) matches Some(Tree::Array(models)) && models.len()
            == state.available_models.len() && (0 <= i < models.len() ==> models[i] == model_tree(
            state.available_models[i],
        )),
        state_tree(state).get("_meta"@) == state.meta,
        other != "currentModelId"@ && other != "availableModels"@ && other != "_meta"@
            ==> state_tree(state).get(other) is None,
        model_tree(info).get("modelId"@) == Some(Tree::Text(info.model_id)),
        model_tree(info).get("name"@) == Some(Tree::Text(info.name)),
        model_tree(info).get("description"@) == (match info.description {
            Some(text) => Some(Tree::Text(text)),
            None => None,
        }),
        model_tree(info).get("_meta"@) == info.meta,
        other != "modelId"@ && other != "name"@ && other != "description"@ && other != "_meta"@
            ==> model_tree(info).get(other) is None,
{
    reveal_strlit("currentModelId");
    reveal_strlit("availableModels");
    reveal_strlit("_meta");
    reveal_strlit("modelId");
    reveal_strlit("name");
    reveal_strlit("description");
    assert("currentModelId"@.len() == 14 && "availableModels"@.len() == 15 && "_meta"@.len() == 5 && "modelId"@.len() == 7 && "name"@.len() == 4 && "description"@.len() == 11);
}

} // verus!
