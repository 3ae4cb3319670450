//! Prompts: what a prompt of the client hands to Codex.

use vstd::prelude::*;

use crate::error;
use crate::error::{AgentError, AgentErrorView, ErrorKind};
use crate::json::{Json, Tree};
use crate::rpc::result_view;
use crate::turn;

verus! {

/// The protocol's resources that are embedded in a prompt.
#[verifier::external_type_specification]
#[verifier::external_body]
pub struct ExEmbeddedResource(agent_client_protocol::EmbeddedResource);

/// The JSON text that an embedded resource is written as; `None` where it cannot be.
pub uninterp spec fn resource_json(
    resource: agent_client_protocol::EmbeddedResource,
) -> Option<Seq<char>>;

/// `serde_json::to_string` writes an embedded resource as JSON, or fails.
#[verifier::external_body]
fn write_resource(resource: &agent_client_protocol::EmbeddedResource) -> (r: Option<String>)
    ensures
        r.deep_view() == resource_json(*resource),
{
    serde_json::to_string(resource).ok()
}

/// A block of a prompt.
pub enum PromptBlock {
    Text(String),
    /// A resource that is only referred to, by where it is found.
    ResourceLink(String),
    /// A resource that is embedded in the prompt.
    Resource(agent_client_protocol::EmbeddedResource),
    Image,
    Audio,
    /// A block of a kind that is not known here.
    Other,
}

/// What a block of a prompt means. An embedded resource is its JSON text, if it has one.
pub enum PromptBlockView {
    Text(Seq<char>),
    ResourceLink(Seq<char>),
    Resource(Option<Seq<char>>),
    Image,
    Audio,
    Other,
}

impl DeepView for PromptBlock {
    type V = PromptBlockView;

    open spec fn deep_view(&self) -> PromptBlockView {
        match self {
            PromptBlock::Text(text) => PromptBlockView::Text(text@),
            PromptBlock::ResourceLink(uri) => PromptBlockView::ResourceLink(uri@),
            PromptBlock::Resource(resource) => PromptBlockView::Resource(resource_json(*resource)),
            PromptBlock::Image => PromptBlockView::Image,
            PromptBlock::Audio => PromptBlockView::Audio,
            PromptBlock::Other => PromptBlockView::Other,
        }
    }
}

/// The piece of the input for an embedded resource that is written as `written`: nothing is
/// said of one that cannot be written.
pub open spec fn resource_input(written: Option<Seq<char>>) -> Tree {
    turn::text_input(
        match written {
            Some(text) => text,
            None => ""@,
        },
    )
}

/// The piece of the input for an embedded resource that is written as `written`.
pub fn input_resource(written: Option<&str>) -> (r: Json)
    ensures
        r@ == resource_input(written.deep_view()),
{
    match written {
        Some(text) => turn::input_text(text),
        None => turn::input_text(""),
    }
}

/// The piece of the input for a block, or the error where the block is not supported.
pub open spec fn block_input(block: PromptBlockView) -> Result<Tree, AgentErrorView> {
    match block {
        PromptBlockView::Text(text) => Ok(turn::text_input(text)),
        PromptBlockView::ResourceLink(uri) => Ok(
            turn::text_input("Referenced resource: "@ + uri),
        ),
        PromptBlockView::Resource(written) => Ok(resource_input(written)),
        PromptBlockView::Image | PromptBlockView::Audio => Err(
            error::invalid("this Grox Codex connector currently supports text prompts only"@),
        ),
        PromptBlockView::Other => Err(error::invalid("unsupported prompt block for Codex"@)),
    }
}

/// The input for the blocks of a prompt, or the error of the first that is not supported.
pub open spec fn blocks_input(blocks: Seq<PromptBlockView>) -> Result<Seq<Tree>, AgentErrorView>
    decreases blocks.len(),
{
    if blocks.len() == 0 {
        Ok(seq![])
    } else {
        match blocks_input(blocks.drop_last()) {
            Ok(earlier) => match block_input(blocks.last()) {
                Ok(piece) => Ok(earlier.push(piece)),
                Err(error) => Err(error),
            },
            Err(error) => Err(error),
        }
    }
}

/// The input for a prompt, which must have a block and none that is not supported.
pub open spec fn prompt_input(blocks: Seq<PromptBlockView>) -> Result<Seq<Tree>, AgentErrorView> {
    if blocks.len() == 0 {
        Err(error::invalid("Codex prompt is empty"@))
    } else {
        blocks_input(blocks)
    }
}

fn input_block(block: &PromptBlock) -> (r: Result<Json, AgentError>)
    ensures
        result_view(r) == block_input(block.deep_view()),
{
    match block {
        PromptBlock::Text(text) => Ok(turn::input_text(text.as_str())),
        PromptBlock::ResourceLink(uri) => {
            let mut text: String = "Referenced resource: ".to_owned();
            text.append(uri.as_str());
            Ok(turn::input_text(text.as_str()))
        },
        PromptBlock::Resource(resource) => match write_resource(resource) {
            Some(text) => Ok(input_resource(Some(text.as_str()))),
            None => Ok(input_resource(None)),
        },
        PromptBlock::Image | PromptBlock::Audio => Err(
            AgentError::invalid_params(
                "this Grox Codex connector currently supports text prompts only",
            ),
        ),
        PromptBlock::Other => Err(
            AgentError::invalid_params("unsupported prompt block for Codex"),
        ),
    }
}

proof fn lemma_first_error_counts(blocks: Seq<PromptBlockView>, i: int)
    requires
        0 <= i < blocks.len(),
        blocks_input(blocks.take(i)) is Ok,
        block_input(blocks[i]) is Err,
    ensures
        blocks_input(blocks) == Err::<Seq<Tree>, AgentErrorView>(block_input(blocks[i])->Err_0),
    decreases blocks.len(),
{
    let front = blocks.drop_last();
    if i < front.len() {
        assert(front.take(i) =~= blocks.take(i));
        assert(front[i] == blocks[i]);
        lemma_first_error_counts(front, i);
    } else {
        assert(front =~= blocks.take(i));
    }
}

/// The input for a prompt: a piece for each block, in order. A prompt without a block, and
/// one with a block that is not supported, is refused.
pub fn codex_input(blocks: &Vec<PromptBlock>) -> (r: Result<Vec<Json>, AgentError>)
    ensures
        result_view(r) == prompt_input(blocks.deep_view()),
{
    let ghost all = blocks.deep_view();
    let mut input: Vec<Json> = Vec::new();
    assert(all.take(0) =~= Seq::<PromptBlockView>::empty());
    assert(input.deep_view() =~= Seq::<Tree>::empty());
    let mut i: usize = 0;
    while i < blocks.len()
        invariant
            0 <= i <= blocks@.len(),
            all == blocks.deep_view(),
            blocks_input(all.take(i as int)) == Ok::<Seq<Tree>, AgentErrorView>(input.deep_view()),
            input@.len() == i,
        decreases blocks@.len() - i,
    {
        let ghost before = input.deep_view();
        proof {
            assert(all.take(i + 1).drop_last() =~= all.take(i as int));
            assert(all.take(i + 1).last() == all[i as int]);
        }
        match input_block(&blocks[i]) {
            Ok(piece) => {
                input.push(piece);
                assert(input.deep_view() =~= before.push(piece@));
            },
            Err(error) => {
                proof {
                    lemma_first_error_counts(all, i as int);
                }
                return Err(error);
            },
        }
        i += 1;
    }
    assert(all.take(i as int) =~= all);
    if input.len() == 0 {
        return Err(AgentError::invalid_params("Codex prompt is empty"));
    }
    Ok(input)
}

/// A prompt is taken whole or not at all: what is handed on has one piece for each block, in
/// order, and is never empty.
pub proof fn law_prompts_are_taken_whole(blocks: Seq<PromptBlockView>)
    ensures
        match prompt_input(blocks) {
            Ok(input) => {
                &&& blocks.len() > 0
                &&& input.len() == blocks.len()
                &&& forall|i: int|
                    0 <= i < blocks.len() ==> block_input(blocks[i]) == Ok::<Tree, AgentErrorView>(
                        #[trigger] input[i],
                    )
            },
            Err(_) => blocks.len() == 0 || exists|i: int|
                0 <= i < blocks.len() && block_input(#[trigger] blocks[i]) is Err,
        },
{
    lemma_taken_whole(blocks);
}

proof fn lemma_taken_whole(blocks: Seq<PromptBlockView>)
    ensures
        match blocks_input(blocks) {
            Ok(input) => {
                &&& input.len() == blocks.len()
                &&& forall|i: int|
                    0 <= i < blocks.len() ==> block_input(blocks[i]) == Ok::<Tree, AgentErrorView>(
                        #[trigger] input[i],
                    )
            },
            Err(_) => exists|i: int|
                0 <= i < blocks.len() && block_input(#[trigger] blocks[i]) is Err,
        },
    decreases blocks.len(),
{
    if blocks.len() > 0 {
        let front = blocks.drop_last();
        lemma_taken_whole(front);
        assert(blocks[blocks.len() - 1] == blocks.last());
        match blocks_input(front) {
            Ok(earlier) => {
                if let Ok(input) = blocks_input(blocks) {
                    assert forall|i: int| 0 <= i < blocks.len() implies block_input(blocks[i])
                        == Ok::<Tree, AgentErrorView>(#[trigger] input[i]) by {
                        if i < front.len() {
                            assert(front[i] == blocks[i]);
                            assert(earlier[i] == input[i]);
                        }
                    }
                }
            },
            Err(_) => {
                let i = choose|i: int|
                    0 <= i < front.len() && block_input(#[trigger] front[i]) is Err;
                assert(blocks[i] == front[i]);
            },
        }
    }
}

/// Each block is handed on as what it is: a text as it is, a link by where it leads, an embedded
/// resource as its JSON text. Images and sounds are refused for what they are, and what is not
/// known is refused too.
pub proof fn law_blocks_are_handed_on_as_what_they_are(text: Seq<char>, block: PromptBlockView)
    ensures
        block_input(PromptBlockView::Text(text)) == Ok::<Tree, AgentErrorView>(
            turn::text_input(text),
        ),
        block_input(PromptBlockView::ResourceLink(text)) == Ok::<Tree, AgentErrorView>(
            turn::text_input("Referenced resource: "@ + text),
        ),
        block_input(PromptBlockView::Resource(Some(text))) == Ok::<Tree, AgentErrorView>(
            turn::text_input(text),
        ),
        block_input(PromptBlockView::Resource(None)) == Ok::<Tree, AgentErrorView>(
            turn::text_input(""@),
        ),
        block_input(block) is Err <==> block is Image || block is Audio || block is Other,
        block is Image || block is Audio ==> block_input(block) == Err::<Tree, AgentErrorView>(
            AgentErrorView {
                kind: ErrorKind::InvalidParams,
                data: "this Grox Codex connector currently supports text prompts only"@,
            },
        ),
        block is Other ==> block_input(block) == Err::<Tree, AgentErrorView>(
            AgentErrorView {
                kind: ErrorKind::InvalidParams,
                data: "unsupported prompt block for Codex"@,
            },
        ),
{
}

/// A prompt that is refused is refused for the first of its blocks that cannot be handed on, and
/// one without blocks because it is empty.
pub proof fn law_the_first_bad_block_counts(blocks: Seq<PromptBlockView>, i: int)
    ensures
        prompt_input(seq![]) == Err::<Seq<Tree>, AgentErrorView>(
            AgentErrorView { kind: ErrorKind::InvalidParams, data: "Codex prompt is empty"@ },
        ),
        0 <= i < blocks.len() && block_input(blocks[i]) is Err && (forall|k: int|
            0 <= k < i ==> block_input(#[trigger] blocks[k]) is Ok) ==> prompt_input(blocks)
            == Err::<Seq<Tree>, AgentErrorView>(block_input(blocks[i])->Err_0),
{
    if 0 <= i < blocks.len() && block_input(blocks[i]) is Err && (forall|k: int|
        0 <= k < i ==> block_input(#[trigger] blocks[k]) is Ok) {
        let front = blocks.take(i);
        lemma_taken_whole(front);
        if blocks_input(front) is Err {
            let k = choose|k: int| 0 <= k < front.len() && block_input(#[trigger] front[k]) is Err;
            assert(front[k] == blocks[k]);
        }
        lemma_first_error_counts(blocks, i);
    }
}

/// What the values of this module show in contracts is what they hold, part by part: nothing is
/// left out, and nothing is changed.
pub proof fn law_values_show_what_they_hold(
    prompt_block: &PromptBlock,
)
    ensures
        prompt_block.deep_view() == (match prompt_block {
            PromptBlock::Text(text) => PromptBlockView::Text(text@),
            PromptBlock::ResourceLink(uri) => PromptBlockView::ResourceLink(uri@),
            PromptBlock::Resource(resource) => PromptBlockView::Resource(resource_json(*resource)),
            PromptBlock::Image => PromptBlockView::Image,
            PromptBlock::Audio => PromptBlockView::Audio,
            PromptBlock::Other => PromptBlockView::Other,
        }),
{
}

} // verus!
