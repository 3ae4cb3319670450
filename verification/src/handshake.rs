//! How a connection to the app-server begins: this client introduces itself, and confirms the
//! introduction once it has been accepted.

use vstd::prelude::*;

use crate::connection;
use crate::connection::{WaitEndView, WaitingView};
use crate::json;
use crate::json::{Json, Tree};
use crate::rpc;
use crate::rpc::{result_view, CallView};
use crate::server;
use crate::server::{DispatchView, RequestEndView};

verus! {

/// What follows the introduction.
pub enum Handshake {
    /// The server accepted it: send this message, and the connection is ready.
    Confirm(Json),
    /// The connection cannot be used, and nothing more is to be sent on it.
    Failed(String),
}

/// What follows the introduction.
pub enum HandshakeView {
    Confirm(Tree),
    Failed(Seq<char>),
}

impl DeepView for Handshake {
    type V = HandshakeView;

    open spec fn deep_view(&self) -> HandshakeView {
        match self {
            Handshake::Confirm(message) => HandshakeView::Confirm(message@),
            Handshake::Failed(error) => HandshakeView::Failed(error@),
        }
    }
}

/// The notification that the introduction is over.
pub open spec fn confirmation() -> Tree {
    rpc::notification_tree(CallView { method: "initialized"@, params: Tree::empty() })
}

/// What follows the introduction, by what the call came to.
pub open spec fn handshake_step(outcome: Result<Tree, Seq<char>>) -> HandshakeView {
    match outcome {
        Ok(_) => HandshakeView::Confirm(confirmation()),
        Err(error) => HandshakeView::Failed(error),
    }
}

/// What follows the introduction, by what the call for it came to: see
/// [`rpc::initialize_call`].
pub fn introduced(outcome: Result<Json, String>) -> (r: Handshake)
    ensures
        r.deep_view() == handshake_step(result_view(outcome)),
{
    match outcome {
        Ok(_) => Handshake::Confirm(rpc::notification_message(rpc::initialized_call())),
        Err(error) => Handshake::Failed(error),
    }
}

/// The messages that are sent until a connection is ready or has failed, where `outcome` is
/// what the introduction came to, if it is over.
pub open spec fn opening(
    version: Seq<char>,
    outcome: Option<Result<Tree, Seq<char>>>,
) -> Seq<Tree> {
    let first = seq![rpc::request_tree(1, rpc::initialize_view(version))];
    match outcome {
        Some(outcome) => match handshake_step(outcome) {
            HandshakeView::Confirm(message) => first.push(message),
            HandshakeView::Failed(_) => first,
        },
        None => first,
    }
}

/// A connection begins with the introduction, and nothing else is sent before its reply. A
/// reply with an error ends it with that error, and nothing more is sent. After any other
/// reply the introduction is confirmed, by a message that wants no answer, and the connection
/// is ready. So it is on both kinds of connection.
pub proof fn law_confirmation_follows_a_good_reply<T>(version: Seq<char>, ticket: T, reply: Tree)
    requires
        rpc::response_id(reply) == Some(1u64),
    ensures
        opening(version, None).len() == 1,
        opening(version, None)[0] == rpc::request_tree(1, rpc::initialize_view(version)),
        server::dispatched(Map::<u64, T>::empty().insert(1, ticket), reply)
            == DispatchView::Resolve(ticket, rpc::response_outcome(reply)),
        server::request_outcome(
            "initialize"@,
            RequestEndView::Response(rpc::response_outcome(reply)),
        ) == rpc::response_outcome(reply),
        connection::waiting_step(1, reply) == WaitingView::Finished(rpc::response_outcome(reply)),
        connection::wait_outcome(
            "initialize"@,
            WaitEndView::Response(rpc::response_outcome(reply)),
        ) == rpc::response_outcome(reply),
        match reply.get("error"@) {
            Some(error) => {
                &&& handshake_step(rpc::response_outcome(reply)) == HandshakeView::Failed(
                    rpc::error_text(error),
                )
                &&& opening(version, Some(rpc::response_outcome(reply))) == opening(version, None)
            },
            None => {
                &&& handshake_step(rpc::response_outcome(reply)) == HandshakeView::Confirm(
                    confirmation(),
                )
                &&& opening(version, Some(rpc::response_outcome(reply))) == opening(
                    version,
                    None,
                ).push(confirmation())
            },
        },
{
}

/// A connection is never confirmed without a good reply: where the introduction cannot be
/// sent, is not answered in time, or will never be answered, the connection fails with that
/// error, and the introduction is all that was sent. So it is on both kinds of connection.
pub proof fn law_no_confirmation_without_a_reply(
    version: Seq<char>,
    end: RequestEndView,
    wait: WaitEndView,
)
    requires
        !(end is Response),
        !(wait is Response),
    ensures
        ({
            let outcome = server::request_outcome("initialize"@, end);
            &&& outcome is Err
            &&& handshake_step(outcome) == HandshakeView::Failed(outcome->Err_0)
            &&& opening(version, Some(outcome)) == opening(version, None)
        }),
        ({
            let outcome = connection::wait_outcome("initialize"@, wait);
            &&& outcome is Err
            &&& handshake_step(outcome) == HandshakeView::Failed(outcome->Err_0)
            &&& opening(version, Some(outcome)) == opening(version, None)
        }),
{
}

/// The introduction says who this client is and nothing of the account: its name, its title
/// and its version, and that it understands the experimental messages. The confirmation has no
/// identifier and says nothing at all.
pub proof fn law_introduction_says_who_this_is(version: Seq<char>)
    ensures
        ({
            let first = rpc::request_tree(1, rpc::initialize_view(version));
            let params = first.get("params"@);
            let client = json::at(params, "clientInfo"@);
            &&& first.get("id"@) == Some(json::integer(1))
            &&& first.get("method"@) == Some(Tree::Text("initialize"@))
            &&& json::text_of(json::at(client, "name"@)) == Some("grox_cli"@)
            &&& json::text_of(json::at(client, "title"@)) == Some("Grox"@)
            &&& json::text_of(json::at(client, "version"@)) == Some(version)
            &&& json::is_true(json::at(json::at(params, "capabilities"@), "experimentalApi"@))
            &&& params->0->Object_0.dom() == set!["clientInfo"@, "capabilities"@]
            &&& client->0->Object_0.dom() == set!["name"@, "title"@, "version"@]
        }),
        confirmation().get("id"@) is None,
        confirmation().get("method"@) == Some(Tree::Text("initialized"@)),
        confirmation().get("params"@) == Some(Tree::empty()),
{
    reveal_strlit("id");
    reveal_strlit("method");
    reveal_strlit("params");
    reveal_strlit("clientInfo");
    reveal_strlit("capabilities");
    reveal_strlit("name");
    reveal_strlit("title");
    reveal_strlit("version");
    assert("id"@.len() == 2 && "name"@.len() == 4 && "title"@.len() == 5 && "version"@.len() == 7);
    assert("clientInfo"@.len() == 10 && "capabilities"@.len() == 12);
    assert("method"@[0] == 'm' && "params"@[0] == 'p');
    let params = rpc::initialize_view(version).params;
    assert(params->Object_0.dom() =~= set!["clientInfo"@, "capabilities"@]);
    assert(params.get("clientInfo"@)->0->Object_0.dom() =~= set!["name"@, "title"@, "version"@]);
}

/// A connection is ready exactly where its introduction succeeded, and fails with the very error
/// that the introduction did.
pub proof fn law_only_a_good_reply_confirms(outcome: Result<Tree, Seq<char>>)
    ensures
        handshake_step(outcome) is Confirm <==> outcome is Ok,
        outcome matches Err(error) ==> handshake_step(outcome) == HandshakeView::Failed(error),
        handshake_step(outcome) matches HandshakeView::Confirm(message) ==> message
            == confirmation(),
{
}

/// What the values of this module show in contracts is what they hold, part by part: nothing is
/// left out, and nothing is changed.
pub proof fn law_values_show_what_they_hold(
    handshake: &Handshake,
)
    ensures
        handshake.deep_view() == (match handshake {
            Handshake::Confirm(message) => HandshakeView::Confirm(message@),
            Handshake::Failed(error) => HandshakeView::Failed(error@),
        }),
{
}

} // verus!
