//! The errors that the agent answers with.

use vstd::prelude::*;

verus! {

/// Whose fault an error is.
#[derive(Clone, Copy, Debug, PartialEq, Eq, Structural)]
pub enum ErrorKind {
    /// Something failed on the agent's side.
    Internal,
    /// What was asked for cannot be had.
    InvalidParams,
}

/// An error, with what there is to say of it.
pub struct AgentError {
    pub kind: ErrorKind,
    pub data: String,
}

/// What an error means.
pub struct AgentErrorView {
    pub kind: ErrorKind,
    pub data: Seq<char>,
}

impl DeepView for AgentError {
    type V = AgentErrorView;

    open spec fn deep_view(&self) -> AgentErrorView {
        AgentErrorView { kind: self.kind, data: self.data@ }
    }
}

/// An error on the agent's side.
pub open spec fn internal(data: Seq<char>) -> AgentErrorView {
    AgentErrorView { kind: ErrorKind::Internal, data }
}

/// An error in what was asked for.
pub open spec fn invalid(data: Seq<char>) -> AgentErrorView {
    AgentErrorView { kind: ErrorKind::InvalidParams, data }
}

impl AgentError {
    /// An error on the agent's side.
    pub fn internal_error(data: &str) -> (r: AgentError)
        ensures
            r.deep_view() == internal(data@),
    {
        AgentError { kind: ErrorKind::Internal, data: data.to_owned() }
    }

    /// An error in what was asked for.
    pub fn invalid_params(data: &str) -> (r: AgentError)
        ensures
            r.deep_view() == invalid(data@),
    {
        AgentError { kind: ErrorKind::InvalidParams, data: data.to_owned() }
    }
}

/// An error that the app-server, or the way to it, reports.
pub open spec fn codex_failure(error: Seq<char>) -> AgentErrorView {
    internal("Codex: "@ + error)
}

/// An error that the app-server, or the way to it, reports.
pub fn codex_error(error: &str) -> (r: AgentError)
    ensures
        r.deep_view() == codex_failure(error@),
{
    let mut data: String = "Codex: ".to_owned();
    data.append(error);
    AgentError { kind: ErrorKind::Internal, data }
}

/// An error says whose fault it is and bears what there is to say of it, as it is; one of the
/// app-server is marked as such.
pub proof fn law_errors_bear_what_there_is_to_say(data: Seq<char>)
    ensures
        internal(data).kind == ErrorKind::Internal,
        internal(data).data == data,
        invalid(data).kind == ErrorKind::InvalidParams,
        invalid(data).data == data,
        codex_failure(data).kind == ErrorKind::Internal,
        codex_failure(data).data == "Codex: "@ + data,
{
}

/// What the values of this module show in contracts is what they hold, part by part: nothing is
/// left out, and nothing is changed.
pub proof fn law_values_show_what_they_hold(
    agent_error: &AgentError,
)
    ensures
        agent_error.deep_view() == (AgentErrorView { kind: agent_error.kind, data: agent_error.data@ }),
{
}

} // verus!
