//! The intent surface of the mutation engine: the events the rest of the
//! application queues, the graph model's reply to each, and the I/O requests
//! the menu raises.

use crate::connection::{Connection, ConnectionAttempt};
use crate::element::{CreatedElement, CreationCandidate};
use crate::view::{Handle, Position};
use vstd::prelude::*;

verus! {

/// A mutation intent, drained and applied one at a time, each to completion.
#[derive(Clone, PartialEq, Eq, Debug)]
pub enum ShaderEvent {
    /// Register a new element with the graph model and show it at
    /// `target_position`.
    CreateElement { target_position: Position, candidate: CreationCandidate },
    /// Remove the node `id` from the graph model and from the view.
    DeleteNode { id: String },
    /// Remove the input property `id` from the graph model and from the view.
    DeleteInputProperty { id: String },
    /// Remove the output property `id` from the graph model and from the
    /// view.
    DeleteOutputProperty { id: String },
    /// Ask the graph model to connect `attempt` and, on success, materialize
    /// a visual edge between the elements shown under `from` and `to`.
    Connect { attempt: ConnectionAttempt, from: Handle, to: Handle },
}

/// The graph model's reply to one intent. The model owns id assignment and
/// connection validation; this layer only consumes the outcome.
#[derive(Clone, PartialEq, Eq, Debug)]
pub enum GraphResponse {
    /// Reply to `CreateElement`: the registered element, under the id the
    /// model assigned.
    ElementCreated { element: CreatedElement },
    /// Reply to a delete intent: whether the model held an entity with the
    /// id. A missing entity means the model and the index have diverged.
    EntityRemoved { found: bool },
    /// Reply to `Connect` when the model accepted the attempt: the dislodged
    /// previous source if the target was already occupied, since a target
    /// holds at most one incoming connection.
    ConnectionAccepted { replaced: Option<Connection> },
    /// Reply to `Connect` when the model rejected the attempt (type
    /// mismatch, self-loop, or another rule the model owns); the graph is
    /// left untouched.
    ConnectionRejected { message: String },
}

/// The created element is of the kind the candidate asked for.
pub open spec fn created_matches_candidate(
    candidate: CreationCandidate,
    element: CreatedElement,
) -> bool {
    match candidate {
        CreationCandidate::Node { .. } => element is Node,
        CreationCandidate::InputProperty(_) => element is InputProperty,
        CreationCandidate::OutputProperty(_) => element is OutputProperty,
    }
}

/// The reply fits the intent: the graph model answers a create with the
/// created element, a delete with whether the id was found, and a connect
/// with acceptance or rejection.
pub open spec fn response_matches(event: ShaderEvent, response: GraphResponse) -> bool {
    match event {
        ShaderEvent::CreateElement { candidate, .. } => response matches GraphResponse::ElementCreated { element } && created_matches_candidate(
            candidate,
            element,
        ),
        ShaderEvent::DeleteNode { .. } => response is EntityRemoved,
        ShaderEvent::DeleteInputProperty { .. } => response is EntityRemoved,
        ShaderEvent::DeleteOutputProperty { .. } => response is EntityRemoved,
        ShaderEvent::Connect { .. } => response is ConnectionAccepted || response
            is ConnectionRejected,
    }
}

/// An I/O request raised by the menu, each carrying the chosen file path.
#[derive(Clone, PartialEq, Eq, Debug)]
pub enum IOEvent {
    Save(String),
    Load(String),
    Export(String),
}

} // verus!
