//! The mutation engine: applies one intent to the identity layer, given the
//! graph model's reply, and decides every view-layer instruction. Each event
//! is handled to completion; no partial application is ever visible.

use crate::connection::{connector_id_seq, Connection, ConnectionTo};
use crate::element::CreatedElement;
use crate::events::{response_matches, GraphResponse, ShaderEvent};
use crate::shader::{CurrentShader, EntityFamily};
use crate::view::{Handle, LogLevel, Position, ViewAction};
use vstd::prelude::*;
use vstd::string::StringExecFns;

verus! {

/// The index family a created element belongs to.
pub open spec fn family_of(element: CreatedElement) -> EntityFamily {
    match element {
        CreatedElement::Node { .. } => EntityFamily::Node,
        CreatedElement::InputProperty { .. } => EntityFamily::InputProperty,
        CreatedElement::OutputProperty { .. } => EntityFamily::OutputProperty,
    }
}

/// The ids the reply introduces are new to their family's index, as the
/// graph model's id-generation and single-writer rules guarantee whenever
/// index and model agree. Creation has no failure path of its own, so this
/// is owed by the caller, not rechecked.
pub open spec fn ids_fresh(
    pre: CurrentShader,
    event: ShaderEvent,
    response: GraphResponse,
) -> bool {
    match response {
        GraphResponse::ElementCreated { element } => !pre.family_view(
            family_of(element),
        ).contains_key(element.spec_id()),
        GraphResponse::ConnectionAccepted { replaced } => match event {
            ShaderEvent::Connect { attempt, .. } => {
                let new_key = connector_id_seq(attempt.connection_to, attempt.connection_from);
                match replaced {
                    Some(prev) => !pre.connection_entities@.remove(
                        connector_id_seq(attempt.connection_to, prev),
                    ).contains_key(new_key),
                    None => !pre.connection_entities@.contains_key(new_key),
                }
            },
            _ => true,
        },
        _ => true,
    }
}

/// A create intent applied: the created element's id is indexed under the
/// fresh handle in its family, nothing else changes, and the one instruction
/// is to draw the element at the requested position.
pub open spec fn create_applied(
    pre: CurrentShader,
    post: CurrentShader,
    position: Position,
    element: CreatedElement,
    fresh: Handle,
    actions: Seq<ViewAction>,
) -> bool {
    &&& post.family_view(family_of(element)) == pre.family_view(family_of(element)).insert(
        element.spec_id(),
        fresh,
    )
    &&& CurrentShader::only_family_changed(pre, post, family_of(element))
    &&& actions =~= seq![
        (ViewAction::SpawnElement { handle: fresh, position, element }),
    ]
}

/// A delete intent applied: the id leaves its family's index (a no-op when
/// it was absent), nothing else changes; a model-side miss adds one
/// error-level line first, and the last instruction despawns the indexed
/// handle, or warns when none was indexed.
pub open spec fn delete_applied(
    pre: CurrentShader,
    post: CurrentShader,
    family: EntityFamily,
    id: Seq<char>,
    found_in_model: bool,
    actions: Seq<ViewAction>,
) -> bool {
    let had = pre.family_view(family).contains_key(id);
    &&& post.family_view(family) == pre.family_view(family).remove(id)
    &&& CurrentShader::only_family_changed(pre, post, family)
    &&& actions.len() == (if found_in_model {
        1int
    } else {
        2int
    })
    &&& !found_in_model ==> (actions[0] matches ViewAction::Log { level, .. } && level
        == LogLevel::Error)
    &&& had ==> actions.last() == (ViewAction::Despawn { handle: pre.family_view(family)[id] })
    &&& !had ==> (actions.last() matches ViewAction::Log { level, .. } && level == LogLevel::Warn)
}

/// An accepted connect intent applied: when the target was occupied, the
/// dislodged connection's key leaves the index and its handle is despawned
/// (or its absence reported as an error); the new connector id is indexed
/// under the fresh handle; the view materializes the edge and drops the
/// pending candidate. Only the connection family changes.
pub open spec fn connect_applied(
    pre: CurrentShader,
    post: CurrentShader,
    to: ConnectionTo,
    from: Connection,
    replaced: Option<Connection>,
    output_from: Handle,
    input_to: Handle,
    fresh: Handle,
    actions: Seq<ViewAction>,
) -> bool {
    let new_key = connector_id_seq(to, from);
    &&& CurrentShader::only_family_changed(pre, post, EntityFamily::Connection)
    &&& match replaced {
        Some(prev) => {
            let old_key = connector_id_seq(to, prev);
            let had = pre.connection_entities@.contains_key(old_key);
            &&& post.connection_entities@ == pre.connection_entities@.remove(old_key).insert(
                new_key,
                fresh,
            )
            &&& actions.len() == 3
            &&& had ==> actions[0] == (ViewAction::Despawn {
                handle: pre.connection_entities@[old_key],
            })
            &&& !had ==> (actions[0] matches ViewAction::Log { level, .. } && level
                == LogLevel::Error)
        },
        None => {
            &&& post.connection_entities@ == pre.connection_entities@.insert(new_key, fresh)
            &&& actions.len() == 2
        },
    }
    &&& (actions[actions.len() - 2] matches ViewAction::SpawnConnector {
        handle,
        output_from: f,
        input_to: t,
        connector_id,
    } && handle == fresh && f == output_from && t == input_to && connector_id@ == new_key)
    &&& actions.last() == ViewAction::ClearPendingConnection
}

/// A rejected connect intent applied: the identity layer is left exactly as
/// it was — not one map entry differs — and the only instruction is one
/// error-level line.
pub open spec fn connect_rejected_applied(
    pre: CurrentShader,
    post: CurrentShader,
    actions: Seq<ViewAction>,
) -> bool {
    &&& post == pre
    &&& actions.len() == 1
    &&& (actions[0] matches ViewAction::Log { level, .. } && level == LogLevel::Error)
}

/// The full event protocol: what one handled event does to the identity
/// layer and what it instructs the view layer to do, by intent and reply.
pub open spec fn event_applied(
    pre: CurrentShader,
    post: CurrentShader,
    event: ShaderEvent,
    response: GraphResponse,
    fresh: Handle,
    actions: Seq<ViewAction>,
) -> bool {
    match (event, response) {
        (
            ShaderEvent::CreateElement { target_position, .. },
            GraphResponse::ElementCreated { element },
        ) => create_applied(pre, post, target_position, element, fresh, actions),
        (ShaderEvent::DeleteNode { id }, GraphResponse::EntityRemoved { found }) => delete_applied(
            pre,
            post,
            EntityFamily::Node,
            id@,
            found,
            actions,
        ),
        (
            ShaderEvent::DeleteInputProperty { id },
            GraphResponse::EntityRemoved { found },
        ) => delete_applied(pre, post, EntityFamily::InputProperty, id@, found, actions),
        (
            ShaderEvent::DeleteOutputProperty { id },
            GraphResponse::EntityRemoved { found },
        ) => delete_applied(pre, post, EntityFamily::OutputProperty, id@, found, actions),
        (
            ShaderEvent::Connect { attempt, from, to },
            GraphResponse::ConnectionAccepted { replaced },
        ) => connect_applied(
            pre,
            post,
            attempt.connection_to,
            attempt.connection_from,
            replaced,
            from,
            to,
            fresh,
            actions,
        ),
        (ShaderEvent::Connect { .. }, GraphResponse::ConnectionRejected { .. }) => {
            connect_rejected_applied(pre, post, actions)
        },
        _ => false,
    }
}

/// Applies one intent to the identity layer, given the graph model's reply
/// to it, and returns the view-layer instructions, in order. `fresh` is the
/// handle the view layer reserved for whatever this event may spawn; delete
/// intents spawn nothing and leave it unused.
pub fn handle_shader_event(
    current: &mut CurrentShader,
    event: ShaderEvent,
    response: GraphResponse,
    fresh: Handle,
) -> (actions: Vec<ViewAction>)
    requires
        old(current).wf(),
        response_matches(event, response),
        ids_fresh(*old(current), event, response),
    ensures
        final(current).wf(),
        event_applied(*old(current), *final(current), event, response, fresh, actions@),
{
    let mut actions: Vec<ViewAction> = Vec::new();
    match (event, response) {
        (
            ShaderEvent::CreateElement { target_position, candidate: _ },
            GraphResponse::ElementCreated { element },
        ) => {
            let id = match &element {
                CreatedElement::Node { id, .. } => id.clone(),
                CreatedElement::InputProperty { reference, .. } => reference.clone(),
                CreatedElement::OutputProperty { reference, .. } => reference.clone(),
            };
            match &element {
                CreatedElement::Node { .. } => current.node_entities.insert(id, fresh),
                CreatedElement::InputProperty { .. } => current.input_property_entities.insert(
                    id,
                    fresh,
                ),
                CreatedElement::OutputProperty { .. } => current.output_property_entities.insert(
                    id,
                    fresh,
                ),
            }
            actions.push(
                ViewAction::SpawnElement { handle: fresh, position: target_position, element },
            );
        },
        (ShaderEvent::DeleteNode { id }, GraphResponse::EntityRemoved { found }) => {
            if !found {
                actions.push(
                    ViewAction::Log {
                        level: LogLevel::Error,
                        message: "Shader did not have a Node with id ".to_owned().concat(
                            id.as_str(),
                        ),
                    },
                );
            }
            let action = current.delete_node_entity(&id);
            actions.push(action);
        },
        (ShaderEvent::DeleteInputProperty { id }, GraphResponse::EntityRemoved { found }) => {
            if !found {
                actions.push(
                    ViewAction::Log {
                        level: LogLevel::Error,
                        message: "Shader did not have an input with id ".to_owned().concat(
                            id.as_str(),
                        ),
                    },
                );
            }
            let action = current.delete_input_property_entity(&id);
            actions.push(action);
        },
        (ShaderEvent::DeleteOutputProperty { id }, GraphResponse::EntityRemoved { found }) => {
            if !found {
                actions.push(
                    ViewAction::Log {
                        level: LogLevel::Error,
                        message: "Shader did not have an output property with id ".to_owned()
                            .concat(id.as_str()),
                    },
                );
            }
            let action = current.delete_output_property_entity(&id);
            actions.push(action);
        },
        (
            ShaderEvent::Connect { attempt, from, to },
            GraphResponse::ConnectionAccepted { replaced },
        ) => {
            match &replaced {
                Some(prev) => {
                    let action = current.delete_connection_entity(&attempt.connection_to, prev);
                    actions.push(action);
                },
                None => {},
            }
            let id = CurrentShader::unique_connector_id(
                &attempt.connection_to,
                &attempt.connection_from,
            );
            let labelled = id.clone();
            current.connection_entities.insert(id, fresh);
            actions.push(
                ViewAction::SpawnConnector {
                    handle: fresh,
                    output_from: from,
                    input_to: to,
                    connector_id: labelled,
                },
            );
            actions.push(ViewAction::ClearPendingConnection);
        },
        (ShaderEvent::Connect { .. }, GraphResponse::ConnectionRejected { message }) => {
            actions.push(
                ViewAction::Log {
                    level: LogLevel::Error,
                    message: "Failed apply connection: ".to_owned().concat(message.as_str()),
                },
            );
        },
        _ => {
            // Unreachable: the reply fits the intent.
            proof {
                assert(false);
            }
        },
    }
    actions
}

/// Uniqueness: a create indexes exactly the one id the graph model
/// assigned. Afterwards the element's family holds one more live id — the
/// new one, under the fresh handle — every other id keeps the handle it had,
/// and no other family moves; so ids stay pairwise distinct and each live id
/// has exactly one handle, across any sequence of create intents.
pub proof fn lemma_create_keeps_ids_unique(
    pre: CurrentShader,
    post: CurrentShader,
    position: Position,
    element: CreatedElement,
    fresh: Handle,
    actions: Seq<ViewAction>,
)
    requires
        create_applied(pre, post, position, element, fresh, actions),
        !pre.family_view(family_of(element)).contains_key(element.spec_id()),
        pre.family_view(family_of(element)).dom().finite(),
    ensures
        post.family_view(family_of(element))[element.spec_id()] == fresh,
        post.family_view(family_of(element)).dom().len() == pre.family_view(
            family_of(element),
        ).dom().len() + 1,
        forall|k: Seq<char>|
            k != element.spec_id() ==> #[trigger] post.family_view(family_of(element)).contains_key(
                k,
            ) == pre.family_view(family_of(element)).contains_key(k),
        forall|g: EntityFamily| g != family_of(element) ==> post.family_view(g) == pre.family_view(
            g,
        ),
{
}

/// Single-writer replace: after connecting a source to a target that
/// already held another source (with a different connector key), exactly one
/// connection is indexed for the target — the new one, under the fresh
/// handle — the dislodged edge's handle is despawned exactly once, and no
/// entry dangles under the old key.
pub proof fn lemma_single_writer_replace(
    pre: CurrentShader,
    post: CurrentShader,
    to: ConnectionTo,
    from: Connection,
    prev: Connection,
    output_from: Handle,
    input_to: Handle,
    fresh: Handle,
    actions: Seq<ViewAction>,
)
    requires
        connect_applied(pre, post, to, from, Some(prev), output_from, input_to, fresh, actions),
        pre.connection_entities@.contains_key(connector_id_seq(to, prev)),
        connector_id_seq(to, prev) != connector_id_seq(to, from),
    ensures
        !post.connection_entities@.contains_key(connector_id_seq(to, prev)),
        post.connection_entities@.contains_key(connector_id_seq(to, from)),
        post.connection_entities@[connector_id_seq(to, from)] == fresh,
        actions[0] == (ViewAction::Despawn {
            handle: pre.connection_entities@[connector_id_seq(to, prev)],
        }),
        forall|i: int| 0 <= i < actions.len() ==> ((actions[i] is Despawn) <==> i == 0),
{
    assert forall|i: int| 0 <= i < actions.len() implies ((actions[i] is Despawn) <==> i
        == 0) by {
        if i == actions.len() - 2 {
            assert(actions[i] is SpawnConnector);
        }
        if i == actions.len() - 1 {
            assert(actions[i] is ClearPendingConnection);
        }
    }
}

/// Rejection is a no-op: when the graph model rejects a connect attempt,
/// the identity layer after the event is the very value it was before — no
/// map in any family differs.
pub proof fn lemma_rejection_is_no_op(
    pre: CurrentShader,
    post: CurrentShader,
    event: ShaderEvent,
    response: GraphResponse,
    fresh: Handle,
    actions: Seq<ViewAction>,
)
    requires
        event_applied(pre, post, event, response, fresh, actions),
        response is ConnectionRejected,
    ensures
        post == pre,
{
}

/// Delete idempotence on the index: deleting an indexed id and then
/// deleting it again despawns its handle exactly once, answers the second
/// delete with a warning, and leaves the index where the first delete left
/// it — the second pass changes nothing and cannot fail.
pub proof fn lemma_delete_idempotent_on_index(
    s0: CurrentShader,
    s1: CurrentShader,
    s2: CurrentShader,
    family: EntityFamily,
    id: Seq<char>,
    found1: bool,
    found2: bool,
    a1: Seq<ViewAction>,
    a2: Seq<ViewAction>,
)
    requires
        delete_applied(s0, s1, family, id, found1, a1),
        delete_applied(s1, s2, family, id, found2, a2),
        s0.family_view(family).contains_key(id),
    ensures
        a1.last() == (ViewAction::Despawn { handle: s0.family_view(family)[id] }),
        (a2.last() matches ViewAction::Log { level, .. } && level == LogLevel::Warn),
        s2.family_view(family) == s1.family_view(family),
        forall|g: EntityFamily| g != family ==> s2.family_view(g) == s0.family_view(g),
{
    assert(!s1.family_view(family).contains_key(id));
    assert(s2.family_view(family) =~= s1.family_view(family));
}

} // verus!
