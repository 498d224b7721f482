//! Scenario tests for the mutation engine: the event protocol applied to a
//! concrete identity layer, with a hand-played graph model.

use shady_editor::connection::{Connection, ConnectionAttempt, ConnectionTo};
use shady_editor::element::{CreatedElement, CreationCandidate, NativeOperation, NativeType,
    NodeOperation};
use shady_editor::engine::handle_shader_event;
use shady_editor::events::{GraphResponse, ShaderEvent};
use shady_editor::shader::CurrentShader;
use shady_editor::view::{Handle, LogLevel, Position, ViewAction};

fn origin() -> Position {
    Position { x_bits: 0, y_bits: 0 }
}

fn node_candidate(name: &str) -> CreationCandidate {
    CreationCandidate::Node {
        name: name.to_string(),
        operation: NodeOperation::NativeOperation(NativeOperation::Add(NativeType::Float)),
    }
}

fn created_node(id: &str, name: &str) -> CreatedElement {
    CreatedElement::Node {
        id: id.to_string(),
        name: name.to_string(),
        input_fields: vec![],
        output_fields: vec![],
    }
}

fn create_node(current: &mut CurrentShader, id: &str, handle: u64) -> Vec<ViewAction> {
    handle_shader_event(
        current,
        ShaderEvent::CreateElement {
            target_position: origin(),
            candidate: node_candidate(id),
        },
        GraphResponse::ElementCreated { element: created_node(id, id) },
        Handle { id: handle },
    )
}

fn create_output_property(current: &mut CurrentShader, id: &str, handle: u64) -> Vec<ViewAction> {
    handle_shader_event(
        current,
        ShaderEvent::CreateElement {
            target_position: origin(),
            candidate: CreationCandidate::OutputProperty(
                shady_editor::element::OutputProperty::new(NativeType::Float),
            ),
        },
        GraphResponse::ElementCreated {
            element: CreatedElement::OutputProperty {
                reference: id.to_string(),
                name: id.to_string(),
                glsl_type: NativeType::Float,
            },
        },
        Handle { id: handle },
    )
}

fn connect_to_output(
    current: &mut CurrentShader,
    source: Connection,
    target_id: &str,
    replaced: Option<Connection>,
    from: u64,
    to: u64,
    fresh: u64,
) -> Vec<ViewAction> {
    handle_shader_event(
        current,
        ShaderEvent::Connect {
            attempt: ConnectionAttempt {
                connection_from: source,
                connection_to: ConnectionTo::OutputProperty { id: target_id.to_string() },
            },
            from: Handle { id: from },
            to: Handle { id: to },
        },
        GraphResponse::ConnectionAccepted { replaced },
        Handle { id: fresh },
    )
}

#[test]
fn create_indexes_the_new_id() {
    let mut current = CurrentShader::default();
    let actions = create_node(&mut current, "n1", 1);
    assert_eq!(current.node_entities.get(&"n1".to_string()), Some(Handle { id: 1 }));
    assert_eq!(
        actions,
        vec![ViewAction::SpawnElement {
            handle: Handle { id: 1 },
            position: origin(),
            element: created_node("n1", "n1"),
        }]
    );
}

#[test]
fn create_keeps_one_handle_per_id() {
    let mut current = CurrentShader::default();
    create_node(&mut current, "n1", 1);
    create_node(&mut current, "n2", 2);
    create_node(&mut current, "n3", 3);
    assert_eq!(current.node_entities.len(), 3);
    assert_eq!(current.node_entities.get(&"n1".to_string()), Some(Handle { id: 1 }));
    assert_eq!(current.node_entities.get(&"n2".to_string()), Some(Handle { id: 2 }));
    assert_eq!(current.node_entities.get(&"n3".to_string()), Some(Handle { id: 3 }));
}

#[test]
fn example_scenario_connect_and_replace() {
    let mut current = CurrentShader::default();
    create_node(&mut current, "n1", 1);
    create_output_property(&mut current, "out1", 2);

    let actions = connect_to_output(
        &mut current,
        Connection::SingleOutputNode { id: "n1".to_string() },
        "out1",
        None,
        1,
        2,
        3,
    );
    assert_eq!(
        actions,
        vec![
            ViewAction::SpawnConnector {
                handle: Handle { id: 3 },
                output_from: Handle { id: 1 },
                input_to: Handle { id: 2 },
                connector_id: "n1_out1".to_string(),
            },
            ViewAction::ClearPendingConnection,
        ]
    );
    assert_eq!(current.connection_entities.get(&"n1_out1".to_string()), Some(Handle { id: 3 }));

    let actions = connect_to_output(
        &mut current,
        Connection::Constant { id: "c1".to_string() },
        "out1",
        Some(Connection::SingleOutputNode { id: "n1".to_string() }),
        4,
        2,
        5,
    );
    assert_eq!(
        actions,
        vec![
            ViewAction::Despawn { handle: Handle { id: 3 } },
            ViewAction::SpawnConnector {
                handle: Handle { id: 5 },
                output_from: Handle { id: 4 },
                input_to: Handle { id: 2 },
                connector_id: "c1_out1".to_string(),
            },
            ViewAction::ClearPendingConnection,
        ]
    );
    assert_eq!(current.connection_entities.get(&"n1_out1".to_string()), None);
    assert_eq!(current.connection_entities.get(&"c1_out1".to_string()), Some(Handle { id: 5 }));
    assert_eq!(current.connection_entities.len(), 1);
}

#[test]
fn rejected_connection_changes_nothing() {
    let mut current = CurrentShader::default();
    create_node(&mut current, "n1", 1);
    create_output_property(&mut current, "out1", 2);
    connect_to_output(
        &mut current,
        Connection::SingleOutputNode { id: "n1".to_string() },
        "out1",
        None,
        1,
        2,
        3,
    );

    let actions = handle_shader_event(
        &mut current,
        ShaderEvent::Connect {
            attempt: ConnectionAttempt {
                connection_from: Connection::Constant { id: "c1".to_string() },
                connection_to: ConnectionTo::Node {
                    id: "n1".to_string(),
                    field_name: "a".to_string(),
                },
            },
            from: Handle { id: 4 },
            to: Handle { id: 1 },
        },
        GraphResponse::ConnectionRejected { message: "type mismatch".to_string() },
        Handle { id: 9 },
    );
    assert_eq!(
        actions,
        vec![ViewAction::Log {
            level: LogLevel::Error,
            message: "Failed apply connection: type mismatch".to_string(),
        }]
    );
    assert_eq!(current.node_entities.len(), 1);
    assert_eq!(current.output_property_entities.len(), 1);
    assert_eq!(current.connection_entities.len(), 1);
    assert_eq!(current.connection_entities.get(&"n1_out1".to_string()), Some(Handle { id: 3 }));
}

#[test]
fn delete_twice_despawns_once_then_warns() {
    let mut current = CurrentShader::default();
    create_node(&mut current, "n1", 1);

    let first = handle_shader_event(
        &mut current,
        ShaderEvent::DeleteNode { id: "n1".to_string() },
        GraphResponse::EntityRemoved { found: true },
        Handle { id: 9 },
    );
    assert_eq!(first, vec![ViewAction::Despawn { handle: Handle { id: 1 } }]);
    assert_eq!(current.node_entities.len(), 0);

    let second = handle_shader_event(
        &mut current,
        ShaderEvent::DeleteNode { id: "n1".to_string() },
        GraphResponse::EntityRemoved { found: false },
        Handle { id: 9 },
    );
    assert_eq!(
        second,
        vec![
            ViewAction::Log {
                level: LogLevel::Error,
                message: "Shader did not have a Node with id n1".to_string(),
            },
            ViewAction::Log {
                level: LogLevel::Warn,
                message: "No entity for node n1".to_string(),
            },
        ]
    );
    assert_eq!(current.node_entities.len(), 0);
}

#[test]
fn delete_input_and_output_properties() {
    let mut current = CurrentShader::default();
    handle_shader_event(
        &mut current,
        ShaderEvent::CreateElement {
            target_position: origin(),
            candidate: CreationCandidate::InputProperty(
                shady_editor::element::InputProperty::new(NativeType::Int, false),
            ),
        },
        GraphResponse::ElementCreated {
            element: CreatedElement::InputProperty {
                reference: "in1".to_string(),
                name: "Int".to_string(),
                glsl_type: NativeType::Int,
            },
        },
        Handle { id: 7 },
    );
    assert_eq!(current.input_property_entities.get(&"in1".to_string()), Some(Handle { id: 7 }));

    let actions = handle_shader_event(
        &mut current,
        ShaderEvent::DeleteInputProperty { id: "in1".to_string() },
        GraphResponse::EntityRemoved { found: true },
        Handle { id: 9 },
    );
    assert_eq!(actions, vec![ViewAction::Despawn { handle: Handle { id: 7 } }]);

    let actions = handle_shader_event(
        &mut current,
        ShaderEvent::DeleteOutputProperty { id: "missing".to_string() },
        GraphResponse::EntityRemoved { found: false },
        Handle { id: 9 },
    );
    assert_eq!(
        actions,
        vec![
            ViewAction::Log {
                level: LogLevel::Error,
                message: "Shader did not have an output property with id missing".to_string(),
            },
            ViewAction::Log {
                level: LogLevel::Warn,
                message: "No entity for output missing".to_string(),
            },
        ]
    );
}

#[test]
fn replaced_connection_without_handle_is_an_error() {
    let mut current = CurrentShader::default();
    let actions = connect_to_output(
        &mut current,
        Connection::Constant { id: "c1".to_string() },
        "out1",
        Some(Connection::SingleOutputNode { id: "n1".to_string() }),
        1,
        2,
        3,
    );
    assert_eq!(actions.len(), 3);
    assert_eq!(
        actions[0],
        ViewAction::Log {
            level: LogLevel::Error,
            message: "No entity for connection n1_out1".to_string(),
        }
    );
    assert_eq!(actions[2], ViewAction::ClearPendingConnection);
    assert_eq!(current.connection_entities.get(&"c1_out1".to_string()), Some(Handle { id: 3 }));
}
