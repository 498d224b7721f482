//! Tests for the identity layer itself: connector ids, the per-family
//! index, whole-graph loading, and the menu's selection state.

use shady_editor::connection::{Connection, ConnectionTo};
use shady_editor::element::{CreationCandidate, InputProperty, NativeFunction, NativeOperation,
    NativeType, NodeOperation, NonScalarNativeType, OutputProperty};
use shady_editor::events::IOEvent;
use shady_editor::index::EntityMap;
use shady_editor::shader::{CurrentShader, EntityFamily, ShaderLoader};
use shady_editor::ui_state::{IOState, OperationSelection, TypeSelection, UiState};
use shady_editor::view::{Handle, LogLevel, ViewAction};

#[test]
fn connector_id_simple_ends() {
    let id = CurrentShader::unique_connector_id(
        &ConnectionTo::OutputProperty { id: "out1".to_string() },
        &Connection::SingleOutputNode { id: "n1".to_string() },
    );
    assert_eq!(id, "n1_out1");
}

#[test]
fn connector_id_complex_ends() {
    let id = CurrentShader::unique_connector_id(
        &ConnectionTo::Node { id: "t".to_string(), field_name: "g".to_string() },
        &Connection::ComplexOutputNode { id: "n".to_string(), field_name: "f".to_string() },
    );
    assert_eq!(id, "n::f_t::g");
}

#[test]
fn connector_id_is_deterministic() {
    let to = ConnectionTo::Node { id: "t".to_string(), field_name: "g".to_string() };
    let from = Connection::Constant { id: "c".to_string() };
    let first = CurrentShader::unique_connector_id(&to, &from);
    let second = CurrentShader::unique_connector_id(&to, &from);
    assert_eq!(first, second);
    assert_eq!(first, "c_t::g");
}

#[test]
fn connector_id_differs_per_end() {
    let to = ConnectionTo::OutputProperty { id: "out".to_string() };
    let a = CurrentShader::unique_connector_id(
        &to,
        &Connection::InputProperty { id: "a".to_string() },
    );
    let b = CurrentShader::unique_connector_id(
        &to,
        &Connection::InputProperty { id: "b".to_string() },
    );
    assert_ne!(a, b);
}

#[test]
fn entity_map_insert_get_remove() {
    let mut map = EntityMap::new();
    assert_eq!(map.len(), 0);
    map.insert("a".to_string(), Handle { id: 1 });
    map.insert("b".to_string(), Handle { id: 2 });
    assert_eq!(map.len(), 2);
    assert_eq!(map.get(&"a".to_string()), Some(Handle { id: 1 }));
    assert_eq!(map.get(&"b".to_string()), Some(Handle { id: 2 }));
    assert_eq!(map.get(&"c".to_string()), None);
    assert_eq!(map.remove(&"a".to_string()), Some(Handle { id: 1 }));
    assert_eq!(map.remove(&"a".to_string()), None);
    assert_eq!(map.len(), 1);
}

#[test]
fn entity_map_drain_returns_all_handles() {
    let mut map = EntityMap::new();
    map.insert("a".to_string(), Handle { id: 1 });
    map.insert("b".to_string(), Handle { id: 2 });
    map.insert("c".to_string(), Handle { id: 3 });
    let handles = map.drain();
    assert_eq!(handles, vec![Handle { id: 1 }, Handle { id: 2 }, Handle { id: 3 }]);
    assert_eq!(map.len(), 0);
    assert_eq!(map.get(&"a".to_string()), None);
}

#[test]
fn load_tears_down_the_old_layer_after_building() {
    let mut current = CurrentShader::default();
    current.node_entities.insert("old_node".to_string(), Handle { id: 1 });
    current.connection_entities.insert("old_edge".to_string(), Handle { id: 2 });

    let mut loader = ShaderLoader::new("loaded".to_string());
    loader.register(EntityFamily::Node, "new_node".to_string(), Handle { id: 10 });
    loader.register(EntityFamily::OutputProperty, "new_out".to_string(), Handle { id: 11 });

    let actions = current.load(loader);
    assert_eq!(
        actions,
        vec![
            ViewAction::Despawn { handle: Handle { id: 1 } },
            ViewAction::Despawn { handle: Handle { id: 2 } },
            ViewAction::Log {
                level: LogLevel::Info,
                message: "Successfully loaded shader loaded".to_string(),
            },
        ]
    );
    assert_eq!(current.name, "loaded");
    assert_eq!(current.node_entities.get(&"old_node".to_string()), None);
    assert_eq!(current.node_entities.get(&"new_node".to_string()), Some(Handle { id: 10 }));
    assert_eq!(current.output_property_entities.get(&"new_out".to_string()), Some(Handle {
        id: 11,
    }));
}

#[test]
fn failed_load_keeps_the_previous_layer_intact() {
    let mut current = CurrentShader::default();
    current.node_entities.insert("n1".to_string(), Handle { id: 1 });
    current.output_property_entities.insert("out1".to_string(), Handle { id: 2 });

    // Walk a new graph into a fresh layer, but hit an error halfway: the
    // half-built layer is dropped without ever being swapped in.
    let build_result: Result<ShaderLoader, String> = (|| {
        let mut loader = ShaderLoader::new("broken".to_string());
        loader.register(EntityFamily::Node, "new1".to_string(), Handle { id: 10 });
        Err("corrupt shader description".to_string())
    })();
    assert!(build_result.is_err());

    assert_eq!(current.name, "");
    assert_eq!(current.node_entities.get(&"n1".to_string()), Some(Handle { id: 1 }));
    assert_eq!(current.output_property_entities.get(&"out1".to_string()), Some(Handle { id: 2 }));
    assert_eq!(current.node_entities.len(), 1);
    assert_eq!(current.output_property_entities.len(), 1);
}

#[test]
fn delete_entity_methods_report_missing_mappings() {
    let mut current = CurrentShader::default();
    current.constants_entities.insert("c1".to_string(), Handle { id: 4 });
    assert_eq!(
        current.delete_constant_entity(&"c1".to_string()),
        ViewAction::Despawn { handle: Handle { id: 4 } }
    );
    assert_eq!(
        current.delete_constant_entity(&"c1".to_string()),
        ViewAction::Log {
            level: LogLevel::Warn,
            message: "No entity for constant c1".to_string(),
        }
    );
    assert_eq!(
        current.delete_connection_entity(
            &ConnectionTo::OutputProperty { id: "o".to_string() },
            &Connection::Constant { id: "c".to_string() },
        ),
        ViewAction::Log {
            level: LogLevel::Error,
            message: "No entity for connection c_o".to_string(),
        }
    );
}

#[test]
fn io_state_event_title_and_path() {
    let mut state = IOState::Saving("a/b.yaml".to_string());
    assert_eq!(state.title(), "Save");
    assert_eq!(state.event(), IOEvent::Save("a/b.yaml".to_string()));
    state.path_mut().push_str(".bak");
    assert_eq!(state.event(), IOEvent::Save("a/b.yaml.bak".to_string()));

    let state = IOState::Loading("x".to_string());
    assert_eq!(state.title(), "Load");
    assert_eq!(state.event(), IOEvent::Load("x".to_string()));

    let state = IOState::Exporting("y".to_string());
    assert_eq!(state.title(), "Export");
    assert_eq!(state.event(), IOEvent::Export("y".to_string()));
}

#[test]
fn ui_state_defaults_to_nothing_pending() {
    let state = UiState::default();
    assert!(state.candidate.is_none());
    assert!(state.io_state.is_none());
}

#[test]
fn operation_selection_lifts_to_type_selection() {
    let op = OperationSelection::NativeOperation(NativeOperation::Xor);
    assert_eq!(op.type_selection_candidate(), TypeSelection::NativeOperation(NativeOperation::Xor));
    let f = OperationSelection::NativeFunction(NativeFunction::Sine);
    assert_eq!(f.type_selection_candidate(), TypeSelection::NativeFunction(NativeFunction::Sine));
}

#[test]
fn creation_candidates_carry_the_selected_operation() {
    assert_eq!(
        TypeSelection::InputProperty(NativeType::Vec3).creation_candidate(),
        CreationCandidate::InputProperty(InputProperty {
            name: "Vec3".to_string(),
            glsl_type: NativeType::Vec3,
            uniform: false,
        })
    );
    assert_eq!(
        TypeSelection::OutputProperty(NativeType::Float).creation_candidate(),
        CreationCandidate::OutputProperty(OutputProperty {
            name: "Float".to_string(),
            glsl_type: NativeType::Float,
        })
    );
    assert_eq!(
        TypeSelection::TypeConstruction(NonScalarNativeType::Vec2).creation_candidate(),
        CreationCandidate::Node {
            name: "Vec2".to_string(),
            operation: NodeOperation::TypeConstruction(NonScalarNativeType::Vec2),
        }
    );
    assert_eq!(
        TypeSelection::TypeSplit(NonScalarNativeType::IVec4).creation_candidate(),
        CreationCandidate::Node {
            name: "IVec4 Split".to_string(),
            operation: NodeOperation::TypeSplit(NonScalarNativeType::IVec4),
        }
    );
    assert_eq!(
        TypeSelection::NativeOperation(NativeOperation::Add(NativeType::Int)).creation_candidate(),
        CreationCandidate::Node {
            name: "Add".to_string(),
            operation: NodeOperation::NativeOperation(NativeOperation::Add(NativeType::Int)),
        }
    );
    assert_eq!(
        TypeSelection::NativeFunction(NativeFunction::CrossProduct).creation_candidate(),
        CreationCandidate::Node {
            name: "cross".to_string(),
            operation: NodeOperation::NativeFunction(NativeFunction::CrossProduct),
        }
    );
}

#[test]
fn property_constructors_name_after_the_type() {
    let input = InputProperty::new(NativeType::UInt, true);
    assert_eq!(input.name, "UInt");
    assert_eq!(input.glsl_type, NativeType::UInt);
    assert!(input.uniform);
    let output = OutputProperty::new(NativeType::IVec2);
    assert_eq!(output.name, "IVec2");
    assert_eq!(output.glsl_type, NativeType::IVec2);
}
