//! Backend of a visual node-based shader-graph editor: the identity layer
//! that keeps domain-object ids and view-layer handles in a one-to-one
//! correspondence, and the mutation engine that applies create, delete and
//! connect intents against that layer while instructing the view layer what
//! to spawn and despawn.
//!
//! The shader-graph model itself (node registration, id assignment,
//! connection validation) and the view layer (drawing, despawning) are
//! external collaborators: the engine receives the graph model's reply to
//! each intent as a value and returns the view-layer instructions as values,
//! so everything the engine decides is verified here.

pub mod connection;
pub mod element;
pub mod engine;
pub mod events;
pub mod index;
pub mod shader;
pub mod ui_state;
pub mod view;
