//! Vocabulary shared with the view layer: opaque handles, canvas positions,
//! leveled diagnostic entries and the instructions the mutation engine hands
//! to the view layer.

use crate::element::CreatedElement;
use vstd::prelude::*;

verus! {

/// Opaque reference to an element's visual representation, chosen and owned
/// by the view layer. This layer never looks inside a handle: it only stores
/// handles and hands them back when the element is to be despawned.
#[derive(Clone, Copy, PartialEq, Eq, Structural, Debug)]
pub struct Handle {
    pub id: u64,
}

/// A position on the editor canvas, carried as the raw bit patterns of the
/// view layer's two coordinates. This layer never interprets a position: it
/// only passes one along with a spawn instruction.
#[derive(Clone, Copy, PartialEq, Eq, Structural, Debug)]
pub struct Position {
    pub x_bits: u32,
    pub y_bits: u32,
}

/// Severity of a diagnostic line. A rejected connection or a missing model
/// entity is an `Error`, a missing handle mapping is a `Warn`, routine
/// progress is `Info`.
#[derive(Clone, Copy, PartialEq, Eq, Structural, Debug)]
pub enum LogLevel {
    Info,
    Warn,
    Error,
}

/// One instruction to the view layer or to the diagnostics sink. The engine
/// only decides and records; the caller performs each instruction in order.
#[derive(Clone, PartialEq, Eq, Debug)]
pub enum ViewAction {
    /// Draw a newly created element at `position`, under `handle`.
    SpawnElement { handle: Handle, position: Position, element: CreatedElement },
    /// Materialize a visual edge between the two elements' handles, under
    /// `handle`, labelled with its connector id.
    SpawnConnector { handle: Handle, output_from: Handle, input_to: Handle, connector_id: String },
    /// Remove the visual representation behind `handle`.
    Despawn { handle: Handle },
    /// Drop the transient pending-connection candidate held by the view
    /// layer, now that the connection is committed.
    ClearPendingConnection,
    /// Report a diagnostic line to the log sink.
    Log { level: LogLevel, message: String },
}

/// One despawn instruction per handle, in order.
pub open spec fn despawn_all(handles: Seq<Handle>) -> Seq<ViewAction> {
    handles.map_values(|h: Handle| (ViewAction::Despawn { handle: h }))
}

} // verus!
