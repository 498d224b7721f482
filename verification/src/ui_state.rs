//! The menu's selection state: what the user is about to create, and the
//! pending save/load/export dialog.

use crate::element::{CreationCandidate, InputProperty, NativeFunction, NativeOperation,
    NativeType, NodeOperation, NonScalarNativeType, OutputProperty};
use crate::events::IOEvent;
use vstd::prelude::*;
use vstd::string::StringExecFns;

verus! {

/// The open file dialog, if any, with the path typed so far.
#[derive(Clone, PartialEq, Eq, Debug)]
pub enum IOState {
    Saving(String),
    Loading(String),
    Exporting(String),
}

impl IOState {
    /// The path typed so far.
    pub open spec fn spec_path(&self) -> Seq<char> {
        match *self {
            IOState::Saving(ref p) => p@,
            IOState::Loading(ref p) => p@,
            IOState::Exporting(ref p) => p@,
        }
    }

    /// The I/O request this dialog raises when confirmed.
    pub fn event(&self) -> (r: IOEvent)
        ensures
            match *self {
                IOState::Saving(_) => r matches IOEvent::Save(p) && p@ == self.spec_path(),
                IOState::Loading(_) => r matches IOEvent::Load(p) && p@ == self.spec_path(),
                IOState::Exporting(_) => r matches IOEvent::Export(p) && p@ == self.spec_path(),
            },
    {
        match self {
            IOState::Saving(path) => IOEvent::Save(path.clone()),
            IOState::Loading(path) => IOEvent::Load(path.clone()),
            IOState::Exporting(path) => IOEvent::Export(path.clone()),
        }
    }

    /// The dialog's window title.
    pub fn title(&self) -> (r: &'static str)
        ensures
            match *self {
                IOState::Saving(_) => r@ == "Save"@,
                IOState::Loading(_) => r@ == "Load"@,
                IOState::Exporting(_) => r@ == "Export"@,
            },
    {
        match self {
            IOState::Saving(_) => "Save",
            IOState::Loading(_) => "Load",
            IOState::Exporting(_) => "Export",
        }
    }

    /// The path buffer the dialog's text field edits: whatever the caller
    /// writes through it becomes the dialog's path, and nothing else of the
    /// dialog changes.
    pub fn path_mut(&mut self) -> (r: &mut String)
        ensures
            (*r)@ == old(self).spec_path(),
            *final(self) == (match *old(self) {
                IOState::Saving(_) => IOState::Saving(*final(r)),
                IOState::Loading(_) => IOState::Loading(*final(r)),
                IOState::Exporting(_) => IOState::Exporting(*final(r)),
            }),
    {
        match self {
            IOState::Saving(p) => p,
            IOState::Loading(p) => p,
            IOState::Exporting(p) => p,
        }
    }
}

/// The element type the user has picked, one step short of a creation
/// candidate.
#[derive(Clone, PartialEq, Eq, Debug)]
pub enum TypeSelection {
    InputProperty(NativeType),
    OutputProperty(NativeType),
    TypeConstruction(NonScalarNativeType),
    TypeSplit(NonScalarNativeType),
    NativeOperation(NativeOperation),
    NativeFunction(NativeFunction),
}

/// The operation the user has picked, one step short of a type selection.
#[derive(Clone, PartialEq, Eq, Debug)]
pub enum OperationSelection {
    NativeOperation(NativeOperation),
    NativeFunction(NativeFunction),
}

/// What the menu is building up towards a create intent.
#[derive(Clone, PartialEq, Eq, Debug)]
pub enum Candidate {
    OperationSelection(OperationSelection),
    TypeSelection(TypeSelection),
    Creation(CreationCandidate),
}

/// The menu's whole state.
#[derive(Debug)]
pub struct UiState {
    pub candidate: Option<Candidate>,
    pub io_state: Option<IOState>,
}

impl Default for UiState {
    /// No pending candidate and no open dialog.
    fn default() -> (r: Self)
        ensures
            r.candidate is None,
            r.io_state is None,
    {
        UiState { candidate: None, io_state: None }
    }
}

impl OperationSelection {
    /// Lifts the picked operation into a type selection.
    pub fn type_selection_candidate(&self) -> (r: TypeSelection)
        ensures
            match *self {
                OperationSelection::NativeOperation(o) => r == TypeSelection::NativeOperation(o),
                OperationSelection::NativeFunction(f) => r == TypeSelection::NativeFunction(f),
            },
    {
        match self {
            OperationSelection::NativeOperation(o) => TypeSelection::NativeOperation(*o),
            OperationSelection::NativeFunction(f) => TypeSelection::NativeFunction(*f),
        }
    }
}

impl TypeSelection {
    /// Turns the finished selection into the creation candidate the create
    /// intent will carry: properties are named after their type, a split
    /// node is named `{type} Split`, operation and function nodes after the
    /// operation or function.
    pub fn creation_candidate(&self) -> (r: CreationCandidate)
        ensures
            match *self {
                TypeSelection::InputProperty(t) => r matches CreationCandidate::InputProperty(p)
                    && p.name@ == t.name_seq() && p.glsl_type == t && !p.uniform,
                TypeSelection::OutputProperty(t) => r matches CreationCandidate::OutputProperty(p)
                    && p.name@ == t.name_seq() && p.glsl_type == t,
                TypeSelection::TypeConstruction(t) => r matches CreationCandidate::Node {
                    name,
                    operation,
                } && name@ == t.name_seq() && operation == NodeOperation::TypeConstruction(t),
                TypeSelection::TypeSplit(t) => r matches CreationCandidate::Node {
                    name,
                    operation,
                } && name@ == t.name_seq() + " Split"@ && operation == NodeOperation::TypeSplit(t),
                TypeSelection::NativeOperation(o) => r matches CreationCandidate::Node {
                    name,
                    operation,
                } && name@ == o.name_seq() && operation == NodeOperation::NativeOperation(o),
                TypeSelection::NativeFunction(f) => r matches CreationCandidate::Node {
                    name,
                    operation,
                } && name@ == f.name_seq() && operation == NodeOperation::NativeFunction(f),
            },
    {
        match self {
            TypeSelection::InputProperty(t) => CreationCandidate::InputProperty(
                InputProperty::new(*t, false),
            ),
            TypeSelection::OutputProperty(t) => CreationCandidate::OutputProperty(
                OutputProperty::new(*t),
            ),
            TypeSelection::TypeConstruction(t) => CreationCandidate::Node {
                name: t.display_name().to_owned(),
                operation: NodeOperation::TypeConstruction(*t),
            },
            TypeSelection::TypeSplit(t) => CreationCandidate::Node {
                name: t.display_name().to_owned().concat(" Split"),
                operation: NodeOperation::TypeSplit(*t),
            },
            TypeSelection::NativeOperation(o) => CreationCandidate::Node {
                name: o.name(),
                operation: NodeOperation::NativeOperation(*o),
            },
            TypeSelection::NativeFunction(f) => CreationCandidate::Node {
                name: f.function_name().to_owned(),
                operation: NodeOperation::NativeFunction(*f),
            },
        }
    }
}

} // verus!
