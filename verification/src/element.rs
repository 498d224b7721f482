//! The element vocabulary of the shader graph: value types, node operations,
//! properties, and the candidate/created descriptions exchanged with the
//! graph model around a create intent.

use vstd::prelude::*;

verus! {

/// A GLSL value type, scalar or non-scalar.
#[derive(Clone, Copy, PartialEq, Eq, Structural, Debug)]
pub enum NativeType {
    Bool,
    Int,
    UInt,
    Float,
    Vec2,
    IVec2,
    Vec3,
    IVec3,
    Vec4,
    IVec4,
}

/// A non-scalar GLSL value type, the payload of type construction and split
/// operations.
#[derive(Clone, Copy, PartialEq, Eq, Structural, Debug)]
pub enum NonScalarNativeType {
    Vec2,
    IVec2,
    Vec3,
    IVec3,
    Vec4,
    IVec4,
}

/// A native arithmetic or logic operation a node can perform.
#[derive(Clone, Copy, PartialEq, Eq, Structural, Debug)]
pub enum NativeOperation {
    Add(NativeType),
    Sub(NativeType),
    Mul(NativeType),
    Div(NativeType),
    And,
    Or,
    Xor,
}

/// A built-in GLSL function a node can call.
#[derive(Clone, Copy, PartialEq, Eq, Structural, Debug)]
pub enum NativeFunction {
    Absolute,
    Sine,
    Cosine,
    Tangent,
    SquareRoot,
    Minimum,
    Maximum,
    Normalize,
    DotProduct,
    CrossProduct,
}

/// The operation a node performs, one tag per node kind.
#[derive(Clone, Copy, PartialEq, Eq, Structural, Debug)]
pub enum NodeOperation {
    TypeConstruction(NonScalarNativeType),
    TypeSplit(NonScalarNativeType),
    NativeOperation(NativeOperation),
    NativeFunction(NativeFunction),
}

impl NativeType {
    /// The display name of the type.
    pub open spec fn name_seq(&self) -> Seq<char> {
        match *self {
            NativeType::Bool => "Bool"@,
            NativeType::Int => "Int"@,
            NativeType::UInt => "UInt"@,
            NativeType::Float => "Float"@,
            NativeType::Vec2 => "Vec2"@,
            NativeType::IVec2 => "IVec2"@,
            NativeType::Vec3 => "Vec3"@,
            NativeType::IVec3 => "IVec3"@,
            NativeType::Vec4 => "Vec4"@,
            NativeType::IVec4 => "IVec4"@,
        }
    }

    pub fn display_name(&self) -> (r: &'static str)
        ensures
            r@ == self.name_seq(),
    {
        match *self {
            NativeType::Bool => "Bool",
            NativeType::Int => "Int",
            NativeType::UInt => "UInt",
            NativeType::Float => "Float",
            NativeType::Vec2 => "Vec2",
            NativeType::IVec2 => "IVec2",
            NativeType::Vec3 => "Vec3",
            NativeType::IVec3 => "IVec3",
            NativeType::Vec4 => "Vec4",
            NativeType::IVec4 => "IVec4",
        }
    }
}

impl NonScalarNativeType {
    /// The display name of the type.
    pub open spec fn name_seq(&self) -> Seq<char> {
        match *self {
            NonScalarNativeType::Vec2 => "Vec2"@,
            NonScalarNativeType::IVec2 => "IVec2"@,
            NonScalarNativeType::Vec3 => "Vec3"@,
            NonScalarNativeType::IVec3 => "IVec3"@,
            NonScalarNativeType::Vec4 => "Vec4"@,
            NonScalarNativeType::IVec4 => "IVec4"@,
        }
    }

    pub fn display_name(&self) -> (r: &'static str)
        ensures
            r@ == self.name_seq(),
    {
        match *self {
            NonScalarNativeType::Vec2 => "Vec2",
            NonScalarNativeType::IVec2 => "IVec2",
            NonScalarNativeType::Vec3 => "Vec3",
            NonScalarNativeType::IVec3 => "IVec3",
            NonScalarNativeType::Vec4 => "Vec4",
            NonScalarNativeType::IVec4 => "IVec4",
        }
    }
}

impl NativeOperation {
    /// The display name of the operation.
    pub open spec fn name_seq(&self) -> Seq<char> {
        match *self {
            NativeOperation::Add(_) => "Add"@,
            NativeOperation::Sub(_) => "Sub"@,
            NativeOperation::Mul(_) => "Mul"@,
            NativeOperation::Div(_) => "Div"@,
            NativeOperation::And => "And"@,
            NativeOperation::Or => "Or"@,
            NativeOperation::Xor => "Xor"@,
        }
    }

    pub fn name(&self) -> (r: String)
        ensures
            r@ == self.name_seq(),
    {
        match *self {
            NativeOperation::Add(_) => "Add".to_owned(),
            NativeOperation::Sub(_) => "Sub".to_owned(),
            NativeOperation::Mul(_) => "Mul".to_owned(),
            NativeOperation::Div(_) => "Div".to_owned(),
            NativeOperation::And => "And".to_owned(),
            NativeOperation::Or => "Or".to_owned(),
            NativeOperation::Xor => "Xor".to_owned(),
        }
    }
}

impl NativeFunction {
    /// The GLSL name of the function.
    pub open spec fn name_seq(&self) -> Seq<char> {
        match *self {
            NativeFunction::Absolute => "abs"@,
            NativeFunction::Sine => "sin"@,
            NativeFunction::Cosine => "cos"@,
            NativeFunction::Tangent => "tan"@,
            NativeFunction::SquareRoot => "sqrt"@,
            NativeFunction::Minimum => "min"@,
            NativeFunction::Maximum => "max"@,
            NativeFunction::Normalize => "normalize"@,
            NativeFunction::DotProduct => "dot"@,
            NativeFunction::CrossProduct => "cross"@,
        }
    }

    pub fn function_name(&self) -> (r: &'static str)
        ensures
            r@ == self.name_seq(),
    {
        match *self {
            NativeFunction::Absolute => "abs",
            NativeFunction::Sine => "sin",
            NativeFunction::Cosine => "cos",
            NativeFunction::Tangent => "tan",
            NativeFunction::SquareRoot => "sqrt",
            NativeFunction::Minimum => "min",
            NativeFunction::Maximum => "max",
            NativeFunction::Normalize => "normalize",
            NativeFunction::DotProduct => "dot",
            NativeFunction::CrossProduct => "cross",
        }
    }
}

/// An input variable of the shader, exposed at the graph boundary. The id
/// ("reference") is assigned by the graph model on registration, so a
/// candidate property carries none.
#[derive(Clone, PartialEq, Eq, Debug)]
pub struct InputProperty {
    pub name: String,
    pub glsl_type: NativeType,
    pub uniform: bool,
}

impl InputProperty {
    pub fn new(glsl_type: NativeType, uniform: bool) -> (r: Self)
        ensures
            r.name@ == glsl_type.name_seq(),
            r.glsl_type == glsl_type,
            r.uniform == uniform,
    {
        InputProperty { name: glsl_type.display_name().to_owned(), glsl_type, uniform }
    }
}

/// An output variable of the shader, exposed at the graph boundary.
#[derive(Clone, PartialEq, Eq, Debug)]
pub struct OutputProperty {
    pub name: String,
    pub glsl_type: NativeType,
}

impl OutputProperty {
    pub fn new(glsl_type: NativeType) -> (r: Self)
        ensures
            r.name@ == glsl_type.name_seq(),
            r.glsl_type == glsl_type,
    {
        OutputProperty { name: glsl_type.display_name().to_owned(), glsl_type }
    }
}

/// A named, typed input or output field of a node, part of the metadata the
/// view layer receives with a spawn instruction.
#[derive(Clone, PartialEq, Eq, Debug)]
pub struct Field {
    pub name: String,
    pub glsl_type: NativeType,
}

/// A pending, not-yet-committed description of an element the user intends
/// to create; ids are assigned by the graph model only once the intent is
/// applied.
#[derive(Clone, PartialEq, Eq, Debug)]
pub enum CreationCandidate {
    Node { name: String, operation: NodeOperation },
    InputProperty(InputProperty),
    OutputProperty(OutputProperty),
}

/// What the graph model reports after registering a new element: the id it
/// assigned, the display name, and the field metadata the view layer needs
/// to draw the element's sockets.
#[derive(Clone, PartialEq, Eq, Debug)]
pub enum CreatedElement {
    Node {
        id: String,
        name: String,
        input_fields: Vec<Field>,
        output_fields: Vec<Field>,
    },
    InputProperty { reference: String, name: String, glsl_type: NativeType },
    OutputProperty { reference: String, name: String, glsl_type: NativeType },
}

impl CreatedElement {
    /// The id the graph model assigned, whatever the element kind.
    pub open spec fn spec_id(&self) -> Seq<char> {
        match *self {
            CreatedElement::Node { ref id, .. } => id@,
            CreatedElement::InputProperty { ref reference, .. } => reference@,
            CreatedElement::OutputProperty { ref reference, .. } => reference@,
        }
    }
}

} // verus!
