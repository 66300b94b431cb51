//! The value and type vocabulary that graph nodes refer to.

use vstd::prelude::*;

verus! {

/// Dimensionality of a sampled texture.
#[derive(Debug, Clone, Copy, PartialEq, Eq, PartialOrd, Ord, Hash)]
pub enum Dim {
    Dim1D,
    Dim2D,
    Dim3D,
    DimCube,
    DimRect,
    DimBuffer,
    DimSubpassData,
}

/// A value type of the shading language.
#[derive(Debug, PartialEq, Eq, PartialOrd, Ord, Hash)]
pub enum TypeName {
    Bool,
    /// An integer; the flag tells whether it is signed.
    Int(bool),
    /// A floating point scalar; the flag tells whether it has double precision.
    Float(bool),
    /// A vector with the given number of components.
    Vec(u32),
    /// A square matrix of the given dimension over an element type.
    Mat(u32, Box<TypeName>),
    /// A sampler over a sampled type and a texture dimensionality.
    Sampler(Box<TypeName>, Dim),
}

impl Clone for TypeName {
    fn clone(&self) -> (r: Self)
        ensures
            r == *self,
        decreases self,
    {
        match self {
            TypeName::Bool => TypeName::Bool,
            TypeName::Int(s) => TypeName::Int(*s),
            TypeName::Float(d) => TypeName::Float(*d),
            TypeName::Vec(n) => TypeName::Vec(*n),
            TypeName::Mat(n, t) => TypeName::Mat(*n, Box::new((**t).clone())),
            TypeName::Sampler(t, d) => TypeName::Sampler(Box::new((**t).clone()), *d),
        }
    }
}

/// A literal constant. Each component is the IEEE 754 bit pattern of a
/// double precision number (as given by `f64::to_bits`).
#[derive(Debug, Clone, Copy, PartialEq, Eq, PartialOrd, Ord, Hash)]
pub enum TypedValue {
    Float(u64),
    Vec2(u64, u64),
    Vec3(u64, u64, u64),
    Vec4(u64, u64, u64, u64),
}

/// One vertex of a shader graph: a declaration, a constant, or an operator.
#[derive(Debug, PartialEq, Eq, PartialOrd, Ord, Hash)]
pub enum Node {
    /// A shader input at a binding index.
    Input(u32, Box<TypeName>),
    /// A uniform at a binding index.
    Uniform(u32, Box<TypeName>),
    /// A shader output at a binding index.
    Output(u32, Box<TypeName>),
    Constant(TypedValue),
    /// Builds a value of the target type from its components.
    Construct(Box<TypeName>),
    /// Reads the component at an index.
    Extract(u32),
    Normalize,
    Add,
    Subtract,
    Multiply,
    Divide,
    Modulus,
    Clamp,
    Dot,
    Cross,
    Floor,
    Ceil,
    Round,
    Sin,
    Cos,
    Tan,
    Pow,
    Min,
    Max,
    Length,
    Distance,
    Reflect,
    Refract,
    Mix,
    Sample,
}

impl Node {
    /// Whether this node declares a shader output.
    pub open spec fn is_output_spec(&self) -> bool {
        self is Output
    }

    /// Whether this node declares a shader output.
    pub fn is_output(&self) -> (r: bool)
        ensures
            r == self.is_output_spec(),
    {
        match self {
            Node::Output(_, _) => true,
            _ => false,
        }
    }
}

impl Node {
    /// The number of incoming edges this kind of node takes, or `None` for a
    /// constructor, which takes one per component of its target type.
    pub open spec fn arity_spec(&self) -> Option<u32> {
        match self {
            Node::Input(_, _) | Node::Uniform(_, _) | Node::Constant(_) => Some(0),
            Node::Construct(_) => None,
            Node::Output(_, _) | Node::Extract(_) | Node::Normalize | Node::Floor | Node::Ceil
            | Node::Round | Node::Sin | Node::Cos | Node::Tan | Node::Length => Some(1),
            Node::Add | Node::Subtract | Node::Multiply | Node::Divide | Node::Modulus | Node::Dot
            | Node::Cross | Node::Pow | Node::Min | Node::Max | Node::Distance | Node::Sample => Some(2),
            Node::Clamp | Node::Mix | Node::Reflect | Node::Refract => Some(3),
        }
    }

    /// The number of incoming edges this kind of node takes, or `None` for a
    /// constructor, which takes one per component of its target type.
    pub fn arity(&self) -> (r: Option<u32>)
        ensures
            r == self.arity_spec(),
    {
        match self {
            Node::Input(_, _) | Node::Uniform(_, _) | Node::Constant(_) => Some(0),
            Node::Construct(_) => None,
            Node::Output(_, _) | Node::Extract(_) | Node::Normalize | Node::Floor | Node::Ceil
            | Node::Round | Node::Sin | Node::Cos | Node::Tan | Node::Length => Some(1),
            Node::Add | Node::Subtract | Node::Multiply | Node::Divide | Node::Modulus | Node::Dot
            | Node::Cross | Node::Pow | Node::Min | Node::Max | Node::Distance | Node::Sample => Some(2),
            Node::Clamp | Node::Mix | Node::Reflect | Node::Refract => Some(3),
        }
    }
}

impl Clone for Node {
    fn clone(&self) -> (r: Self)
        ensures
            r == *self,
    {
        match self {
            Node::Input(i, t) => Node::Input(*i, Box::new((**t).clone())),
            Node::Uniform(i, t) => Node::Uniform(*i, Box::new((**t).clone())),
            Node::Output(i, t) => Node::Output(*i, Box::new((**t).clone())),
            Node::Constant(v) => Node::Constant(*v),
            Node::Construct(t) => Node::Construct(Box::new((**t).clone())),
            Node::Extract(i) => Node::Extract(*i),
            Node::Normalize => Node::Normalize,
            Node::Add => Node::Add,
            Node::Subtract => Node::Subtract,
            Node::Multiply => Node::Multiply,
            Node::Divide => Node::Divide,
            Node::Modulus => Node::Modulus,
            Node::Clamp => Node::Clamp,
            Node::Dot => Node::Dot,
            Node::Cross => Node::Cross,
            Node::Floor => Node::Floor,
            Node::Ceil => Node::Ceil,
            Node::Round => Node::Round,
            Node::Sin => Node::Sin,
            Node::Cos => Node::Cos,
            Node::Tan => Node::Tan,
            Node::Pow => Node::Pow,
            Node::Min => Node::Min,
            Node::Max => Node::Max,
            Node::Length => Node::Length,
            Node::Distance => Node::Distance,
            Node::Reflect => Node::Reflect,
            Node::Refract => Node::Refract,
            Node::Mix => Node::Mix,
            Node::Sample => Node::Sample,
        }
    }
}

} // verus!
