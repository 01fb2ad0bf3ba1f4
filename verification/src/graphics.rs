//! The plain graphics vocabulary that frames and the render-state cache
//! speak: resource handles and the fixed-function enumerations.
use crate::task_value::TaskValue;
use vstd::prelude::*;

verus! {

/// A handle to a video object: a slot index and the slot's generation.
#[derive(Clone, Copy, Debug, PartialEq, Eq, Structural, Hash, PartialOrd, Ord)]
pub struct Handle {
    pub index: u32,
    pub version: u32,
}

pub type ViewHandle = Handle;

pub type PipelineHandle = Handle;

pub type VertexBufferHandle = Handle;

pub type IndexBufferHandle = Handle;

/// The order of handles: by index, then by version.
pub open spec fn handle_lt(a: Handle, b: Handle) -> bool {
    a.index < b.index || (a.index == b.index && a.version < b.version)
}

/// Whether `a` comes strictly after `b` in the order of handles.
pub fn handle_after(a: Handle, b: Handle) -> (r: bool)
    ensures
        r == handle_lt(b, a),
{
    a.index > b.index || (a.index == b.index && a.version > b.version)
}

/// How vertices are assembled into primitives.
#[derive(Clone, Copy, Debug, PartialEq, Eq, Structural)]
pub enum Primitive {
    Points,
    Lines,
    LineLoop,
    LineStrip,
    Triangles,
    TriangleFan,
    TriangleStrip,
}

/// How often the contents of a buffer are expected to change.
#[derive(Clone, Copy, Debug, PartialEq, Eq, Structural)]
pub enum ResourceHint {
    Static,
    Dynamic,
}

/// The kind of a buffer object.
#[derive(Clone, Copy, Debug, PartialEq, Eq, Structural)]
pub enum Resource {
    Vertex,
    Index,
}

/// The integer type of the indices in an index buffer.
#[derive(Clone, Copy, Debug, PartialEq, Eq, Structural)]
pub enum IndexFormat {
    UByte,
    UShort,
}

/// Which polygon faces are culled.
#[derive(Clone, Copy, Debug, PartialEq, Eq, Structural)]
pub enum CullFace {
    Nothing,
    Front,
    Back,
}

/// The winding order of front-facing polygons.
#[derive(Clone, Copy, Debug, PartialEq, Eq, Structural)]
pub enum FrontFaceOrder {
    Clockwise,
    CounterClockwise,
}

/// A depth comparison function.
#[derive(Clone, Copy, Debug, PartialEq, Eq, Structural)]
pub enum Comparison {
    Never,
    Less,
    LessOrEqual,
    Greater,
    GreaterOrEqual,
    Equal,
    NotEqual,
    Always,
}

/// How source and destination colors are combined.
#[derive(Clone, Copy, Debug, PartialEq, Eq, Structural)]
pub enum Equation {
    Add,
    Subtract,
    ReverseSubtract,
}

/// A color or alpha value that a blend factor refers to.
#[derive(Clone, Copy, Debug, PartialEq, Eq, Structural)]
pub enum BlendValue {
    SourceColor,
    SourceAlpha,
    DestinationColor,
    DestinationAlpha,
}

/// A factor of a blend equation.
#[derive(Clone, Copy, Debug, PartialEq, Eq, Structural)]
pub enum BlendFactor {
    Zero,
    One,
    Value(BlendValue),
    OneMinusValue(BlendValue),
}

/// The format of one component of a vertex attribute.
#[derive(Clone, Copy, Debug, PartialEq, Eq, Structural)]
pub enum VertexFormat {
    Byte,
    UByte,
    Short,
    UShort,
    Fixed,
    Float,
}

impl TaskValue for ResourceHint {
    open spec fn spec_size() -> nat {
        1
    }

    open spec fn spec_encode(self) -> Seq<u8> {
        match self {
            ResourceHint::Static => seq![0u8],
            ResourceHint::Dynamic => seq![1u8],
        }
    }

    open spec fn spec_decode(bytes: Seq<u8>) -> ResourceHint {
        if bytes[0] == 1 {
            ResourceHint::Dynamic
        } else {
            ResourceHint::Static
        }
    }

    proof fn lemma_encode_decode(v: ResourceHint) {
    }

    fn byte_size() -> (n: Option<usize>) {
        Some(1)
    }

    fn encode(&self, out: &mut Vec<u8>) {
        match self {
            ResourceHint::Static => out.push(0u8),
            ResourceHint::Dynamic => out.push(1u8),
        }
    }

    fn decode(bytes: &[u8]) -> (v: ResourceHint) {
        if bytes[0] == 1 {
            ResourceHint::Dynamic
        } else {
            ResourceHint::Static
        }
    }
}

impl TaskValue for IndexFormat {
    open spec fn spec_size() -> nat {
        1
    }

    open spec fn spec_encode(self) -> Seq<u8> {
        match self {
            IndexFormat::UByte => seq![0u8],
            IndexFormat::UShort => seq![1u8],
        }
    }

    open spec fn spec_decode(bytes: Seq<u8>) -> IndexFormat {
        if bytes[0] == 1 {
            IndexFormat::UShort
        } else {
            IndexFormat::UByte
        }
    }

    proof fn lemma_encode_decode(v: IndexFormat) {
    }

    fn byte_size() -> (n: Option<usize>) {
        Some(1)
    }

    fn encode(&self, out: &mut Vec<u8>) {
        match self {
            IndexFormat::UByte => out.push(0u8),
            IndexFormat::UShort => out.push(1u8),
        }
    }

    fn decode(bytes: &[u8]) -> (v: IndexFormat) {
        if bytes[0] == 1 {
            IndexFormat::UShort
        } else {
            IndexFormat::UByte
        }
    }
}

} // verus!
