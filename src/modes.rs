//! The GL tokens that select a matrix stack and a primitive mode.
use vstd::prelude::*;

verus! {

pub const GL_MODELVIEW: u32 = 0x1700;

pub const GL_PROJECTION: u32 = 0x1701;

/// Which of the two matrix stacks the matrix commands act on.
#[derive(Clone, Copy, Debug, PartialEq, Eq, Structural)]
pub enum MatrixMode {
    ModelView,
    Projection,
}

impl MatrixMode {
    pub open spec fn index_spec(self) -> int {
        match self {
            MatrixMode::ModelView => 0,
            MatrixMode::Projection => 1,
        }
    }

    /// The position of the mode's stack: 0 for model-view, 1 for projection.
    pub fn index(self) -> (r: usize)
        ensures
            r == self.index_spec(),
    {
        match self {
            MatrixMode::ModelView => 0,
            MatrixMode::Projection => 1,
        }
    }

    pub open spec fn from_gl_spec(token: u32) -> Option<MatrixMode> {
        if token == GL_MODELVIEW {
            Some(MatrixMode::ModelView)
        } else if token == GL_PROJECTION {
            Some(MatrixMode::Projection)
        } else {
            None
        }
    }

    /// The mode that a `glMatrixMode` token names; `None` for any other token.
    pub fn from_gl(token: u32) -> (r: Option<MatrixMode>)
        ensures
            r == Self::from_gl_spec(token),
    {
        if token == GL_MODELVIEW {
            Some(MatrixMode::ModelView)
        } else if token == GL_PROJECTION {
            Some(MatrixMode::Projection)
        } else {
            None
        }
    }
}

/// The kinds of primitive that `glBegin` starts, in the order of their tokens 0 to 9.
#[derive(Clone, Copy, Debug, PartialEq, Eq, Structural)]
pub enum PrimitiveMode {
    Points,
    Lines,
    LineStrip,
    LineLoop,
    Triangles,
    TriangleStrip,
    TriangleFan,
    Quads,
    QuadStrip,
    Polygon,
}

impl PrimitiveMode {
    pub open spec fn from_gl_spec(token: u32) -> Option<PrimitiveMode> {
        if token == 0 {
            Some(PrimitiveMode::Points)
        } else if token == 1 {
            Some(PrimitiveMode::Lines)
        } else if token == 2 {
            Some(PrimitiveMode::LineStrip)
        } else if token == 3 {
            Some(PrimitiveMode::LineLoop)
        } else if token == 4 {
            Some(PrimitiveMode::Triangles)
        } else if token == 5 {
            Some(PrimitiveMode::TriangleStrip)
        } else if token == 6 {
            Some(PrimitiveMode::TriangleFan)
        } else if token == 7 {
            Some(PrimitiveMode::Quads)
        } else if token == 8 {
            Some(PrimitiveMode::QuadStrip)
        } else if token == 9 {
            Some(PrimitiveMode::Polygon)
        } else {
            None
        }
    }

    /// The mode that a `glBegin` token names; `None` for a token above 9.
    pub fn from_gl(token: u32) -> (r: Option<PrimitiveMode>)
        ensures
            r == Self::from_gl_spec(token),
            r.is_some() <==> token < 10,
    {
        match token {
            0 => Some(PrimitiveMode::Points),
            1 => Some(PrimitiveMode::Lines),
            2 => Some(PrimitiveMode::LineStrip),
            3 => Some(PrimitiveMode::LineLoop),
            4 => Some(PrimitiveMode::Triangles),
            5 => Some(PrimitiveMode::TriangleStrip),
            6 => Some(PrimitiveMode::TriangleFan),
            7 => Some(PrimitiveMode::Quads),
            8 => Some(PrimitiveMode::QuadStrip),
            9 => Some(PrimitiveMode::Polygon),
            _ => None,
        }
    }

    pub open spec fn rasterized_spec(self) -> bool {
        match self {
            PrimitiveMode::Triangles | PrimitiveMode::Quads | PrimitiveMode::TriangleStrip
            | PrimitiveMode::TriangleFan | PrimitiveMode::Polygon => true,
            _ => false,
        }
    }

    /// The mode is one that the rasterising back end turns into triangles.
    pub fn rasterized(self) -> (r: bool)
        ensures
            r == self.rasterized_spec(),
    {
        match self {
            PrimitiveMode::Triangles | PrimitiveMode::Quads | PrimitiveMode::TriangleStrip
            | PrimitiveMode::TriangleFan | PrimitiveMode::Polygon => true,
            _ => false,
        }
    }
}

} // verus!
