//! The failure taxonomy of the engine core. Every failure here is local and
//! recoverable: a bad draw call at most skips one shape for one frame, and
//! nothing aborts the frame loop.

use vstd::prelude::*;

verus! {

/// A recoverable failure reported by the engine core.
#[derive(Debug, Clone, Copy, PartialEq, Eq, Structural)]
pub enum EngineError {
    /// Geometry that cannot be used, such as interpolation over zero steps
    /// or a zero-length direction vector.
    DegenerateInput,
    /// A pixel write that falls outside the framebuffer; the write is
    /// refused instead of crashing the per-frame path.
    PixelOutOfBounds,
    /// A transform was handed fewer points than the shape needs.
    InvalidPointCount,
}

impl EngineError {
    /// A short human-readable name for the failure.
    pub fn describe(&self) -> (s: &'static str)
        ensures
            *self == EngineError::DegenerateInput ==> s@ == "degenerate input"@,
            *self == EngineError::PixelOutOfBounds ==> s@ == "pixel out of bounds"@,
            *self == EngineError::InvalidPointCount ==> s@ == "invalid point count"@,
    {
        proof {
            reveal_strlit("degenerate input");
            reveal_strlit("pixel out of bounds");
            reveal_strlit("invalid point count");
        }
        match self {
            EngineError::DegenerateInput => "degenerate input",
            EngineError::PixelOutOfBounds => "pixel out of bounds",
            EngineError::InvalidPointCount => "invalid point count",
        }
    }
}

} // verus!
