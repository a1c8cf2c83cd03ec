//! Vertex layouts.

use vstd::prelude::*;

verus! {

/// The vertex type with no attributes at all, for pipelines that generate
/// their geometry in the shader (a bufferless fullscreen pass).
#[derive(Clone, Copy, Debug, PartialEq, Eq, Structural)]
pub struct VertexEmpty {}

} // verus!
