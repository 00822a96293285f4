//! The semantics of the two shader stages, and their interface declarations.
//!
//! The vertex stage passes the texture coordinate through and emits the
//! clip-space position `(x, -y, z, 1)` for an input position `(x, y, z)`:
//! the y axis is flipped. The fragment stage ignores the interpolated
//! texture coordinate and emits the four-component uniform block directly
//! as the output RGBA color.

use vstd::prelude::*;
use crate::color::Color;
use crate::layout::VertexFormat;
use crate::scalar::{fx, Fixed};

verus! {

/// A per-vertex position, as the vertex stage consumes it.
#[derive(Clone, Copy, Debug, PartialEq, Eq, Structural)]
pub struct Position {
    /// Clip-space x.
    pub x: Fixed,
    /// Clip-space y, before the flip.
    pub y: Fixed,
    /// Clip-space z.
    pub z: Fixed,
}

/// A two-component texture coordinate.
#[derive(Clone, Copy, Debug, PartialEq, Eq, Structural)]
pub struct TexCoord {
    /// Horizontal coordinate.
    pub u: Fixed,
    /// Vertical coordinate.
    pub v: Fixed,
}

/// The four-component position the vertex stage emits.
#[derive(Clone, Copy, Debug, PartialEq, Eq, Structural)]
pub struct ClipPosition {
    /// Clip-space x.
    pub x: Fixed,
    /// Clip-space y, after the flip.
    pub y: Fixed,
    /// Clip-space z.
    pub z: Fixed,
    /// Homogeneous w.
    pub w: Fixed,
}

/// What the vertex stage declares: per-vertex inputs and the varyings it
/// hands to the fragment stage, each as a list of formats in location order.
#[derive(Clone, Debug, PartialEq, Eq)]
pub struct VertexStage {
    /// Per-vertex attribute formats, by input location.
    pub inputs: Vec<VertexFormat>,
    /// Varying formats passed on to the fragment stage, by location.
    pub outputs: Vec<VertexFormat>,
}

/// What the fragment stage declares: the varyings it consumes and the
/// uniform block it reads.
#[derive(Clone, Debug, PartialEq, Eq)]
pub struct FragmentStage {
    /// Varying formats consumed, by input location.
    pub inputs: Vec<VertexFormat>,
    /// The binding slot of the uniform block.
    pub uniform_binding: u32,
    /// How many 32-bit scalars the uniform block declares.
    pub uniform_components: usize,
}

/// The interface of the quad's vertex stage: a three-component position and
/// a two-component texture coordinate in, a two-component varying out.
pub fn quad_vertex_stage() -> (s: VertexStage)
    ensures
        s.inputs@ =~= seq![VertexFormat::Float32x3, VertexFormat::Float32x2],
        s.outputs@ =~= seq![VertexFormat::Float32x2],
{
    let mut inputs: Vec<VertexFormat> = Vec::new();
    inputs.push(VertexFormat::Float32x3);
    inputs.push(VertexFormat::Float32x2);
    let mut outputs: Vec<VertexFormat> = Vec::new();
    outputs.push(VertexFormat::Float32x2);
    VertexStage { inputs, outputs }
}

/// The interface of the quad's fragment stage: a two-component varying in,
/// and a four-scalar uniform block at binding slot 1.
pub fn quad_fragment_stage() -> (s: FragmentStage)
    ensures
        s.inputs@ =~= seq![VertexFormat::Float32x2],
        s.uniform_binding == 1,
        s.uniform_components == 4,
{
    let mut inputs: Vec<VertexFormat> = Vec::new();
    inputs.push(VertexFormat::Float32x2);
    FragmentStage { inputs, uniform_binding: 1, uniform_components: 4 }
}

/// The vertex stage: passes the texture coordinate through and emits
/// `(x, -y, z, 1)` for the input position `(x, y, z)` — the y axis flips.
pub fn vertex_main(position: Position, texcoord: TexCoord) -> (r: (ClipPosition, TexCoord))
    requires
        position.y.thousandths != i32::MIN,
    ensures
        r.0.x == position.x,
        r.0.y.thousandths == -(position.y.thousandths as int),
        r.0.z == position.z,
        r.0.w == fx(1000),
        r.1 == texcoord,
{
    let clip = ClipPosition {
        x: position.x,
        y: position.y.neg(),
        z: position.z,
        w: Fixed::new(1000),
    };
    (clip, texcoord)
}

/// The fragment stage: ignores the interpolated texture coordinate and
/// emits the uniform block's four scalars directly as the RGBA color.
pub fn fragment_main(_texcoord: TexCoord, uniform: &Vec<Fixed>) -> (c: Color)
    requires
        uniform@.len() == 4,
    ensures
        c == (Color { r: uniform@[0], g: uniform@[1], b: uniform@[2], a: uniform@[3] }),
{
    Color { r: uniform[0], g: uniform[1], b: uniform[2], a: uniform[3] }
}

/// The y flip inverts vertical order: of two positions, the one that was
/// lower in the input is the higher of the two emitted clip-space positions.
pub proof fn lemma_y_flip_inverts_vertical_order(a: Position, b: Position)
    requires
        a.y.thousandths != i32::MIN,
        b.y.thousandths != i32::MIN,
        a.y.thousandths < b.y.thousandths,
    ensures
        -(a.y.thousandths as int) > -(b.y.thousandths as int),
{
}

} // verus!
