//! Building a pipeline: shader stages, vertex layout, blend state and the
//! declared bindings, linked into one immutable handle.
//!
//! A build succeeds exactly when the vertex layout's attribute formats match
//! the vertex stage's declared inputs and the vertex stage's outputs match
//! the fragment stage's inputs; each mismatch is its own error.

use vstd::prelude::*;
use crate::layout::{formats_of, VertexAttr, VertexFormat, VertexLayout};
use crate::shader::{FragmentStage, VertexStage};

verus! {

/// How source and destination colors combine.
#[derive(Clone, Copy, Debug, PartialEq, Eq, Structural)]
pub enum BlendMode {
    /// Standard alpha-over blending.
    Normal,
    /// Source replaces destination.
    Replace,
}

/// Why a pipeline build failed.
#[derive(Clone, Copy, Debug, PartialEq, Eq, Structural)]
pub enum PipelineBuildError {
    /// The vertex layout's attribute formats do not match the vertex
    /// stage's declared inputs.
    AttributeMismatch,
    /// The vertex stage's outputs do not match the fragment stage's inputs.
    StageLinkMismatch,
}

/// A built pipeline: the vertex layout, blend state and declared bindings
/// that every render pass using it binds. Immutable after creation.
#[derive(Clone, Debug, PartialEq, Eq)]
pub struct Pipeline {
    /// The vertex attribute layout the pipeline consumes.
    pub layout: VertexLayout,
    /// The blend state.
    pub blend: BlendMode,
    /// The binding slot of the declared texture sampler.
    pub texture_slot: u32,
    /// The name of the declared texture sampler. Declared but never
    /// populated nor sampled by the quad's fragment stage.
    pub texture_name: String,
    /// The binding slot of the fragment stage's uniform block.
    pub uniform_binding: u32,
    /// How many 32-bit scalars the uniform block declares; a bound uniform
    /// buffer must hold exactly this many.
    pub uniform_components: usize,
}

/// True when `a` and `b` list the same formats in the same order.
fn formats_equal(a: &Vec<VertexFormat>, b: &Vec<VertexFormat>) -> (r: bool)
    ensures
        r <==> a@ =~= b@,
{
    if a.len() != b.len() {
        return false;
    }
    let mut i: usize = 0;
    while i < a.len()
        invariant
            i <= a@.len(),
            a@.len() == b@.len(),
            forall|j: int| 0 <= j < i ==> a@[j] == b@[j],
        decreases a@.len() - i,
    {
        if a[i] != b[i] {
            return false;
        }
        i = i + 1;
    }
    true
}

/// True when the layout's attribute formats are exactly the vertex stage's
/// declared inputs, in order.
pub open spec fn layout_matches_stage(layout: VertexLayout, vertex: VertexStage) -> bool {
    formats_of(layout.attrs@) =~= vertex.inputs@
}

/// True when the vertex stage's outputs are exactly the fragment stage's
/// inputs, in order.
pub open spec fn stages_link(vertex: VertexStage, fragment: FragmentStage) -> bool {
    vertex.outputs@ =~= fragment.inputs@
}

/// Builds a pipeline from a pair of shader stages, a vertex layout, a blend
/// mode and a named texture binding. Succeeds exactly when the layout
/// matches the vertex stage and the two stages link; the pipeline then
/// carries the layout, the blend state and the fragment stage's declared
/// uniform block.
pub fn create_pipeline(
    vertex: &VertexStage,
    fragment: &FragmentStage,
    layout: &VertexLayout,
    blend: BlendMode,
    texture_slot: u32,
    texture_name: String,
) -> (r: Result<Pipeline, PipelineBuildError>)
    ensures
        r is Ok <==> layout_matches_stage(*layout, *vertex) && stages_link(*vertex, *fragment),
        !layout_matches_stage(*layout, *vertex) <==> r == Err::<Pipeline, _>(
            PipelineBuildError::AttributeMismatch,
        ),
        layout_matches_stage(*layout, *vertex) && !stages_link(*vertex, *fragment) <==> r
            == Err::<Pipeline, _>(PipelineBuildError::StageLinkMismatch),
        r matches Ok(p) ==> {
            &&& p.layout.attrs@ =~= layout.attrs@
            &&& p.blend == blend
            &&& p.texture_slot == texture_slot
            &&& p.texture_name@ == texture_name@
            &&& p.uniform_binding == fragment.uniform_binding
            &&& p.uniform_components == fragment.uniform_components
        },
{
    let mut attrs_copy: Vec<VertexAttr> = Vec::new();
    let mut layout_formats: Vec<VertexFormat> = Vec::new();
    let mut i: usize = 0;
    while i < layout.attrs.len()
        invariant
            i <= layout.attrs@.len(),
            attrs_copy@ =~= layout.attrs@.take(i as int),
            layout_formats@ =~= formats_of(layout.attrs@.take(i as int)),
        decreases layout.attrs@.len() - i,
    {
        attrs_copy.push(layout.attrs[i]);
        layout_formats.push(layout.attrs[i].format);
        proof {
            assert(layout.attrs@.take(i + 1) =~= layout.attrs@.take(i as int).push(
                layout.attrs@[i as int],
            ));
        }
        i = i + 1;
    }
    proof {
        assert(layout.attrs@.take(layout.attrs@.len() as int) =~= layout.attrs@);
    }
    if !formats_equal(&layout_formats, &vertex.inputs) {
        return Err(PipelineBuildError::AttributeMismatch);
    }
    if !formats_equal(&vertex.outputs, &fragment.inputs) {
        return Err(PipelineBuildError::StageLinkMismatch);
    }
    Ok(
        Pipeline {
            layout: VertexLayout { attrs: attrs_copy },
            blend,
            texture_slot,
            texture_name,
            uniform_binding: fragment.uniform_binding,
            uniform_components: fragment.uniform_components,
        },
    )
}

} // verus!
