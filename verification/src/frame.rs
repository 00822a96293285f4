//! Startup state and the per-frame render pass of the quad program, and the
//! pixel-level outcome of one frame.
//!
//! [`setup`] builds, once, everything a frame reads: the clear options, the
//! pipeline over the two quad shader stages, the quad's vertex and index
//! buffers, and the color uniform. [`draw`] records one frame's render pass
//! over that state: begin with a clear, bind the pipeline and the buffers,
//! one indexed draw of the whole index buffer, end. [`shade_pixel`] says
//! what one pixel of the finished frame shows: the uniform color inside the
//! quad, the clear color outside it.

use vstd::prelude::*;
use vstd::pervasive::unreached;
use crate::buffers::{
    create_index_buffer,
    create_uniform_buffer,
    create_vertex_buffer,
    IndexBuffer,
    UniformBuffer,
    VertexBuffer,
};
use crate::color::{ClearOptions, Color};
use crate::geometry::{
    check_indices_in_range,
    indices_in_range,
    lemma_quad_indices_valid,
    lemma_quad_vertex_data_shape,
    quad_indices,
    quad_vertex_layout,
    quad_vertices,
    spec_quad_attrs,
    spec_quad_indices,
    spec_quad_vertices,
    QUAD_VERTEX_COMPONENTS,
};
use crate::layout::formats_of;
use crate::pipeline::{create_pipeline, BlendMode, Pipeline};
use crate::renderer::{RenderCommand, Renderer};
use crate::scalar::{fx, Fixed};
use crate::shader::{fragment_main, quad_fragment_stage, quad_vertex_stage, TexCoord};

verus! {

/// The color the render target is cleared to each frame.
pub open spec fn spec_default_clear_color() -> Color {
    Color { r: fx(100), g: fx(200), b: fx(300), a: fx(1000) }
}

/// The color the uniform block starts out holding: opaque red.
pub open spec fn spec_default_uniform() -> Seq<Fixed> {
    seq![fx(1000), fx(0), fx(0), fx(1000)]
}

/// Everything a frame reads, built once at startup and immutable after.
#[derive(Clone, Debug, PartialEq)]
pub struct State {
    /// How each frame clears the render target.
    pub clear_options: ClearOptions,
    /// The pipeline every frame binds.
    pub pipeline: Pipeline,
    /// The quad's vertex data.
    pub vertex_buffer: VertexBuffer,
    /// The quad's triangulation.
    pub index_buffer: IndexBuffer,
    /// The color uniform the fragment stage reads.
    pub uniform: UniformBuffer,
}

impl State {
    /// A state is well formed when its vertex buffer holds whole vertices,
    /// every index names one of them, and the uniform block holds exactly
    /// as many scalars as the pipeline declares.
    pub open spec fn wf(self) -> bool {
        &&& self.vertex_buffer.wf()
        &&& indices_in_range(
            self.index_buffer.data@,
            self.vertex_buffer.spec_vertex_count() as nat,
        )
        &&& self.uniform.data@.len() == self.pipeline.uniform_components
    }

    /// Checks [`State::wf`] at run time.
    pub fn is_well_formed(&self) -> (r: bool)
        ensures
            r == self.wf(),
    {
        if self.vertex_buffer.stride == 0 {
            return false;
        }
        if self.vertex_buffer.data.len() % self.vertex_buffer.stride != 0 {
            return false;
        }
        if !check_indices_in_range(&self.index_buffer.data, self.vertex_buffer.vertex_count()) {
            return false;
        }
        self.uniform.data.len() == self.pipeline.uniform_components
    }
}

/// Builds the startup state: the clear options, the pipeline over the quad's
/// two shader stages with normal blending and the (inert) texture binding,
/// the quad's vertex and index buffers, and the opaque-red color uniform at
/// binding slot 1.
pub fn setup() -> (s: State)
    ensures
        s.wf(),
        s.clear_options.color == Some(spec_default_clear_color()),
        s.pipeline.layout.attrs@ =~= spec_quad_attrs(),
        s.pipeline.blend is Normal,
        s.pipeline.texture_slot == 0,
        s.pipeline.texture_name@ == "u_texture"@,
        s.pipeline.uniform_binding == 1,
        s.pipeline.uniform_components == 4,
        s.vertex_buffer.data@ =~= spec_quad_vertices(),
        s.vertex_buffer.stride == QUAD_VERTEX_COMPONENTS,
        s.index_buffer.data@ =~= spec_quad_indices(),
        s.uniform.binding == 1,
        s.uniform.name@ == "u_data"@,
        s.uniform.data@ =~= spec_default_uniform(),
{
    let clear_options = ClearOptions::color(
        Color::new(Fixed::new(100), Fixed::new(200), Fixed::new(300), Fixed::new(1000)),
    );

    let vertex_info = quad_vertex_layout();
    let vertex_stage = quad_vertex_stage();
    let fragment_stage = quad_fragment_stage();
    proof {
        assert(formats_of(vertex_info.attrs@) =~= vertex_stage.inputs@);
    }
    let pipeline = match create_pipeline(
        &vertex_stage,
        &fragment_stage,
        &vertex_info,
        BlendMode::Normal,
        0,
        String::from_str("u_texture"),
    ) {
        Ok(p) => p,
        Err(_) => unreached(),
    };

    proof {
        lemma_quad_vertex_data_shape();
        lemma_quad_indices_valid();
    }
    let vertex_buffer = create_vertex_buffer(&vertex_info, quad_vertices());
    let index_buffer = create_index_buffer(quad_indices());

    let mut uniform_data: Vec<Fixed> = Vec::new();
    uniform_data.push(Fixed::new(1000));
    uniform_data.push(Fixed::new(0));
    uniform_data.push(Fixed::new(0));
    uniform_data.push(Fixed::new(1000));
    let uniform = create_uniform_buffer(1, String::from_str("u_data"), uniform_data);

    State { clear_options, pipeline, vertex_buffer, index_buffer, uniform }
}

/// The command sequence one frame records over `state`: begin with the
/// state's clear options, bind the pipeline, bind the vertex and index
/// streams, bind the color uniform, draw the whole index buffer once, end.
pub open spec fn spec_frame_commands(state: State) -> Seq<RenderCommand> {
    seq![
        RenderCommand::Begin { clear: Some(state.clear_options) },
        RenderCommand::BindPipeline,
        RenderCommand::BindGeometry {
            vertex_count: state.vertex_buffer.spec_vertex_count() as usize,
            index_count: state.index_buffer.data@.len() as usize,
        },
        RenderCommand::BindUniform { binding: state.uniform.binding },
        RenderCommand::DrawIndexed {
            first_index: 0,
            index_count: state.index_buffer.data@.len() as usize,
        },
        RenderCommand::End,
    ]
}

/// Records one frame's render pass over `state` and returns it, finalized
/// and ready to submit: exactly the sequence of [`spec_frame_commands`].
pub fn draw(state: &State) -> (r: Renderer)
    requires
        state.wf(),
    ensures
        r.phase is Ended,
        r.commands@ =~= spec_frame_commands(*state),
{
    let mut renderer = Renderer::new();
    renderer.begin(Some(state.clear_options));
    renderer.set_pipeline(&state.pipeline);
    renderer.bind_buffers(&state.vertex_buffer, &state.index_buffer);
    renderer.bind_buffer(&state.uniform);
    let index_count = state.index_buffer.data.len();
    match renderer.draw(0, index_count) {
        Ok(()) => {},
        Err(_) => unreached(),
    }
    renderer.end();
    renderer
}

/// True when clip-space point `(x, y)` lies on the quad, whose corners sit
/// at `±1` on both axes.
pub open spec fn spec_quad_covers(x: Fixed, y: Fixed) -> bool {
    &&& -1000 <= x.thousandths <= 1000
    &&& -1000 <= y.thousandths <= 1000
}

/// True when clip-space point `(x, y)` lies on the quad.
pub fn quad_covers(x: Fixed, y: Fixed) -> (r: bool)
    ensures
        r == spec_quad_covers(x, y),
{
    -1000 <= x.thousandths && x.thousandths <= 1000 && -1000 <= y.thousandths
        && y.thousandths <= 1000
}

/// What one pixel of the finished frame shows. A pixel the quad covers
/// shows the fragment stage's output — the uniform color, since that stage
/// ignores its texture coordinate; a pixel outside the quad keeps the clear
/// color, or `None` where the pass cleared nothing.
pub fn shade_pixel(x: Fixed, y: Fixed, uniform: &UniformBuffer, clear_options: ClearOptions) -> (c:
    Option<Color>)
    requires
        uniform.data@.len() == 4,
    ensures
        spec_quad_covers(x, y) ==> c == Some(
            Color {
                r: uniform.data@[0],
                g: uniform.data@[1],
                b: uniform.data@[2],
                a: uniform.data@[3],
            },
        ),
        !spec_quad_covers(x, y) ==> c == clear_options.color,
{
    if quad_covers(x, y) {
        // The interpolated texture coordinate plays no part: the fragment
        // stage discards it.
        Some(fragment_main(TexCoord { u: x, v: y }, &uniform.data))
    } else {
        clear_options.color
    }
}

} // verus!
