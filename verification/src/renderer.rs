//! The per-frame render pass: a state machine that records a command
//! sequence.
//!
//! A pass runs `Idle → Begun → PipelineBound → BuffersBound → Drawn →
//! Ended`, strictly in that order, once per frame. Each step appends one
//! command to the recorded sequence; the finished sequence is handed to the
//! graphics device and discarded. The one run-time check is the draw call's
//! index range: a draw whose range leaves the bound index buffer is refused
//! and changes nothing.

use vstd::prelude::*;
use crate::buffers::{IndexBuffer, UniformBuffer, VertexBuffer};
use crate::color::ClearOptions;
use crate::geometry::indices_in_range;
use crate::pipeline::Pipeline;

verus! {

/// Where a render pass stands.
#[derive(Clone, Copy, Debug, PartialEq, Eq, Structural)]
pub enum Phase {
    /// Created; nothing recorded.
    Idle,
    /// The target is cleared (or kept); drawing state may be bound.
    Begun,
    /// A pipeline is bound.
    PipelineBound,
    /// Vertex and index streams are bound.
    BuffersBound,
    /// The draw call is recorded.
    Drawn,
    /// The pass is finalized; the sequence is ready to submit.
    Ended,
}

/// One recorded command of a render pass.
#[derive(Clone, Copy, Debug, PartialEq)]
pub enum RenderCommand {
    /// Start the pass, clearing the target as the options say.
    Begin {
        /// The clear options handed to `begin`, if any.
        clear: Option<ClearOptions>,
    },
    /// Bind the pipeline's shader stages and fixed-function state.
    BindPipeline,
    /// Bind the vertex and index streams.
    BindGeometry {
        /// How many vertices the bound vertex buffer holds.
        vertex_count: usize,
        /// How many indices the bound index buffer holds.
        index_count: usize,
    },
    /// Bind a uniform block at its slot.
    BindUniform {
        /// The block's binding slot.
        binding: u32,
    },
    /// Draw `index_count` indices starting at `first_index`.
    DrawIndexed {
        /// The first index read.
        first_index: usize,
        /// How many indices are read.
        index_count: usize,
    },
    /// Finalize the pass.
    End,
}

/// Why a draw call was refused.
#[derive(Clone, Copy, Debug, PartialEq, Eq, Structural)]
pub enum DrawError {
    /// The requested index range leaves the bound index buffer.
    IndexOutOfRange,
}

/// A render pass being recorded.
#[derive(Clone, Debug, PartialEq)]
pub struct Renderer {
    /// Where the pass stands.
    pub phase: Phase,
    /// The commands recorded so far, in order.
    pub commands: Vec<RenderCommand>,
    /// How many indices the bound index buffer holds; meaningful once
    /// buffers are bound.
    pub index_len: usize,
    /// How many scalars the bound pipeline's uniform block declares;
    /// meaningful once a pipeline is bound.
    pub uniform_components: usize,
}

impl Renderer {
    /// A fresh pass: idle, nothing recorded.
    pub fn new() -> (r: Renderer)
        ensures
            r.phase is Idle,
            r.commands@ =~= Seq::<RenderCommand>::empty(),
    {
        Renderer { phase: Phase::Idle, commands: Vec::new(), index_len: 0, uniform_components: 0 }
    }

    /// Starts the pass, clearing the render target as `clear` says.
    pub fn begin(&mut self, clear: Option<ClearOptions>)
        requires
            old(self).phase is Idle,
        ensures
            final(self).phase is Begun,
            final(self).commands@ == old(self).commands@.push(RenderCommand::Begin { clear }),
            final(self).index_len == old(self).index_len,
            final(self).uniform_components == old(self).uniform_components,
    {
        self.phase = Phase::Begun;
        self.commands.push(RenderCommand::Begin { clear });
    }

    /// Binds `pipeline`'s shader stages and fixed-function state for the
    /// draws that follow.
    pub fn set_pipeline(&mut self, pipeline: &Pipeline)
        requires
            old(self).phase is Begun,
        ensures
            final(self).phase is PipelineBound,
            final(self).commands@ == old(self).commands@.push(RenderCommand::BindPipeline),
            final(self).index_len == old(self).index_len,
            final(self).uniform_components == pipeline.uniform_components,
    {
        self.phase = Phase::PipelineBound;
        self.uniform_components = pipeline.uniform_components;
        self.commands.push(RenderCommand::BindPipeline);
    }

    /// Binds the vertex and index streams. Every index must name a vertex
    /// of `vertex`: the draw call checks its range against the index
    /// buffer, and this is what keeps the indices themselves in range.
    pub fn bind_buffers(&mut self, vertex: &VertexBuffer, index: &IndexBuffer)
        requires
            old(self).phase is PipelineBound,
            vertex.wf(),
            indices_in_range(index.data@, vertex.spec_vertex_count() as nat),
        ensures
            final(self).phase is BuffersBound,
            final(self).commands@ == old(self).commands@.push(
                RenderCommand::BindGeometry {
                    vertex_count: (vertex.spec_vertex_count() as usize),
                    index_count: (index.data@.len() as usize),
                },
            ),
            final(self).index_len == index.data@.len(),
            final(self).uniform_components == old(self).uniform_components,
    {
        self.phase = Phase::BuffersBound;
        self.index_len = index.data.len();
        self.commands.push(
            RenderCommand::BindGeometry {
                vertex_count: vertex.vertex_count(),
                index_count: index.data.len(),
            },
        );
    }

    /// Binds `uniform` at its slot. The block must hold exactly as many
    /// scalars as the bound pipeline declares; anything else the graphics
    /// API leaves undefined.
    pub fn bind_buffer(&mut self, uniform: &UniformBuffer)
        requires
            old(self).phase is BuffersBound,
            uniform.data@.len() == old(self).uniform_components,
        ensures
            final(self).phase is BuffersBound,
            final(self).commands@ == old(self).commands@.push(
                RenderCommand::BindUniform { binding: uniform.binding },
            ),
            final(self).index_len == old(self).index_len,
            final(self).uniform_components == old(self).uniform_components,
    {
        self.commands.push(RenderCommand::BindUniform { binding: uniform.binding });
    }

    /// Records an indexed draw of `index_count` indices starting at
    /// `first_index`. Succeeds exactly when the range stays inside the
    /// bound index buffer; a range that leaves it is refused and the pass
    /// is left as it was.
    pub fn draw(&mut self, first_index: usize, index_count: usize) -> (r: Result<(), DrawError>)
        requires
            old(self).phase is BuffersBound,
        ensures
            r is Ok <==> first_index + index_count <= old(self).index_len,
            r is Err ==> r == Err::<(), _>(DrawError::IndexOutOfRange) && *final(self) == *old(
                self,
            ),
            r is Ok ==> {
                &&& final(self).phase is Drawn
                &&& final(self).commands@ == old(self).commands@.push(
                    RenderCommand::DrawIndexed { first_index, index_count },
                )
                &&& final(self).index_len == old(self).index_len
                &&& final(self).uniform_components == old(self).uniform_components
            },
    {
        if first_index <= self.index_len && index_count <= self.index_len - first_index {
            self.phase = Phase::Drawn;
            self.commands.push(RenderCommand::DrawIndexed { first_index, index_count });
            Ok(())
        } else {
            Err(DrawError::IndexOutOfRange)
        }
    }

    /// Finalizes the pass; the recorded sequence is ready to submit.
    pub fn end(&mut self)
        requires
            old(self).phase is Drawn,
        ensures
            final(self).phase is Ended,
            final(self).commands@ == old(self).commands@.push(RenderCommand::End),
            final(self).index_len == old(self).index_len,
            final(self).uniform_components == old(self).uniform_components,
    {
        self.phase = Phase::Ended;
        self.commands.push(RenderCommand::End);
    }
}

} // verus!
