use quad_render::buffers::{create_index_buffer, create_vertex_buffer};
use quad_render::frame::{draw, setup};
use quad_render::geometry::{quad_vertex_layout, quad_vertices};
use quad_render::layout::VertexLayout;
use quad_render::pipeline::{create_pipeline, BlendMode, PipelineBuildError};
use quad_render::renderer::{DrawError, Phase, RenderCommand, Renderer};
use quad_render::shader::{quad_fragment_stage, quad_vertex_stage, FragmentStage, VertexStage};

#[test]
fn quad_pipeline_builds_and_carries_its_declarations() {
    let layout = quad_vertex_layout();
    let pipeline = create_pipeline(
        &quad_vertex_stage(),
        &quad_fragment_stage(),
        &layout,
        BlendMode::Normal,
        0,
        "u_texture".to_string(),
    )
    .unwrap();
    assert_eq!(pipeline.layout, layout);
    assert_eq!(pipeline.blend, BlendMode::Normal);
    assert_eq!(pipeline.texture_slot, 0);
    assert_eq!(pipeline.texture_name, "u_texture");
    assert_eq!(pipeline.uniform_binding, 1);
    assert_eq!(pipeline.uniform_components, 4);
}

#[test]
fn pipeline_build_fails_on_layout_mismatch() {
    // An empty layout cannot feed the quad's vertex stage.
    let r = create_pipeline(
        &quad_vertex_stage(),
        &quad_fragment_stage(),
        &VertexLayout::new(),
        BlendMode::Normal,
        0,
        "u_texture".to_string(),
    );
    assert_eq!(r.unwrap_err(), PipelineBuildError::AttributeMismatch);
}

#[test]
fn pipeline_build_fails_on_stage_link_mismatch() {
    // A vertex stage that emits no varyings cannot feed the quad's fragment
    // stage, which consumes one.
    let silent_vertex_stage = VertexStage {
        inputs: quad_vertex_stage().inputs,
        outputs: Vec::new(),
    };
    let r = create_pipeline(
        &silent_vertex_stage,
        &quad_fragment_stage(),
        &quad_vertex_layout(),
        BlendMode::Normal,
        0,
        "u_texture".to_string(),
    );
    assert_eq!(r.unwrap_err(), PipelineBuildError::StageLinkMismatch);
}

#[test]
fn pipeline_checks_attributes_before_stage_link() {
    let broken_fragment_stage = FragmentStage {
        inputs: Vec::new(),
        uniform_binding: 1,
        uniform_components: 4,
    };
    let r = create_pipeline(
        &quad_vertex_stage(),
        &broken_fragment_stage,
        &VertexLayout::new(),
        BlendMode::Normal,
        0,
        "u_texture".to_string(),
    );
    assert_eq!(r.unwrap_err(), PipelineBuildError::AttributeMismatch);
}

#[test]
fn frame_records_the_six_commands_in_order() {
    let state = setup();
    let renderer = draw(&state);
    assert_eq!(renderer.phase, Phase::Ended);
    assert_eq!(
        renderer.commands,
        vec![
            RenderCommand::Begin { clear: Some(state.clear_options) },
            RenderCommand::BindPipeline,
            RenderCommand::BindGeometry { vertex_count: 4, index_count: 6 },
            RenderCommand::BindUniform { binding: 1 },
            RenderCommand::DrawIndexed { first_index: 0, index_count: 6 },
            RenderCommand::End,
        ]
    );
}

#[test]
fn each_frame_records_an_independent_pass() {
    let state = setup();
    let first = draw(&state);
    let second = draw(&state);
    assert_eq!(first, second);
    assert_eq!(second.commands.len(), 6);
}

#[test]
fn draw_of_the_whole_index_buffer_is_in_bounds() {
    let state = setup();
    let mut renderer = Renderer::new();
    renderer.begin(Some(state.clear_options));
    renderer.set_pipeline(&state.pipeline);
    renderer.bind_buffers(&state.vertex_buffer, &state.index_buffer);
    renderer.bind_buffer(&state.uniform);
    assert_eq!(renderer.draw(0, 6), Ok(()));
    assert_eq!(renderer.phase, Phase::Drawn);
    renderer.end();
    assert_eq!(renderer.phase, Phase::Ended);
}

#[test]
fn draw_past_the_index_buffer_fails_and_changes_nothing() {
    let state = setup();
    let mut renderer = Renderer::new();
    renderer.begin(Some(state.clear_options));
    renderer.set_pipeline(&state.pipeline);
    renderer.bind_buffers(&state.vertex_buffer, &state.index_buffer);
    renderer.bind_buffer(&state.uniform);
    let before = renderer.clone();
    assert_eq!(renderer.draw(0, 7), Err(DrawError::IndexOutOfRange));
    assert_eq!(renderer.draw(3, 4), Err(DrawError::IndexOutOfRange));
    assert_eq!(renderer, before);
    // The pass can still finish with an in-range draw.
    assert_eq!(renderer.draw(0, 6), Ok(()));
    renderer.end();
    assert_eq!(renderer.commands.len(), 6);
}

#[test]
fn setup_state_is_well_formed() {
    let state = setup();
    assert!(state.is_well_formed());
    assert_eq!(state.vertex_buffer.vertex_count(), 4);
    assert_eq!(state.vertex_buffer.stride, 5);
    assert_eq!(state.index_buffer.data.len(), 6);
    assert_eq!(state.uniform.name, "u_data");
    assert_eq!(state.uniform.binding, 1);
}

#[test]
fn vertex_buffer_counts_whole_vertices() {
    let layout = quad_vertex_layout();
    let buffer = create_vertex_buffer(&layout, quad_vertices());
    assert_eq!(buffer.stride, 5);
    assert_eq!(buffer.vertex_count(), 4);
}

#[test]
fn index_buffer_keeps_its_data() {
    let buffer = create_index_buffer(vec![2, 0, 1]);
    assert_eq!(buffer.data, vec![2, 0, 1]);
}
