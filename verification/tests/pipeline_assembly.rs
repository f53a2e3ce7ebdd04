use troxel_core::pipeline::{
    create_pipeline, CompareFunction, CullMode, FrontFace, PipelineConfig, PipelineError,
    PrimitiveTopology, ShaderCompileResult, ShaderStage, VertexAttribute, VertexLayout,
};

fn config(depth: bool) -> PipelineConfig {
    PipelineConfig {
        topology: PrimitiveTopology::TriangleList,
        blend_enabled: true,
        alpha_to_coverage: false,
        depth_attachment: depth,
        vertex_layout: VertexLayout {
            stride: 28,
            attributes: vec![
                VertexAttribute { location: 0, offset: 0 },
                VertexAttribute { location: 1, offset: 12 },
            ],
        },
    }
}

#[test]
fn pipeline_carries_binaries_and_fixed_function_state() {
    let p = create_pipeline(
        ShaderCompileResult::Compiled(vec![7, 8]),
        ShaderCompileResult::Compiled(vec![9]),
        config(false),
        true,
    )
    .unwrap();
    assert_eq!(p.vertex_shader, vec![7, 8]);
    assert_eq!(p.fragment_shader, vec![9]);
    assert_eq!(p.topology, PrimitiveTopology::TriangleList);
    assert_eq!(p.cull_mode, CullMode::Back);
    assert_eq!(p.front_face, FrontFace::CounterClockwise);
    assert!(p.blend_enabled);
    assert!(!p.alpha_to_coverage);
    assert!(p.depth_test.is_none());
    assert_eq!(p.vertex_stride, 28);
    assert_eq!(p.vertex_attributes[1], VertexAttribute { location: 1, offset: 12 });
}

#[test]
fn depth_attachment_brings_less_comparison_write_enabled_test() {
    let p = create_pipeline(
        ShaderCompileResult::Compiled(vec![1]),
        ShaderCompileResult::Compiled(vec![2]),
        config(true),
        true,
    )
    .unwrap();
    let depth = p.depth_test.unwrap();
    assert_eq!(depth.compare, CompareFunction::Less);
    assert!(depth.write_enabled);
}

#[test]
fn vertex_stage_failure_is_reported_first() {
    let r = create_pipeline(
        ShaderCompileResult::Failed,
        ShaderCompileResult::Failed,
        config(false),
        true,
    );
    assert_eq!(
        r.unwrap_err(),
        PipelineError::ShaderCompilationError(ShaderStage::Vertex)
    );
}

#[test]
fn fragment_stage_failure_is_reported_when_vertex_compiles() {
    let r = create_pipeline(
        ShaderCompileResult::Compiled(vec![1]),
        ShaderCompileResult::Failed,
        config(false),
        true,
    );
    assert_eq!(
        r.unwrap_err(),
        PipelineError::ShaderCompilationError(ShaderStage::Fragment)
    );
}

#[test]
fn device_refusal_is_pipeline_creation_failed() {
    let r = create_pipeline(
        ShaderCompileResult::Compiled(vec![1]),
        ShaderCompileResult::Compiled(vec![2]),
        config(false),
        false,
    );
    assert_eq!(r.unwrap_err(), PipelineError::PipelineCreationFailed);
}
