//! Pipeline assembly: turning shader-compilation outcomes and a
//! fixed-function configuration into a graphics pipeline descriptor.

use vstd::prelude::*;

verus! {

/// The shader stages the engine compiles.
#[derive(Clone, Copy, Debug, PartialEq, Eq, Structural)]
pub enum ShaderStage {
    Vertex,
    Fragment,
}

/// What the shader-compilation collaborator returned for one source: the
/// intermediate binary, or a compilation error. Compilation happens once at
/// pipeline-build time, never per frame.
#[derive(Debug)]
pub enum ShaderCompileResult {
    Compiled(Vec<u32>),
    Failed,
}

/// How pipeline construction fails. Both are fatal: a malformed shader must
/// be fixed at build time, and a refused descriptor cannot be retried.
#[derive(Clone, Copy, Debug, PartialEq, Eq, Structural)]
pub enum PipelineError {
    ShaderCompilationError(ShaderStage),
    PipelineCreationFailed,
}

/// The primitive topology a pipeline draws.
#[derive(Clone, Copy, Debug, PartialEq, Eq, Structural)]
pub enum PrimitiveTopology {
    TriangleList,
    LineList,
}

/// Which faces the rasterizer culls.
#[derive(Clone, Copy, Debug, PartialEq, Eq, Structural)]
pub enum CullMode {
    Back,
    Front,
}

/// Which winding counts as the front face.
#[derive(Clone, Copy, Debug, PartialEq, Eq, Structural)]
pub enum FrontFace {
    CounterClockwise,
    Clockwise,
}

/// The depth comparison a depth test applies.
#[derive(Clone, Copy, Debug, PartialEq, Eq, Structural)]
pub enum CompareFunction {
    Less,
    Always,
}

/// An optional depth test: comparison function and whether passing fragments
/// write their depth.
#[derive(Clone, Copy, Debug, PartialEq, Eq, Structural)]
pub struct DepthTest {
    pub compare: CompareFunction,
    pub write_enabled: bool,
}

/// One vertex attribute: its shader location and its byte offset inside the
/// vertex.
#[derive(Clone, Copy, Debug, PartialEq, Eq, Structural)]
pub struct VertexAttribute {
    pub location: u32,
    pub offset: u32,
}

/// The vertex input layout: the stride of one vertex and its attributes.
#[derive(Debug)]
pub struct VertexLayout {
    pub stride: u32,
    pub attributes: Vec<VertexAttribute>,
}

/// What a pipeline request chooses freely; everything else is fixed-function
/// state the engine pins.
#[derive(Debug)]
pub struct PipelineConfig {
    pub topology: PrimitiveTopology,
    pub blend_enabled: bool,
    pub alpha_to_coverage: bool,
    /// Whether the render pass carries a depth attachment; if so the
    /// pipeline gets a less-comparison, write-enabled depth test.
    pub depth_attachment: bool,
    pub vertex_layout: VertexLayout,
}

/// An assembled graphics pipeline: the baked shader binaries plus the full
/// fixed-function state. Immutable once created; a plain extent change never
/// requires recreating it.
#[derive(Debug)]
pub struct PipelineDescriptor {
    pub vertex_shader: Vec<u32>,
    pub fragment_shader: Vec<u32>,
    pub topology: PrimitiveTopology,
    pub cull_mode: CullMode,
    pub front_face: FrontFace,
    pub blend_enabled: bool,
    pub alpha_to_coverage: bool,
    pub depth_test: Option<DepthTest>,
    pub vertex_stride: u32,
    pub vertex_attributes: Vec<VertexAttribute>,
}

/// Whether a descriptor matches what `config` and the two binaries assemble
/// into: culling and winding are fixed (back faces culled, counter-clockwise
/// front), a depth attachment brings a less-comparison, write-enabled depth
/// test, and the shader words and attributes are compared by content.
pub open spec fn pipeline_matches(
    p: PipelineDescriptor,
    vs: Seq<u32>,
    fs: Seq<u32>,
    config: PipelineConfig,
) -> bool {
    &&& p.vertex_shader@ == vs
    &&& p.fragment_shader@ == fs
    &&& p.topology == config.topology
    &&& p.cull_mode == CullMode::Back
    &&& p.front_face == FrontFace::CounterClockwise
    &&& p.blend_enabled == config.blend_enabled
    &&& p.alpha_to_coverage == config.alpha_to_coverage
    &&& p.depth_test == (if config.depth_attachment {
        Some(DepthTest { compare: CompareFunction::Less, write_enabled: true })
    } else {
        Option::<DepthTest>::None
    })
    &&& p.vertex_stride == config.vertex_layout.stride
    &&& p.vertex_attributes@ == config.vertex_layout.attributes@
}

/// Builds a graphics pipeline from the two shader-compilation outcomes, the
/// requested configuration, and the device's verdict on the assembled
/// descriptor. A failed vertex shader is reported before a failed fragment
/// shader; with both compiled, the pipeline exists exactly when the device
/// accepted the descriptor. The shader modules wrapping the binaries are
/// transient: the caller destroys them right after creation, which is why the
/// descriptor keeps the binaries themselves.
pub fn create_pipeline(
    vs: ShaderCompileResult,
    fs: ShaderCompileResult,
    config: PipelineConfig,
    device_accepted: bool,
) -> (r: Result<PipelineDescriptor, PipelineError>)
    ensures
        vs is Failed ==> r == Err::<PipelineDescriptor, PipelineError>(
            PipelineError::ShaderCompilationError(ShaderStage::Vertex),
        ),
        vs is Compiled && fs is Failed ==> r == Err::<PipelineDescriptor, PipelineError>(
            PipelineError::ShaderCompilationError(ShaderStage::Fragment),
        ),
        vs is Compiled && fs is Compiled && !device_accepted ==> r == Err::<
            PipelineDescriptor,
            PipelineError,
        >(PipelineError::PipelineCreationFailed),
        vs is Compiled && fs is Compiled && device_accepted ==> r is Ok,
        r matches Ok(p) ==> {
            &&& vs matches ShaderCompileResult::Compiled(v) && p.vertex_shader@ == v@
            &&& fs matches ShaderCompileResult::Compiled(f) && p.fragment_shader@ == f@
            &&& pipeline_matches(p, p.vertex_shader@, p.fragment_shader@, config)
        },
{
    let vertex_words: Vec<u32> = match vs {
        ShaderCompileResult::Compiled(words) => words,
        ShaderCompileResult::Failed => {
            return Err(PipelineError::ShaderCompilationError(ShaderStage::Vertex));
        },
    };
    let fragment_words: Vec<u32> = match fs {
        ShaderCompileResult::Compiled(words) => words,
        ShaderCompileResult::Failed => {
            return Err(PipelineError::ShaderCompilationError(ShaderStage::Fragment));
        },
    };
    if !device_accepted {
        return Err(PipelineError::PipelineCreationFailed);
    }
    let depth_test: Option<DepthTest> = if config.depth_attachment {
        Some(DepthTest { compare: CompareFunction::Less, write_enabled: true })
    } else {
        None
    };
    Ok(
        PipelineDescriptor {
            vertex_shader: vertex_words,
            fragment_shader: fragment_words,
            topology: config.topology,
            cull_mode: CullMode::Back,
            front_face: FrontFace::CounterClockwise,
            blend_enabled: config.blend_enabled,
            alpha_to_coverage: config.alpha_to_coverage,
            depth_test,
            vertex_stride: config.vertex_layout.stride,
            vertex_attributes: config.vertex_layout.attributes,
        },
    )
}

} // verus!
