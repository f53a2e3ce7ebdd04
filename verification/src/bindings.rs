//! Bind-group descriptor assembly: the resource-binding layouts a pipeline
//! layout is built from, and the uniform-buffer binding used for the camera
//! matrix. Pure descriptor construction; the device objects behind the
//! descriptors are created by the application from these values.

use vstd::prelude::*;
use crate::buffer::GpuBuffer;

verus! {

/// Shader-stage visibility flags, as abstract bit positions in the
/// library's own flag space.
pub const VERTEX_STAGE: u32 = 1;

/// The binding is visible to the fragment stage.
pub const FRAGMENT_STAGE: u32 = 2;

/// What kind of resource a binding slot carries.
#[derive(Clone, Copy, Debug, PartialEq, Eq, Structural)]
pub enum BindingType {
    /// A uniform buffer; `dynamic` offsets are never used here.
    UniformBuffer { dynamic: bool },
    /// A sampled two-dimensional texture.
    SampledTexture { multisampled: bool },
    /// A sampler; `comparison` sampling is never used here.
    Sampler { comparison: bool },
}

/// One entry of a bind-group layout: the binding slot, the stages that see
/// it, and the resource kind it carries.
#[derive(Clone, Copy, Debug, PartialEq, Eq, Structural)]
pub struct BindGroupLayoutEntry {
    pub binding: u32,
    pub visibility: u32,
    pub ty: BindingType,
}

/// A bind-group layout: its entries in binding order.
#[derive(Debug, PartialEq, Eq)]
pub struct BindGroupLayout {
    pub entries: Vec<BindGroupLayoutEntry>,
}

/// One buffer resource bound into a group: the binding slot and the byte
/// range of the buffer it exposes, always starting at offset zero.
#[derive(Clone, Copy, Debug, PartialEq, Eq, Structural)]
pub struct BufferBinding {
    pub binding: u32,
    pub range_end: u64,
}

/// A bind group: the buffer resources bound against a layout.
#[derive(Debug, PartialEq, Eq)]
pub struct BindGroup {
    pub bindings: Vec<BufferBinding>,
}

/// Builds one layout entry.
pub fn create_bind_group_layout_entry(binding: u32, visibility: u32, ty: BindingType) -> (r:
    BindGroupLayoutEntry)
    ensures
        r == (BindGroupLayoutEntry { binding, visibility, ty }),
{
    BindGroupLayoutEntry { binding, visibility, ty }
}

/// Builds the layout of a single non-dynamic uniform buffer at the given
/// binding slot, visible to the given stages.
pub fn create_uniform_bind_group_layout(visibility: u32, binding: u32) -> (r: BindGroupLayout)
    ensures
        r.entries@ == seq![
            BindGroupLayoutEntry {
                binding,
                visibility,
                ty: BindingType::UniformBuffer { dynamic: false },
            },
        ],
{
    let mut entries: Vec<BindGroupLayoutEntry> = Vec::new();
    entries.push(
        create_bind_group_layout_entry(
            binding,
            visibility,
            BindingType::UniformBuffer { dynamic: false },
        ),
    );
    proof {
        assert(entries@ =~= seq![
            BindGroupLayoutEntry {
                binding,
                visibility,
                ty: BindingType::UniformBuffer { dynamic: false },
            },
        ]);
    }
    BindGroupLayout { entries }
}

/// Builds the uniform bind group and its layout in one step: the layout of
/// one uniform buffer at `binding_desc`, and a group binding the first
/// `mem_size` bytes of `uniform_buffer` — which must fit in it — at
/// `binding_group`.
pub fn create_uniform_bind_group(
    visibility: u32,
    binding_desc: u32,
    binding_group: u32,
    uniform_buffer: &GpuBuffer,
    mem_size: u64,
) -> (r: (BindGroup, BindGroupLayout))
    requires
        mem_size <= uniform_buffer.byte_length,
    ensures
        r.1.entries@ == seq![
            BindGroupLayoutEntry {
                binding: binding_desc,
                visibility,
                ty: BindingType::UniformBuffer { dynamic: false },
            },
        ],
        r.0.bindings@ == seq![BufferBinding { binding: binding_group, range_end: mem_size }],
{
    let layout = create_uniform_bind_group_layout(visibility, binding_desc);
    let mut bindings: Vec<BufferBinding> = Vec::new();
    bindings.push(BufferBinding { binding: binding_group, range_end: mem_size });
    proof {
        assert(bindings@ =~= seq![BufferBinding { binding: binding_group, range_end: mem_size }]);
    }
    (BindGroup { bindings }, layout)
}

/// Builds the layout every textured material uses: a sampled
/// two-dimensional texture at binding zero and its sampler at binding one,
/// both visible to the fragment stage only.
pub fn default_texture_bind_group_layout() -> (r: BindGroupLayout)
    ensures
        r.entries@ == seq![
            BindGroupLayoutEntry {
                binding: 0,
                visibility: FRAGMENT_STAGE,
                ty: BindingType::SampledTexture { multisampled: false },
            },
            BindGroupLayoutEntry {
                binding: 1,
                visibility: FRAGMENT_STAGE,
                ty: BindingType::Sampler { comparison: false },
            },
        ],
{
    let mut entries: Vec<BindGroupLayoutEntry> = Vec::new();
    entries.push(
        create_bind_group_layout_entry(
            0,
            FRAGMENT_STAGE,
            BindingType::SampledTexture { multisampled: false },
        ),
    );
    entries.push(
        create_bind_group_layout_entry(1, FRAGMENT_STAGE, BindingType::Sampler { comparison: false }),
    );
    proof {
        assert(entries@ =~= seq![
            BindGroupLayoutEntry {
                binding: 0,
                visibility: FRAGMENT_STAGE,
                ty: BindingType::SampledTexture { multisampled: false },
            },
            BindGroupLayoutEntry {
                binding: 1,
                visibility: FRAGMENT_STAGE,
                ty: BindingType::Sampler { comparison: false },
            },
        ]);
    }
    BindGroupLayout { entries }
}

} // verus!
