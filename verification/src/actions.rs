//! The commands the engine decides to issue against the device. The engine
//! never talks to a GPU itself: each decision step returns a sequence of
//! these values, the surrounding application performs them in order, and
//! teardown correctness is stated over such a sequence.

use vstd::prelude::*;
use crate::extent::Extent2D;
use crate::pipeline::ShaderStage;

verus! {

/// One command against the device, the surface or the shader-compilation
/// collaborator.
#[derive(Clone, Copy, Debug, PartialEq, Eq, Structural)]
pub enum GpuAction {
    /// Open the device on the selected queue family.
    OpenDevice { queue_family: usize },
    /// Retire the currently configured swapchain images.
    RetireSwapchain,
    /// Apply a swapchain configuration with this effective extent.
    ConfigureSwapchain { extent: Extent2D },
    /// Create the render pass.
    CreateRenderPass,
    /// Create the pipeline layout.
    CreatePipelineLayout,
    /// Hand one shader source to the compilation collaborator.
    CompileShader { stage: ShaderStage },
    /// Wrap one compiled binary in a device shader module.
    CreateShaderModule { stage: ShaderStage },
    /// Create the graphics pipeline from the assembled descriptor.
    CreateGraphicsPipeline,
    /// Destroy a transient shader module; done right after pipeline creation.
    DestroyShaderModule { stage: ShaderStage },
    /// Create a buffer handle of this byte length and usage class.
    CreateBuffer { byte_length: u64, usage: u32 },
    /// Allocate backing memory of this size from this memory type.
    AllocateMemory { memory_type_index: usize, size: u64 },
    /// Bind the allocation to the buffer at this offset.
    BindBufferMemory { offset: u64 },
    /// Create the command pool of one frame slot.
    CreateCommandPool { slot: usize },
    /// Create the submission-complete semaphore of one frame slot.
    CreateSemaphore { slot: usize },
    /// Create the submission fence of one frame slot, initially signaled.
    CreateFence { slot: usize },
    /// Allocate the primary command buffer of one frame slot.
    AllocateCommandBuffer { slot: usize },
    /// Block on a slot's fence with the bounded frame timeout.
    WaitFence { slot: usize },
    /// Reset a slot's fence after its wait succeeded.
    ResetFence { slot: usize },
    /// Reset a slot's command pool, invalidating only that slot's recording.
    ResetCommandPool { slot: usize },
    /// Map the vertex buffer's memory for a host write.
    MapMemory,
    /// Write this many bytes into the mapped memory.
    WriteBuffer { byte_length: u64 },
    /// Flush the mapped range.
    FlushMemory,
    /// Unmap the vertex buffer's memory.
    UnmapMemory,
    /// Create the framebuffer for the acquired image.
    CreateFramebuffer { extent: Extent2D },
    /// Begin recording a slot's command buffer for one-time submission.
    BeginCommands { slot: usize },
    /// Set the viewport; must carry the current effective extent.
    SetViewport { extent: Extent2D },
    /// Set the scissor rectangle; must carry the current effective extent.
    SetScissor { extent: Extent2D },
    /// Bind the graphics pipeline.
    BindPipeline,
    /// Bind the vertex buffer.
    BindVertexBuffer,
    /// Begin the render pass over the framebuffer.
    BeginRenderPass { extent: Extent2D },
    /// Draw this many vertices.
    Draw { vertex_count: u32 },
    /// End the render pass.
    EndRenderPass,
    /// Finish recording the slot's command buffer.
    FinishCommands { slot: usize },
    /// Submit the slot's command buffer, signaling its semaphore and fence.
    Submit { slot: usize },
    /// Present the acquired image, waiting on the slot's semaphore.
    Present { slot: usize },
    /// Destroy the framebuffer of this frame.
    DestroyFramebuffer,
    /// Wait until the device is idle; precedes every destroy on teardown.
    WaitIdle,
    /// Free the vertex buffer's memory.
    FreeMemory,
    /// Destroy the vertex buffer handle.
    DestroyBuffer,
    /// Destroy one slot's semaphore.
    DestroySemaphore { slot: usize },
    /// Destroy one slot's fence.
    DestroyFence { slot: usize },
    /// Destroy the graphics pipeline.
    DestroyPipeline,
    /// Destroy the pipeline layout.
    DestroyPipelineLayout,
    /// Destroy the render pass.
    DestroyRenderPass,
    /// Destroy one slot's command pool.
    DestroyCommandPool { slot: usize },
    /// Unconfigure the swapchain before the surface goes away.
    UnconfigureSwapchain,
    /// Destroy the surface; the device and instance end with ownership.
    DestroySurface,
}

} // verus!
