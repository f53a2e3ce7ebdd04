//! Buffer creation planning: validating a request, selecting backing memory
//! and binding it, each step an explicit decision over device-reported
//! values.

use vstd::prelude::*;
use crate::memory::{
    selected_memory_type, type_compatible, MemoryRequirements, MemoryTypeInfo, find_memory_type,
};

verus! {

/// Buffer usage classes, as abstract bit positions in the library's own
/// flag space.
pub const VERTEX_USAGE: u32 = 1;

/// The buffer backs a uniform block.
pub const UNIFORM_USAGE: u32 = 2;

/// The buffer backs an index list.
pub const INDEX_USAGE: u32 = 4;

/// How buffer creation fails. The first variant is the library's own
/// precondition check; the others propagate device responses.
#[derive(Clone, Copy, Debug, PartialEq, Eq, Structural)]
pub enum BufferError {
    /// The requested byte length was zero; no device call is made.
    ZeroLength,
    /// No enumerated memory type matches the buffer's requirement mask and
    /// the requested properties. Fatal for this buffer.
    NoCompatibleMemoryType,
    /// The device refused to create the buffer handle.
    BufferCreationFailed,
    /// The device refused to allocate the backing memory.
    AllocationFailed,
}

/// A validated buffer request: a positive byte length, a usage class and the
/// memory properties its backing allocation must offer.
#[derive(Clone, Copy, Debug, PartialEq, Eq, Structural)]
pub struct BufferRequest {
    pub byte_length: u64,
    pub usage: u32,
    pub required_properties: u32,
}

impl BufferRequest {
    /// A request never carries a zero length.
    pub open spec fn wf(self) -> bool {
        self.byte_length > 0
    }
}

/// Where a buffer's memory comes from: the selected memory-type index, the
/// full device-reported size to allocate, and the bind offset, always zero —
/// each buffer owns a dedicated allocation.
#[derive(Clone, Copy, Debug, PartialEq, Eq, Structural)]
pub struct AllocationPlan {
    pub memory_type_index: usize,
    pub allocation_size: u64,
    pub bind_offset: u64,
}

/// A buffer whose backing memory is bound. Values of this type exist only
/// through [`bind_buffer`], so holding one witnesses that the request was
/// validated and a compatible allocation was planned before any use.
#[derive(Clone, Copy, Debug, PartialEq, Eq, Structural)]
pub struct GpuBuffer {
    pub byte_length: u64,
    pub usage: u32,
    pub plan: AllocationPlan,
}

impl GpuBuffer {
    /// The buffer's length is fixed at creation; a write must fit in it.
    pub open spec fn fits(self, write_len: u64) -> bool {
        write_len <= self.byte_length
    }
}

/// Validates a buffer request before any device call. A zero byte length is
/// rejected here, so the device is never asked for a zero-sized buffer; any
/// positive length is accepted.
pub fn request_buffer(byte_length: u64, usage: u32, required_properties: u32) -> (r: Result<
    BufferRequest,
    BufferError,
>)
    ensures
        byte_length == 0 ==> r == Err::<BufferRequest, BufferError>(BufferError::ZeroLength),
        byte_length > 0 ==> r == Ok::<BufferRequest, BufferError>(
            BufferRequest { byte_length, usage, required_properties },
        ),
        r matches Ok(req) ==> req.wf(),
{
    if byte_length == 0 {
        Err(BufferError::ZeroLength)
    } else {
        Ok(BufferRequest { byte_length, usage, required_properties })
    }
}

/// Plans the backing allocation for a created buffer from the requirements
/// the device reported: the first compatible memory type, exactly the
/// reported size (which may exceed the requested length because of
/// alignment), bound at offset zero. Fails with `NoCompatibleMemoryType`
/// exactly when no enumerated type matches both the requirement mask and the
/// requested properties.
pub fn plan_allocation(
    request: &BufferRequest,
    requirements: &MemoryRequirements,
    types: &Vec<MemoryTypeInfo>,
) -> (r: Result<AllocationPlan, BufferError>)
    requires
        types@.len() <= 64,
    ensures
        match r {
            Ok(plan) => {
                &&& selected_memory_type(types@, requirements.type_mask, request.required_properties)
                    == Some(plan.memory_type_index as int)
                &&& type_compatible(
                    types@,
                    plan.memory_type_index as int,
                    requirements.type_mask,
                    request.required_properties,
                )
                &&& plan.allocation_size == requirements.size
                &&& plan.bind_offset == 0
            },
            Err(e) => {
                &&& e == BufferError::NoCompatibleMemoryType
                &&& forall|i: int|
                    !type_compatible(types@, i, requirements.type_mask, request.required_properties)
            },
        },
{
    match find_memory_type(types, requirements.type_mask, request.required_properties) {
        Some(index) => Ok(
            AllocationPlan {
                memory_type_index: index,
                allocation_size: requirements.size,
                bind_offset: 0,
            },
        ),
        None => Err(BufferError::NoCompatibleMemoryType),
    }
}

/// Binds a planned allocation to a validated request, yielding the buffer
/// value the rest of the engine works with.
pub fn bind_buffer(request: &BufferRequest, plan: &AllocationPlan) -> (r: GpuBuffer)
    requires
        request.wf(),
    ensures
        r == (GpuBuffer { byte_length: request.byte_length, usage: request.usage, plan: *plan }),
        r.byte_length > 0,
{
    GpuBuffer { byte_length: request.byte_length, usage: request.usage, plan: *plan }
}

} // verus!
