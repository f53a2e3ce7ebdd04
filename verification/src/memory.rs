//! Memory-type selection: picking a device memory type compatible with a
//! buffer's requirements and the requested property flags.

use vstd::prelude::*;

verus! {

/// Memory property flags, as abstract bit positions in the library's own
/// flag space. A device memory type satisfies a request when its flag set is
/// a superset of the requested one.
pub const CPU_VISIBLE: u32 = 1;

/// The memory is coherent: host writes need no explicit invalidation.
pub const COHERENT: u32 = 2;

/// The memory lives on the device itself.
pub const DEVICE_LOCAL: u32 = 4;

/// One enumerated device memory type: the property flags it offers. Its
/// position in the enumeration is its index in the requirement type mask.
#[derive(Clone, Copy, Debug, PartialEq, Eq, Structural)]
pub struct MemoryTypeInfo {
    pub property_flags: u32,
}

/// What the device reports a created buffer needs: the number of bytes to
/// allocate (which may exceed the requested length because of alignment) and
/// a bitmask with one bit per compatible memory-type index.
#[derive(Clone, Copy, Debug, PartialEq, Eq, Structural)]
pub struct MemoryRequirements {
    pub size: u64,
    pub type_mask: u64,
}

/// Whether flag set `flags` contains every flag of `required`.
pub open spec fn flags_contain(flags: u32, required: u32) -> bool {
    flags & required == required
}

/// Whether memory type `i` is compatible with a requirement mask and a
/// requested property set: its mask bit is set and its properties are a
/// superset of the requested ones.
pub open spec fn type_compatible(
    types: Seq<MemoryTypeInfo>,
    i: int,
    type_mask: u64,
    required: u32,
) -> bool {
    &&& 0 <= i < types.len()
    &&& i < 64
    &&& (type_mask >> i as u64) & 1 == 1
    &&& flags_contain(types[i].property_flags, required)
}

/// The least compatible index at or after `start`, if one exists.
pub open spec fn first_compatible_from(
    types: Seq<MemoryTypeInfo>,
    type_mask: u64,
    required: u32,
    start: int,
) -> Option<int>
    decreases types.len() - start,
{
    if start < 0 || start >= types.len() {
        None
    } else if type_compatible(types, start, type_mask, required) {
        Some(start)
    } else {
        first_compatible_from(types, type_mask, required, start + 1)
    }
}

/// The index the allocator selects: the first compatible memory type.
pub open spec fn selected_memory_type(
    types: Seq<MemoryTypeInfo>,
    type_mask: u64,
    required: u32,
) -> Option<int> {
    first_compatible_from(types, type_mask, required, 0)
}

/// The selection result is sound and complete: what `first_compatible_from`
/// returns is compatible, least among the compatible indices at or after
/// `start`, and absent exactly when no compatible index at or after `start`
/// exists.
pub proof fn lemma_first_compatible_from(
    types: Seq<MemoryTypeInfo>,
    type_mask: u64,
    required: u32,
    start: int,
)
    requires
        0 <= start,
    ensures
        match first_compatible_from(types, type_mask, required, start) {
            Some(i) => {
                &&& type_compatible(types, i, type_mask, required)
                &&& start <= i
                &&& forall|j: int|
                    start <= j < i ==> !type_compatible(types, j, type_mask, required)
            },
            None => forall|j: int|
                start <= j ==> !type_compatible(types, j, type_mask, required),
        },
    decreases types.len() - start,
{
    if start < 0 || start >= types.len() {
    } else if type_compatible(types, start, type_mask, required) {
    } else {
        lemma_first_compatible_from(types, type_mask, required, start + 1);
    }
}

/// If any memory type is compatible with the requirement mask and the
/// requested properties, selection yields one that satisfies both — and the
/// first such — and only when none is compatible does selection come up
/// empty (it never silently picks an incompatible type).
pub proof fn lemma_memory_selection_sound(
    types: Seq<MemoryTypeInfo>,
    type_mask: u64,
    required: u32,
)
    ensures
        (exists|i: int| type_compatible(types, i, type_mask, required)) <==> selected_memory_type(
            types,
            type_mask,
            required,
        ) is Some,
        match selected_memory_type(types, type_mask, required) {
            Some(i) => {
                &&& type_compatible(types, i, type_mask, required)
                &&& forall|j: int| 0 <= j < i ==> !type_compatible(types, j, type_mask, required)
            },
            None => forall|i: int| !type_compatible(types, i, type_mask, required),
        },
{
    lemma_first_compatible_from(types, type_mask, required, 0);
    if selected_memory_type(types, type_mask, required) is None {
        assert forall|i: int| !type_compatible(types, i, type_mask, required) by {
            if 0 <= i < types.len() {
                assert(!type_compatible(types, i, type_mask, required));
            }
        }
    }
}

/// Selects the first device memory type whose bit is set in `type_mask` and
/// whose property flags contain `required`. Returns `None` exactly when no
/// such type exists; the allocator's caller reports that as
/// `NoCompatibleMemoryType`.
pub fn find_memory_type(
    types: &Vec<MemoryTypeInfo>,
    type_mask: u64,
    required: u32,
) -> (r: Option<usize>)
    requires
        types@.len() <= 64,
    ensures
        match r {
            Some(i) => {
                &&& selected_memory_type(types@, type_mask, required) == Some(i as int)
                &&& type_compatible(types@, i as int, type_mask, required)
            },
            None => {
                &&& selected_memory_type(types@, type_mask, required) is None
                &&& forall|i: int| !type_compatible(types@, i, type_mask, required)
            },
        },
{
    proof {
        lemma_memory_selection_sound(types@, type_mask, required);
    }
    let mut idx: usize = 0;
    while idx < types.len()
        invariant
            idx <= types@.len() <= 64,
            forall|j: int| 0 <= j < idx ==> !type_compatible(types@, j, type_mask, required),
            first_compatible_from(types@, type_mask, required, 0) == first_compatible_from(
                types@,
                type_mask,
                required,
                idx as int,
            ),
        decreases types@.len() - idx,
    {
        let bit_set: bool = (type_mask >> (idx as u64)) & 1 == 1;
        let props: u32 = types[idx].property_flags;
        if bit_set && (props & required) == required {
            return Some(idx);
        }
        idx = idx + 1;
    }
    None
}

} // verus!
