//! Linear memory access: which byte ranges are in bounds, and which export of
//! an instance is its memory. The bytes themselves stay with the engine.
use vstd::prelude::*;

use crate::module::ExternInfo;

verus! {

/// The resources a lock guards.
#[derive(Clone, Copy, Debug, PartialEq, Eq, Structural)]
pub enum Resource {
    Module,
    Store,
    Instance,
    Memory,
    Pipe,
}

/// Why an access to a resource failed.
#[derive(Clone, Copy, Debug, PartialEq, Eq, Structural)]
pub enum ResourceError {
    /// A panic while the lock was held left the resource unusable.
    PoisonedResource(Resource),
    /// The byte range lies outside the memory; nothing was read or written.
    OutOfBounds,
    /// The instance exports no memory.
    NoExportedMemory,
}

/// A range of `len` bytes from `offset` lies within `size` bytes.
pub open spec fn in_bounds(size: int, offset: int, len: int) -> bool {
    offset + len <= size
}

/// Checks that `len` bytes from `offset` lie within a memory of `size`
/// bytes, before any of them is touched.
pub fn check_range(size: usize, offset: usize, len: usize) -> (r: Result<(), ResourceError>)
    ensures
        r is Ok <==> in_bounds(size as int, offset as int, len as int),
        r is Err ==> r == Err::<(), ResourceError>(ResourceError::OutOfBounds),
{
    if offset <= size && len <= size - offset {
        Ok(())
    } else {
        Err(ResourceError::OutOfBounds)
    }
}

/// The index of the first memory among an instance's exports.
pub fn memory_from_instance(exports: &Vec<ExternInfo>) -> (r: Result<usize, ResourceError>)
    ensures
        match r {
            Ok(i) => i < exports@.len() && exports@[i as int] is Memory && forall|j: int|
                0 <= j < i ==> !(#[trigger] exports@[j] is Memory),
            Err(e) => e == ResourceError::NoExportedMemory && forall|j: int|
                0 <= j < exports@.len() ==> !(#[trigger] exports@[j] is Memory),
        },
{
    let mut i: usize = 0;
    while i < exports.len()
        invariant
            0 <= i <= exports@.len(),
            forall|j: int| 0 <= j < i ==> !(#[trigger] exports@[j] is Memory),
        decreases exports@.len() - i,
    {
        if let ExternInfo::Memory { .. } = &exports[i] {
            return Ok(i);
        }
        i += 1;
    }
    Err(ResourceError::NoExportedMemory)
}

} // verus!
