//! Memory-type selection: given a resource's memory-type mask and the
//! required property flags, pick the first device memory type that
//! satisfies both.

use vstd::prelude::*;

verus! {

/// What the selection reads about one device memory type.
#[derive(Clone, Copy, Debug, PartialEq, Eq, Structural)]
pub struct MemoryTypeInfo {
    /// The memory type's property flags, as the API's bitmask.
    pub property_flags: u32,
}

/// Why memory-type selection can fail.
#[derive(Clone, Copy, Debug, PartialEq, Eq, Structural)]
pub enum MemoryError {
    /// No memory type matches the mask and carries the properties.
    SuitabilityError,
}

impl MemoryError {
    /// A short description of the error.
    pub fn message(&self) -> (r: &'static str)
        ensures
            r@ =~= "no suitable memory type found"@,
    {
        "no suitable memory type found"
    }
}

/// Whether memory type `i` is allowed by the resource's type mask and
/// carries every required property flag.
pub open spec fn memory_type_suitable(
    memory_types: Seq<MemoryTypeInfo>,
    memory_type_bits: u32,
    properties: u32,
    i: int,
) -> bool {
    &&& memory_type_bits & (1u32 << (i as u32)) != 0
    &&& memory_types[i].property_flags & properties == properties
}

/// Picks the first memory type allowed by `memory_type_bits` whose
/// property flags include all of `properties`; no scoring beyond first
/// match.
pub fn get_memory_type_index(
    memory_types: &Vec<MemoryTypeInfo>,
    memory_type_bits: u32,
    properties: u32,
) -> (r: Result<u32, MemoryError>)
    requires
        memory_types@.len() <= 32,
    ensures
        match r {
            Ok(i) => {
                &&& (i as int) < memory_types@.len()
                &&& memory_type_suitable(memory_types@, memory_type_bits, properties, i as int)
                &&& (forall|j: int| 0 <= j < i ==> !memory_type_suitable(
                    memory_types@,
                    memory_type_bits,
                    properties,
                    j,
                ))
            },
            Err(e) => {
                &&& e == MemoryError::SuitabilityError
                &&& (forall|j: int| 0 <= j < memory_types@.len() ==> !memory_type_suitable(
                    memory_types@,
                    memory_type_bits,
                    properties,
                    j,
                ))
            },
        },
{
    let n = memory_types.len();
    for i in 0..n
        invariant
            n == memory_types@.len(),
            n <= 32,
            forall|j: int| 0 <= j < i ==> !memory_type_suitable(
                memory_types@,
                memory_type_bits,
                properties,
                j,
            ),
    {
        let allowed = memory_type_bits & (1u32 << (i as u32)) != 0;
        if allowed && memory_types[i].property_flags & properties == properties {
            return Ok(i as u32);
        }
    }
    Err(MemoryError::SuitabilityError)
}

} // verus!
