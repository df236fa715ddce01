//! Queue-family selection: from what each of a device's queue families
//! supports, pick the family used for graphics work and the family used
//! for presentation.

use vstd::prelude::*;

verus! {

/// What one queue family of a device supports.
#[derive(Clone, Copy, Debug, PartialEq, Eq, Structural)]
pub struct QueueFamilyInfo {
    pub supports_graphics: bool,
    pub supports_present: bool,
}

/// The chosen queue families: indices into the device's family list.
#[derive(Clone, Copy, Debug, PartialEq, Eq, Structural)]
pub struct QueueFamilyIndices {
    pub graphics: u32,
    pub present: u32,
}

/// Why queue-family selection can fail.
#[derive(Clone, Copy, Debug, PartialEq, Eq, Structural)]
pub enum QueueError {
    /// No graphics-capable family, or no present-capable family.
    SuitabilityError,
}

impl QueueError {
    /// A short description of the error.
    pub fn message(&self) -> (r: &'static str)
        ensures
            r@ =~= "missing required queue families"@,
    {
        "missing required queue families"
    }
}

/// Whether some family in `families` supports graphics work.
pub open spec fn has_graphics_family(families: Seq<QueueFamilyInfo>) -> bool {
    exists|i: int| 0 <= i < families.len() && families[i].supports_graphics
}

/// Whether some family in `families` supports presentation.
pub open spec fn has_present_family(families: Seq<QueueFamilyInfo>) -> bool {
    exists|i: int| 0 <= i < families.len() && families[i].supports_present
}

impl QueueFamilyIndices {
    /// Selects the first graphics-capable family and the first
    /// present-capable family; fails if either is missing.
    pub fn get(families: &Vec<QueueFamilyInfo>) -> (r: Result<Self, QueueError>)
        requires
            families@.len() <= u32::MAX,
        ensures
            match r {
                Ok(indices) => {
                    &&& indices.graphics < families@.len()
                    &&& families@[indices.graphics as int].supports_graphics
                    &&& forall|j: int| 0 <= j < indices.graphics
                        ==> !families@[j].supports_graphics
                    &&& indices.present < families@.len()
                    &&& families@[indices.present as int].supports_present
                    &&& forall|j: int| 0 <= j < indices.present
                        ==> !families@[j].supports_present
                },
                Err(e) => {
                    &&& e == QueueError::SuitabilityError
                    &&& (!has_graphics_family(families@) || !has_present_family(families@))
                },
            },
    {
        let n = families.len();
        let mut graphics: Option<u32> = None;
        let mut present: Option<u32> = None;

        for i in 0..n
            invariant
                n == families@.len(),
                n <= u32::MAX,
                match graphics {
                    Some(g) => {
                        &&& g < i
                        &&& families@[g as int].supports_graphics
                        &&& forall|j: int| 0 <= j < g ==> !families@[j].supports_graphics
                    },
                    None => forall|j: int| 0 <= j < i ==> !families@[j].supports_graphics,
                },
                match present {
                    Some(p) => {
                        &&& p < i
                        &&& families@[p as int].supports_present
                        &&& forall|j: int| 0 <= j < p ==> !families@[j].supports_present
                    },
                    None => forall|j: int| 0 <= j < i ==> !families@[j].supports_present,
                },
        {
            if graphics.is_none() && families[i].supports_graphics {
                graphics = Some(i as u32);
            }
            if present.is_none() && families[i].supports_present {
                present = Some(i as u32);
            }
        }

        match (graphics, present) {
            (Some(graphics), Some(present)) => Ok(QueueFamilyIndices { graphics, present }),
            _ => {
                assert(graphics is None ==> !has_graphics_family(families@));
                assert(present is None ==> !has_present_family(families@));
                Err(QueueError::SuitabilityError)
            },
        }
    }
}

/// The distinct queue families a logical device needs queues from: the
/// graphics family, and the present family when it differs.
pub fn unique_queue_family_indices(indices: QueueFamilyIndices) -> (r: Vec<u32>)
    ensures
        indices.graphics == indices.present ==> r@ == seq![indices.graphics],
        indices.graphics != indices.present ==> r@ == seq![indices.graphics, indices.present],
{
    let mut unique: Vec<u32> = Vec::new();
    unique.push(indices.graphics);
    if indices.present != indices.graphics {
        unique.push(indices.present);
    }
    proof {
        if indices.graphics == indices.present {
            assert(unique@ =~= seq![indices.graphics]);
        } else {
            assert(unique@ =~= seq![indices.graphics, indices.present]);
        }
    }
    unique
}

} // verus!
