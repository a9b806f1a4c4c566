//! Choice of the physical device and of its queue family.

use vstd::prelude::*;

verus! {

/// Kind of a physical device, as the driver reports it.
#[derive(Clone, Copy, Debug, PartialEq, Eq, Structural)]
pub enum DeviceType {
    DiscreteGpu,
    IntegratedGpu,
    VirtualGpu,
    Cpu,
    Other,
    /// A kind this crate has no name for.
    Unknown,
}

impl DeviceType {
    /// Position in the preference order; a smaller rank is preferred.
    pub open spec fn spec_rank(self) -> int {
        match self {
            DeviceType::DiscreteGpu => 0,
            DeviceType::IntegratedGpu => 1,
            DeviceType::VirtualGpu => 2,
            DeviceType::Cpu => 3,
            DeviceType::Other => 4,
            DeviceType::Unknown => 5,
        }
    }

    /// Position in the preference order: discrete, integrated, virtual,
    /// software, then everything else.
    pub fn rank(self) -> (r: u32)
        ensures
            r == self.spec_rank(),
    {
        match self {
            DeviceType::DiscreteGpu => 0,
            DeviceType::IntegratedGpu => 1,
            DeviceType::VirtualGpu => 2,
            DeviceType::Cpu => 3,
            DeviceType::Other => 4,
            DeviceType::Unknown => 5,
        }
    }
}

/// What the selection needs to know of one queue family.
#[derive(Clone, Copy, Debug, PartialEq, Eq, Structural)]
pub struct QueueFamily {
    /// The family executes graphics operations.
    pub graphics: bool,
    /// The family can present to the target surface.
    pub present: bool,
}

impl QueueFamily {
    /// A family is usable when it both draws and presents.
    pub open spec fn usable(self) -> bool {
        self.graphics && self.present
    }
}

/// What the selection needs to know of one physical device.
#[derive(Debug)]
pub struct DeviceCandidate {
    pub device_type: DeviceType,
    /// The device offers every required extension.
    pub extensions_supported: bool,
    /// Queue families in the driver's order.
    pub families: Vec<QueueFamily>,
}

/// `q` is the lowest index of a usable family.
pub open spec fn is_first_usable_family(families: Seq<QueueFamily>, q: int) -> bool {
    &&& 0 <= q < families.len()
    &&& families[q].usable()
    &&& forall|j: int| 0 <= j < q ==> !(#[trigger] families[j]).usable()
}

/// No family is usable.
pub open spec fn no_usable_family(families: Seq<QueueFamily>) -> bool {
    forall|j: int| 0 <= j < families.len() ==> !(#[trigger] families[j]).usable()
}

impl DeviceCandidate {
    /// A device can be selected when it has the extensions and a usable family.
    pub open spec fn eligible(self) -> bool {
        self.extensions_supported && !no_usable_family(self.families@)
    }
}

/// Device `i` is eligible and no eligible device is preferred to it; among
/// equally ranked devices the earliest wins.
pub open spec fn is_preferred_device(candidates: Seq<DeviceCandidate>, i: int) -> bool {
    &&& 0 <= i < candidates.len()
    &&& candidates[i].eligible()
    &&& forall|j: int|
        0 <= j < candidates.len() && (#[trigger] candidates[j]).eligible() ==> {
            ||| candidates[i].device_type.spec_rank() < candidates[j].device_type.spec_rank()
            ||| (candidates[i].device_type.spec_rank() == candidates[j].device_type.spec_rank()
                && i <= j)
        }
}

/// The first queue family that supports both graphics and presentation.
pub fn find_queue_family(families: &Vec<QueueFamily>) -> (r: Option<usize>)
    ensures
        match r {
            Some(q) => is_first_usable_family(families@, q as int),
            None => no_usable_family(families@),
        },
{
    let mut i: usize = 0;
    while i < families.len()
        invariant
            i <= families.len(),
            forall|j: int| 0 <= j < i ==> !(#[trigger] families@[j]).usable(),
        decreases families.len() - i,
    {
        if families[i].graphics && families[i].present {
            return Some(i);
        }
        i += 1;
    }
    None
}

/// Picks the device to render with, and its queue family.
///
/// Devices without the required extensions or without a family that both
/// draws and presents are passed over. Of the rest the one with the lowest
/// rank is taken, the earliest of them where several share it. `None` means
/// that no device is eligible.
pub fn select_device(candidates: &Vec<DeviceCandidate>) -> (r: Option<(usize, usize)>)
    ensures
        match r {
            Some((i, q)) => {
                &&& is_preferred_device(candidates@, i as int)
                &&& is_first_usable_family(candidates@[i as int].families@, q as int)
            },
            None => forall|j: int|
                0 <= j < candidates.len() ==> !(#[trigger] candidates@[j]).eligible(),
        },
{
    let mut best: Option<(usize, usize)> = None;
    let mut i: usize = 0;
    while i < candidates.len()
        invariant
            i <= candidates.len(),
            match best {
                Some((b, q)) => {
                    &&& b < i
                    &&& candidates@[b as int].eligible()
                    &&& is_first_usable_family(candidates@[b as int].families@, q as int)
                    &&& forall|j: int|
                        0 <= j < i && (#[trigger] candidates@[j]).eligible() ==> {
                            ||| candidates@[b as int].device_type.spec_rank()
                                < candidates@[j].device_type.spec_rank()
                            ||| (candidates@[b as int].device_type.spec_rank()
                                == candidates@[j].device_type.spec_rank() && b <= j)
                        }
                },
                None => forall|j: int| 0 <= j < i ==> !(#[trigger] candidates@[j]).eligible(),
            },
        decreases candidates.len() - i,
    {
        let candidate = &candidates[i];
        if candidate.extensions_supported {
            match find_queue_family(&candidate.families) {
                Some(q) => {
                    let better = match best {
                        Some((b, _)) => candidate.device_type.rank() < candidates[b].device_type.rank(),
                        None => true,
                    };
                    if better {
                        best = Some((i, q));
                    }
                },
                None => {},
            }
        }
        i += 1;
    }
    best
}

} // verus!
