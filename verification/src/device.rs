//! Which physical device and which of its queue families to use.

use vstd::prelude::*;

verus! {

/// What kind of hardware a physical device is.
#[derive(Clone, Copy, Debug, PartialEq, Eq, Structural)]
pub enum DeviceKind {
    IntegratedGpu,
    DiscreteGpu,
    VirtualGpu,
    Cpu,
    Other,
}

/// What the renderer needs to know of a queue family.
#[derive(Clone, Copy, Debug, PartialEq, Eq, Structural)]
pub struct QueueFamily {
    /// The family executes graphics commands.
    pub supports_graphics: bool,
    /// Whether the surface accepts presentation from the family; `None` where
    /// the query failed.
    pub presentable: Option<bool>,
}

impl QueueFamily {
    /// The family can both draw and present to the surface. A failed query
    /// counts as no support.
    pub open spec fn usable(self) -> bool {
        self.supports_graphics && self.presentable == Some(true)
    }

    /// Tells whether the family can both draw and present to the surface.
    pub fn is_usable(&self) -> (usable: bool)
        ensures
            usable == self.usable(),
    {
        self.supports_graphics && match self.presentable {
            Some(supported) => supported,
            None => false,
        }
    }
}

/// Priority of the renderer's queue, in hundredths of the highest priority.
pub const QUEUE_PRIORITY_PERCENT: u8 = 50;

/// What the logical device is created with: one queue, and the extension
/// that swapchains need.
#[derive(Clone, Copy, Debug, PartialEq, Eq, Structural)]
pub struct DevicePlan {
    /// Position of the queue family that the queue is taken from.
    pub queue_family: usize,
    /// Number of queues to create.
    pub queues: u32,
    /// Priority of the queue, in hundredths of the highest priority.
    pub priority_percent: u8,
    /// Whether the swapchain extension is enabled.
    pub khr_swapchain: bool,
}

/// `at` is the position of the first discrete GPU among `kinds`.
pub open spec fn first_discrete(kinds: Seq<DeviceKind>, at: int) -> bool {
    &&& 0 <= at < kinds.len()
    &&& kinds[at] == DeviceKind::DiscreteGpu
    &&& forall|k: int| 0 <= k < at ==> kinds[k] != DeviceKind::DiscreteGpu
}

/// `at` is the position of the first usable family among `families`.
pub open spec fn first_usable(families: Seq<QueueFamily>, at: int) -> bool {
    &&& 0 <= at < families.len()
    &&& families[at].usable()
    &&& forall|k: int| 0 <= k < at ==> !families[k].usable()
}

/// Picks the physical device to render with: the first discrete GPU, or the
/// first device of any kind where none is discrete. `None` where there is no
/// device at all.
pub fn choose_physical(kinds: &Vec<DeviceKind>) -> (chosen: Option<usize>)
    ensures
        chosen is None <==> kinds@.len() == 0,
        chosen matches Some(at) ==> {
            ||| first_discrete(kinds@, at as int)
            ||| (at == 0 && forall|k: int|
                0 <= k < kinds@.len() ==> kinds@[k] != DeviceKind::DiscreteGpu)
        },
{
    for at in 0..kinds.len()
        invariant
            forall|k: int| 0 <= k < at ==> kinds@[k] != DeviceKind::DiscreteGpu,
    {
        if kinds[at] == DeviceKind::DiscreteGpu {
            return Some(at);
        }
    }
    if kinds.len() > 0 {
        Some(0)
    } else {
        None
    }
}

/// Picks the queue family to create the device's queue from: the first that
/// draws and that the surface reports as presentable. `None` where no family
/// does both.
pub fn choose_queue_family(families: &Vec<QueueFamily>) -> (chosen: Option<usize>)
    ensures
        chosen is None <==> forall|k: int| 0 <= k < families@.len() ==> !families@[k].usable(),
        chosen matches Some(at) ==> first_usable(families@, at as int),
{
    for at in 0..families.len()
        invariant
            forall|k: int| 0 <= k < at ==> !families@[k].usable(),
    {
        if families[at].is_usable() {
            return Some(at);
        }
    }
    None
}

/// Lays out the logical device: one queue at half priority from the first
/// usable family, with the swapchain extension enabled. `None` where no
/// family is usable.
pub fn plan_device(families: &Vec<QueueFamily>) -> (plan: Option<DevicePlan>)
    ensures
        plan is None <==> forall|k: int| 0 <= k < families@.len() ==> !families@[k].usable(),
        plan matches Some(device) ==> {
            &&& first_usable(families@, device.queue_family as int)
            &&& device.queues == 1
            &&& device.priority_percent == QUEUE_PRIORITY_PERCENT
            &&& device.khr_swapchain
        },
{
    match choose_queue_family(families) {
        Some(queue_family) => Some(
            DevicePlan {
                queue_family,
                queues: 1,
                priority_percent: QUEUE_PRIORITY_PERCENT,
                khr_swapchain: true,
            },
        ),
        None => None,
    }
}

} // verus!
