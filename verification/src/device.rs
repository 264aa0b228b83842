//! The GPU framework's device and queue, as the native handles that identify them.

use vstd::prelude::*;

verus! {

/// The indices of the queue families that a device works with.
#[derive(Clone, Copy, Debug, PartialEq, Eq, Structural)]
pub struct QueueFamilyIndices {
    pub graphics_queue_family_index: u32,
    pub compute_queue_family_index: u32,
    pub transfer_queue_family_index: u32,
}

/// The raw Vulkan handles behind a device of the framework.
#[derive(Clone, Copy, Debug, PartialEq, Eq, Structural)]
pub struct DeviceHandles {
    pub instance: u64,
    pub physical_device: u64,
    pub device: u64,
    pub queue_family_indices: QueueFamilyIndices,
}

/// A device of the framework. Only one that runs on Vulkan has handles to give.
#[derive(Clone, Copy, Debug, PartialEq, Eq)]
pub struct DeviceContext {
    pub vulkan: Option<DeviceHandles>,
}

/// A queue of the framework. Only one that runs on Vulkan has a handle to give;
/// the handle is a copy that was read while the queue's lock was held.
#[derive(Clone, Copy, Debug, PartialEq, Eq)]
pub struct Queue {
    pub vulkan: Option<u64>,
}

} // verus!
