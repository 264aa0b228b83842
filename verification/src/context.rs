//! The shared context: the 2D renderer's binding to a Vulkan device that the GPU
//! framework has set up, and the resolver of entry points that goes with it.

use vstd::prelude::*;
use vstd::string::*;
use crate::device::{DeviceContext, DeviceHandles, Queue};
use crate::vulkan::{make_version, packed_version, success_code};

verus! {

/// What the 2D renderer's backend context is made of: the raw handles of the
/// instance, the physical device, the device and the queue, and the index of the
/// queue's family.
#[derive(Clone, Copy, Debug, PartialEq, Eq, Structural)]
pub struct BackendContext {
    pub instance: u64,
    pub physical_device: u64,
    pub device: u64,
    pub queue: u64,
    pub queue_index: usize,
}

/// A query for an entry point: at the level of an instance or of a device, by name.
#[derive(Clone, Debug, PartialEq, Eq)]
pub enum GetProcOf {
    Instance(u64, String),
    Device(u64, String),
}

/// Who answers a query for an entry point.
#[derive(Clone, Copy, Debug, PartialEq, Eq, Structural)]
pub enum ProcSource {
    /// The bridge itself, with `VkSkiaContext::enumerate_instance_version_hooked`.
    Hooked,
    /// The loader, asked for an entry point of this instance.
    Instance(u64),
    /// The loader, asked for an entry point of this device.
    Device(u64),
}

/// The address handed to the 2D renderer for an entry point.
#[derive(Clone, Copy, Debug, PartialEq, Eq, Structural)]
pub struct ProcAddress {
    /// The address of the entry point, or 0 where there is none.
    pub address: usize,
    /// The loader did not find the entry point. That is worth a line in the log and
    /// nothing more: the renderer decides whether it can do without.
    pub missing: bool,
}

/// The name of the entry point that reports the version of the Vulkan instance.
pub open spec fn version_query_name() -> Seq<char> {
    "vkEnumerateInstanceVersion"@
}

/// The version that the bridge reports in place of the instance's own: 1.0.0.
pub open spec fn reported_version() -> u32 {
    packed_version(1, 0, 0)
}

impl GetProcOf {
    /// The query is the one that the bridge answers itself: the version query, asked
    /// at the level of an instance.
    pub open spec fn is_version_query(self) -> bool {
        self matches GetProcOf::Instance(_, name) && name@ == version_query_name()
    }
}

impl BackendContext {
    /// The backend context over a device's handles and the handle of a queue of it:
    /// the device's three handles, the queue's handle, and the index of the device's
    /// graphics family.
    pub open spec fn of_handles(handles: DeviceHandles, queue: u64) -> BackendContext {
        BackendContext {
            instance: handles.instance,
            physical_device: handles.physical_device,
            device: handles.device,
            queue,
            queue_index: handles.queue_family_indices.graphics_queue_family_index as usize,
        }
    }

    /// Gathers the handles that the 2D renderer's backend context is made of.
    ///
    /// The device and the queue have to run on Vulkan: there is nothing to gather
    /// from others, and no way to go on without.
    pub fn new(device_context: &DeviceContext, queue: &Queue) -> (backend: BackendContext)
        requires
            device_context.vulkan.is_some(),
            queue.vulkan.is_some(),
        ensures
            backend == Self::of_handles(device_context.vulkan.unwrap(), queue.vulkan.unwrap()),
            backend.instance == device_context.vulkan.unwrap().instance,
            backend.physical_device == device_context.vulkan.unwrap().physical_device,
            backend.device == device_context.vulkan.unwrap().device,
            backend.queue == queue.vulkan.unwrap(),
            backend.queue_index == device_context.vulkan.unwrap().queue_family_indices.graphics_queue_family_index,
    {
        let handles = device_context.vulkan.unwrap();
        let queue_handle = queue.vulkan.unwrap();
        BackendContext {
            instance: handles.instance,
            physical_device: handles.physical_device,
            device: handles.device,
            queue: queue_handle,
            queue_index: handles.queue_family_indices.graphics_queue_family_index as usize,
        }
    }
}

/// The 2D renderer's GPU context over the framework's Vulkan device.
#[derive(Clone, Copy, Debug, PartialEq, Eq, Structural)]
pub struct VkSkiaContext {
    /// The handles that the context was made of.
    pub backend: BackendContext,
}

impl VkSkiaContext {
    /// Builds the shared context over a device and a queue of it.
    ///
    /// The device and the queue have to run on Vulkan. The context holds every one of
    /// the handles that `BackendContext::new` gathers from them, unchanged: there is
    /// no context with a part missing.
    pub fn new(device_context: &DeviceContext, queue: &Queue) -> (context: VkSkiaContext)
        requires
            device_context.vulkan.is_some(),
            queue.vulkan.is_some(),
        ensures
            context.backend == BackendContext::of_handles(
                device_context.vulkan.unwrap(),
                queue.vulkan.unwrap(),
            ),
            context.backend.instance == device_context.vulkan.unwrap().instance,
            context.backend.physical_device == device_context.vulkan.unwrap().physical_device,
            context.backend.device == device_context.vulkan.unwrap().device,
            context.backend.queue == queue.vulkan.unwrap(),
            context.backend.queue_index == device_context.vulkan.unwrap().queue_family_indices.graphics_queue_family_index,
    {
        VkSkiaContext { backend: BackendContext::new(device_context, queue) }
    }

    /// Answers the version query in place of the Vulkan instance: writes version 1.0.0
    /// and reports success, whatever the instance itself supports.
    ///
    /// The 2D renderer's allocator goes wrong when it is told of a later version.
    pub fn enumerate_instance_version_hooked(p_api_version: &mut u32) -> (code: i32)
        ensures
            *final(p_api_version) == reported_version(),
            *final(p_api_version) == 0x40_0000,
            code == 0,
    {
        assert(((1u32 << 22u32) | (0u32 << 12u32) | 0u32) == 0x40_0000u32) by (bit_vector);
        *p_api_version = make_version(1, 0, 0);
        success_code()
    }

    /// Who answers a query, as a function of the query.
    pub open spec fn spec_get_proc(of: GetProcOf) -> ProcSource {
        match of {
            GetProcOf::Instance(instance, name) => if name@ == version_query_name() {
                ProcSource::Hooked
            } else {
                ProcSource::Instance(instance)
            },
            GetProcOf::Device(device, _) => ProcSource::Device(device),
        }
    }

    /// Decides who answers a query for an entry point.
    ///
    /// The bridge answers the version query of an instance itself. Every other query
    /// goes to the loader unchanged: at the level that was asked, for the handle that
    /// was asked.
    pub fn get_proc(of: &GetProcOf) -> (source: ProcSource)
        ensures
            source == Self::spec_get_proc(*of),
            source == ProcSource::Hooked <==> of.is_version_query(),
            !of.is_version_query() ==> match *of {
                GetProcOf::Instance(instance, _) => source == ProcSource::Instance(instance),
                GetProcOf::Device(device, _) => source == ProcSource::Device(device),
            },
    {
        match of {
            GetProcOf::Instance(instance, name) => {
                let hooked = String::from_str("vkEnumerateInstanceVersion");
                if name.eq(&hooked) {
                    ProcSource::Hooked
                } else {
                    ProcSource::Instance(*instance)
                }
            },
            GetProcOf::Device(device, _) => ProcSource::Device(*device),
        }
    }

    /// Turns the loader's answer to a query into the address for the 2D renderer: the
    /// address that the loader found, or the null address, marked as missing.
    pub fn proc_address(found: Option<usize>) -> (resolved: ProcAddress)
        ensures
            found matches Some(address) ==> resolved == (ProcAddress { address, missing: false }),
            found.is_none() ==> resolved == (ProcAddress { address: 0, missing: true }),
    {
        match found {
            Some(address) => ProcAddress { address, missing: false },
            None => ProcAddress { address: 0, missing: true },
        }
    }
}

} // verus!
