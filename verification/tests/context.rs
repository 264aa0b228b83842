use skulpin_renderer::context::{
    BackendContext, GetProcOf, ProcAddress, ProcSource, VkSkiaContext,
};
use skulpin_renderer::device::{DeviceContext, DeviceHandles, Queue, QueueFamilyIndices};

fn handles() -> DeviceHandles {
    DeviceHandles {
        instance: 0x1000,
        physical_device: 0x2000,
        device: 0x3000,
        queue_family_indices: QueueFamilyIndices {
            graphics_queue_family_index: 2,
            compute_queue_family_index: 5,
            transfer_queue_family_index: 7,
        },
    }
}

fn vulkan_device() -> DeviceContext {
    DeviceContext { vulkan: Some(handles()) }
}

fn vulkan_queue() -> Queue {
    Queue { vulkan: Some(0x4000) }
}

#[test]
fn backend_context_holds_every_handle() {
    let backend = BackendContext::new(&vulkan_device(), &vulkan_queue());
    assert_eq!(
        backend,
        BackendContext {
            instance: 0x1000,
            physical_device: 0x2000,
            device: 0x3000,
            queue: 0x4000,
            queue_index: 2,
        }
    );
}

#[test]
fn backend_context_takes_the_graphics_family() {
    let mut device = handles();
    device.queue_family_indices.graphics_queue_family_index = u32::MAX;
    device.queue_family_indices.compute_queue_family_index = 0;
    let backend = BackendContext::new(&DeviceContext { vulkan: Some(device) }, &vulkan_queue());
    assert_eq!(backend.queue_index, u32::MAX as usize);
}

#[test]
fn context_is_whole() {
    let context = VkSkiaContext::new(&vulkan_device(), &vulkan_queue());
    assert_eq!(
        context,
        VkSkiaContext {
            backend: BackendContext {
                instance: 0x1000,
                physical_device: 0x2000,
                device: 0x3000,
                queue: 0x4000,
                queue_index: 2,
            },
        }
    );
}

#[test]
fn context_hands_the_handles_on_unchanged() {
    let instances = [0u64, 1, 0x7fff_ffff_ffff_fff0, u64::MAX];
    let queues = [0u64, 0x4000, u64::MAX];
    for instance in instances {
        for queue_handle in queues {
            let mut device = handles();
            device.instance = instance;
            device.physical_device = instance ^ 0x55;
            device.device = instance ^ 0xaa;
            let device_context = DeviceContext { vulkan: Some(device) };
            let queue = Queue { vulkan: Some(queue_handle) };
            let context = VkSkiaContext::new(&device_context, &queue);
            assert_eq!(context.backend, BackendContext::new(&device_context, &queue));
            assert_eq!(context.backend.instance, instance);
            assert_eq!(context.backend.physical_device, instance ^ 0x55);
            assert_eq!(context.backend.device, instance ^ 0xaa);
            assert_eq!(context.backend.queue, queue_handle);
            assert_eq!(context.backend.queue_index, 2);
            assert_eq!(device_context, DeviceContext { vulkan: Some(device) });
            assert_eq!(queue, Queue { vulkan: Some(queue_handle) });
        }
    }
}

#[test]
fn hooked_version_query_reports_version_one_zero() {
    let mut version: u32 = 0;
    let code = VkSkiaContext::enumerate_instance_version_hooked(&mut version);
    assert_eq!(code, 0);
    assert_eq!(version, 4194304);
    assert_eq!(version, 1 << 22);
    assert_eq!(version, ash::vk::API_VERSION_1_0);
    assert_eq!(ash::vk::api_version_major(version), 1);
    assert_eq!(ash::vk::api_version_minor(version), 0);
    assert_eq!(ash::vk::api_version_patch(version), 0);
    assert_eq!(ash::vk::Result::from_raw(code), ash::vk::Result::SUCCESS);
}

#[test]
fn hooked_version_query_ignores_what_was_there() {
    for before in [0u32, 1, ash::vk::API_VERSION_1_1, ash::vk::API_VERSION_1_2, ash::vk::API_VERSION_1_3, u32::MAX] {
        let mut version = before;
        let code = VkSkiaContext::enumerate_instance_version_hooked(&mut version);
        assert_eq!(code, 0);
        assert_eq!(version, 0x40_0000);
    }
}

#[test]
fn version_query_of_an_instance_is_hooked() {
    let of = GetProcOf::Instance(0x1000, String::from("vkEnumerateInstanceVersion"));
    assert_eq!(VkSkiaContext::get_proc(&of), ProcSource::Hooked);
    let of_null = GetProcOf::Instance(0, String::from("vkEnumerateInstanceVersion"));
    assert_eq!(VkSkiaContext::get_proc(&of_null), ProcSource::Hooked);
}

#[test]
fn other_instance_queries_pass_through() {
    let names = [
        "vkCreateDevice",
        "vkEnumerateInstanceExtensionProperties",
        "vkEnumerateInstanceVersio",
        "vkEnumerateInstanceVersion2",
        "vkenumerateinstanceversion",
        " vkEnumerateInstanceVersion",
        "",
    ];
    for name in names {
        let of = GetProcOf::Instance(0x1000, String::from(name));
        assert_eq!(VkSkiaContext::get_proc(&of), ProcSource::Instance(0x1000));
    }
}

#[test]
fn device_queries_pass_through() {
    let names = ["vkCreateImage", "vkQueueSubmit", "vkEnumerateInstanceVersion", ""];
    for name in names {
        let of = GetProcOf::Device(0x3000, String::from(name));
        assert_eq!(VkSkiaContext::get_proc(&of), ProcSource::Device(0x3000));
    }
}

#[test]
fn found_address_is_handed_on() {
    assert_eq!(
        VkSkiaContext::proc_address(Some(0xdead_beef)),
        ProcAddress { address: 0xdead_beef, missing: false }
    );
    assert_eq!(
        VkSkiaContext::proc_address(Some(usize::MAX)),
        ProcAddress { address: usize::MAX, missing: false }
    );
}

#[test]
fn missing_entry_point_is_null() {
    assert_eq!(VkSkiaContext::proc_address(None), ProcAddress { address: 0, missing: true });
}
