use vk_engine::application::{
    extension_names, first_capable_family, layer_is_installed,
    same_name, trim_name, AdapterSelection,
    Application, DebugCallbackInfo, LifecycleError, Platform, QueueFamily, SetupError,
};
use vk_engine::engine::device::{Device, DeviceExtension};
use vk_engine::engine::instance::{create_instance, make_version, InstanceExtension};
use vk_engine::engine::resources::{acquisition_order, ResourceKind};
use vk_engine::frame::{
    FrameAction, FrameError, FrameEvent, FrameFault, FramePhase, FrameSlot, FrameStage, FrameSync,
    WindowSignal,
};

fn family(queue_flags: u32, supports_surface: bool) -> QueueFamily {
    QueueFamily { queue_flags, supports_surface }
}

fn padded(name: &[u8]) -> Vec<u8> {
    let mut raw = name.to_vec();
    raw.resize(256, 0);
    raw
}

fn ready() -> Application {
    let mut application = Application::new();
    for kind in acquisition_order() {
        application.resources.acquire(kind).unwrap();
    }
    application
}

#[test]
fn graphics_and_presentation_make_a_family_capable() {
    assert!(family(0b0001, true).is_capable());
    assert!(family(0b1111, true).is_capable());
    assert!(family(0xffff_ffff, true).is_capable());
    assert!(!family(0b0001, false).is_capable());
    assert!(!family(0b0110, true).is_capable());
    assert!(!family(0b1_0000, true).is_capable());
    assert!(!family(0, true).is_capable());
}

#[test]
fn first_capable_family_wins() {
    let adapters = vec![
        vec![family(0b0100, true), family(0b0010, true)],
        vec![family(0b0001, false), family(0b0011, true), family(0b0001, true)],
        vec![family(0b0001, true)],
    ];
    assert_eq!(Application::pick_physical_device(&adapters), Ok(AdapterSelection { adapter: 1, queue_family: 1 }));
    assert_eq!(first_capable_family(&adapters[0]), None);
    assert_eq!(first_capable_family(&adapters[1]), Some(1));
    assert_eq!(first_capable_family(&adapters[2]), Some(0));
}

#[test]
fn no_capable_family_is_an_error() {
    assert_eq!(Application::pick_physical_device(&vec![]), Err(SetupError::NoSuitableAdapter));
    assert_eq!(Application::pick_physical_device(&vec![vec![]]), Err(SetupError::NoSuitableAdapter));
    let adapters = vec![vec![family(0b0001, false)], vec![family(0b1110, true)]];
    assert_eq!(Application::pick_physical_device(&adapters), Err(SetupError::NoSuitableAdapter));
}

#[test]
fn layer_names_lose_their_padding() {
    assert_eq!(trim_name(&padded(b"VK_LAYER_LUNARG_standard_validation")),
        b"VK_LAYER_LUNARG_standard_validation".to_vec());
    assert_eq!(trim_name(&vec![0, 65, 0, 66, 0]), vec![65, 66]);
    assert_eq!(trim_name(&vec![]), Vec::<u8>::new());
    assert_eq!(trim_name(&vec![0, 0]), Vec::<u8>::new());
}

#[test]
fn names_are_compared_byte_for_byte() {
    assert!(same_name(&b"abc".to_vec(), &b"abc".to_vec()));
    assert!(same_name(&vec![], &vec![]));
    assert!(!same_name(&b"abc".to_vec(), &b"abd".to_vec()));
    assert!(!same_name(&b"abc".to_vec(), &b"abcd".to_vec()));
    assert!(!same_name(&b"abc".to_vec(), &b"ab".to_vec()));
}

#[test]
fn every_requested_layer_must_be_installed() {
    let reported = vec![
        padded(b"VK_LAYER_LUNARG_core_validation"),
        padded(b"VK_LAYER_LUNARG_standard_validation"),
    ];
    let standard = b"VK_LAYER_LUNARG_standard_validation".to_vec();
    let core = b"VK_LAYER_LUNARG_core_validation".to_vec();
    let other = b"VK_LAYER_KHRONOS_validation".to_vec();
    assert!(Application::check_validation_layer_support(&reported, &vec![standard.clone()]));
    assert!(Application::check_validation_layer_support(&reported, &vec![standard.clone(), core.clone()]));
    assert!(Application::check_validation_layer_support(&reported, &vec![]));
    assert!(!Application::check_validation_layer_support(&reported, &vec![other.clone()]));
    assert!(!Application::check_validation_layer_support(&reported, &vec![standard.clone(), other.clone()]));
    assert!(!Application::check_validation_layer_support(&vec![], &vec![standard.clone()]));
    assert!(layer_is_installed(&reported, &core));
    assert!(!layer_is_installed(&reported, &other));
}

#[test]
fn extensions_follow_the_platform() {
    assert_eq!(
        extension_names(Platform::Unix),
        vec![
            InstanceExtension::Surface,
            InstanceExtension::XlibSurface,
            InstanceExtension::DebugReport
        ]
    );
    assert_eq!(
        extension_names(Platform::MacOs),
        vec![
            InstanceExtension::Surface,
            InstanceExtension::MacOsSurface,
            InstanceExtension::DebugReport
        ]
    );
    assert_eq!(
        extension_names(Platform::Windows),
        vec![
            InstanceExtension::Surface,
            InstanceExtension::Win32Surface,
            InstanceExtension::DebugReport
        ]
    );
}

#[test]
fn extensions_carry_their_vulkan_names() {
    assert_eq!(InstanceExtension::Surface.name(), "VK_KHR_surface");
    assert_eq!(InstanceExtension::XlibSurface.name(), "VK_KHR_xlib_surface");
    assert_eq!(InstanceExtension::MacOsSurface.name(), "VK_MVK_macos_surface");
    assert_eq!(InstanceExtension::Win32Surface.name(), "VK_KHR_win32_surface");
    assert_eq!(InstanceExtension::DebugReport.name(), "VK_EXT_debug_report");
    assert_eq!(DeviceExtension::Swapchain.name(), "VK_KHR_swapchain");
}

#[test]
fn debug_callback_takes_errors_and_warnings() {
    assert_eq!(Application::setup_debug_callback(), DebugCallbackInfo { flags: 0b1110 });
}

#[test]
fn version_is_packed_into_32_bits() {
    assert_eq!(make_version(1, 0, 36), 4_194_340);
    assert_eq!(make_version(1, 0, 36), 0x0040_0024);
    assert_eq!(make_version(0, 0, 0), 0);
    assert_eq!(make_version(1, 2, 3), (1 << 22) | (2 << 12) | 3);
    assert_eq!(make_version(1023, 1023, 4095), u32::MAX);
}

#[test]
fn instance_asks_for_vulkan_1_0_36() {
    let layers = vec![b"VK_LAYER_LUNARG_standard_validation".to_vec()];
    let info = create_instance(
        b"test".to_vec(),
        b"engine".to_vec(),
        layers.clone(),
        extension_names(Platform::Unix),
    );
    assert_eq!(info.application_name, b"test".to_vec());
    assert_eq!(info.engine_name, b"engine".to_vec());
    assert_eq!(info.application_version, 0);
    assert_eq!(info.engine_version, 0);
    assert_eq!(info.api_version, 4_194_340);
    assert_eq!(info.enabled_layers, layers);
    assert_eq!(info.enabled_extensions, extension_names(Platform::Unix));
}

#[test]
fn device_takes_one_queue_and_the_swapchain_extension() {
    let layers = vec![b"VK_LAYER_LUNARG_standard_validation".to_vec()];
    let device = Device::new(layers.clone(), 2);
    assert_eq!(device.queue_family_index, 2);
    assert_eq!(device.queue_count, 1);
    assert_eq!(device.queue_priority, 1);
    assert_eq!(device.enabled_layers, layers);
    assert_eq!(device.enabled_extensions, vec![DeviceExtension::Swapchain]);
    assert!(device.enables_adapter_features);
}

#[test]
fn close_before_any_tick_submits_nothing_and_tears_down_cleanly() {
    let mut application = ready();
    let acquired = application.resources.acquired.clone();
    assert_eq!(application.start(3, u64::MAX), Ok(FrameAction::AwaitSignal));
    let action = application.run(FrameEvent::Window(WindowSignal::CloseRequested));
    assert_eq!(action, FrameAction::Stop);
    assert_eq!(application.frames.unwrap().phase, FramePhase::Stopped);
    let order = application.teardown().unwrap();
    assert_eq!(
        order,
        vec![
            ResourceKind::InFlightFences,
            ResourceKind::RenderFinishedSemaphores,
            ResourceKind::ImageAvailableSemaphores,
            ResourceKind::CommandPool,
            ResourceKind::Framebuffers,
            ResourceKind::Pipelines,
            ResourceKind::RenderPass,
            ResourceKind::PipelineLayout,
            ResourceKind::ShaderModules,
            ResourceKind::ImageViews,
            ResourceKind::Swapchain,
            ResourceKind::Surface,
            ResourceKind::Device,
            ResourceKind::DebugCallback,
            ResourceKind::Instance,
        ]
    );
    assert_eq!(order.len(), acquired.len());
    for kind in acquired.iter() {
        assert!(order.contains(kind));
    }
    assert_eq!(application.resources.acquired, vec![]);
    assert!(application.frames.is_none());
}

#[test]
fn close_before_any_tick_reverses_a_ranked_acquisition() {
    let mut ranked = vk_engine::engine::resources::all_kinds();
    ranked.reverse();
    let mut application = Application::new();
    for kind in ranked.iter() {
        application.resources.acquire(*kind).unwrap();
    }
    application.start(2, u64::MAX).unwrap();
    assert_eq!(
        application.run(FrameEvent::Window(WindowSignal::CloseRequested)),
        FrameAction::Stop
    );
    let mut reversed = ranked.clone();
    reversed.reverse();
    assert_eq!(application.teardown(), Ok(reversed));
}

#[test]
fn application_runs_frames_through_its_loop() {
    let mut application = ready();
    application.start(2, 5).unwrap();
    assert_eq!(application.frames, Some(FrameSync::new(2, 5)));
    assert_eq!(
        application.run(FrameEvent::Window(WindowSignal::Continue)),
        FrameAction::WaitForFence { slot: FrameSlot::First, timeout: 5 }
    );
    assert_eq!(
        application.run(FrameEvent::FenceWaited(Ok(()))),
        FrameAction::ResetFence { slot: FrameSlot::First }
    );
    assert_eq!(application.frames.unwrap().phase, FramePhase::Reset);
    assert_eq!(application.resources.acquired, acquisition_order());
}

#[test]
fn loop_cannot_start_twice_or_early_or_without_images() {
    let mut application = Application::new();
    assert_eq!(application.start(3, 0), Err(LifecycleError::Incomplete));
    application.resources.acquire(ResourceKind::Instance).unwrap();
    assert_eq!(application.start(3, 0), Err(LifecycleError::Incomplete));
    let mut application = ready();
    assert_eq!(application.start(0, 0), Err(LifecycleError::NoImages));
    assert!(application.frames.is_none());
    assert_eq!(application.start(3, 0), Ok(FrameAction::AwaitSignal));
    assert_eq!(application.start(3, 0), Err(LifecycleError::AlreadyStarted));
}

#[test]
fn report_before_start_is_refused() {
    let mut application = ready();
    assert_eq!(
        application.run(FrameEvent::Window(WindowSignal::Continue)),
        FrameAction::Abort(FrameError { stage: FrameStage::Idle, fault: FrameFault::NotStarted })
    );
    assert!(application.frames.is_none());
}

#[test]
fn teardown_is_refused_while_the_loop_runs() {
    let mut application = ready();
    application.start(3, 0).unwrap();
    assert_eq!(application.teardown(), Err(LifecycleError::LoopRunning));
    application.run(FrameEvent::Window(WindowSignal::Continue));
    assert_eq!(application.teardown(), Err(LifecycleError::LoopRunning));
    assert_eq!(application.resources.acquired, acquisition_order());
    application.run(FrameEvent::FenceWaited(Err(vk_engine::frame::GpuError::Timeout)));
    assert_eq!(application.teardown(), Err(LifecycleError::LoopRunning));
}

#[test]
fn teardown_before_start_gives_up_what_was_acquired() {
    let mut application = Application::new();
    application.resources.acquire(ResourceKind::Instance).unwrap();
    application.resources.acquire(ResourceKind::Surface).unwrap();
    assert_eq!(
        application.teardown(),
        Ok(vec![ResourceKind::Surface, ResourceKind::Instance])
    );
    assert_eq!(application.teardown(), Ok(vec![]));
}
