use lvkrs::commands::{frame_commands, to_color_attachment, to_present, Access, FrameCommand, ImageLayout, Stage};
use lvkrs::error::AppError;
use lvkrs::instance::{
    all_supported, check_extensions, check_layers, log_level, required_device_extensions,
    required_instance_extensions, required_layers, LogLevel, Platform, Severity,
};
use lvkrs::lifecycle::{dependencies, teardown_order, LifecycleError, Resource, ResourceTracker};
use lvkrs::pipeline::ShaderCode;
use lvkrs::swapchain::Extent;

fn strings(v: &[&str]) -> Vec<String> {
    v.iter().map(|s| s.to_string()).collect()
}

#[test]
fn instance_extensions_per_platform() {
    assert_eq!(
        required_instance_extensions(Platform::Wayland, false),
        strings(&["VK_KHR_surface", "VK_KHR_wayland_surface"])
    );
    assert_eq!(
        required_instance_extensions(Platform::MacOs, true),
        strings(&[
            "VK_KHR_surface",
            "VK_EXT_metal_surface",
            "VK_KHR_portability_enumeration",
            "VK_EXT_debug_utils"
        ])
    );
}

#[test]
fn device_extensions_and_layers() {
    assert_eq!(
        required_device_extensions(Platform::Wayland),
        strings(&["VK_KHR_swapchain", "VK_KHR_spirv_1_4", "VK_KHR_synchronization2", "VK_KHR_dynamic_rendering"])
    );
    assert_eq!(required_device_extensions(Platform::MacOs).len(), 5);
    assert_eq!(required_layers(true), strings(&["VK_LAYER_KHRONOS_validation"]));
    assert!(required_layers(false).is_empty());
}

#[test]
fn missing_capabilities_are_errors() {
    let avail = strings(&["VK_LAYER_A", "VK_LAYER_KHRONOS_validation"]);
    assert!(all_supported(&required_layers(true), &avail));
    assert_eq!(check_layers(&required_layers(true), &avail), Ok(()));
    assert_eq!(check_layers(&required_layers(true), &strings(&["VK_LAYER_A"])), Err(AppError::MissingLayer));
    assert_eq!(check_layers(&vec![], &vec![]), Ok(()));
    assert_eq!(
        check_extensions(&strings(&["VK_KHR_surface", "VK_KHR_x"]), &strings(&["VK_KHR_surface"])),
        Err(AppError::MissingExtension)
    );
}

#[test]
fn diagnostics_levels() {
    assert_eq!(log_level(Severity::Error), Some(LogLevel::Error));
    assert_eq!(log_level(Severity::Warning), Some(LogLevel::Warn));
    assert_eq!(log_level(Severity::Info), Some(LogLevel::Info));
    assert_eq!(log_level(Severity::Verbose), None);
}

#[test]
fn error_messages() {
    assert_eq!(AppError::NoDevices.message(), "No vk physical devices to use");
    assert_eq!(AppError::Init("boom".to_string()).message(), "boom");
}

fn build_all(t: &mut ResourceTracker) {
    let order = teardown_order();
    for r in order.iter().rev() {
        assert_eq!(t.create(*r), Ok(()));
    }
}

#[test]
fn full_teardown_order_succeeds() {
    let mut t = ResourceTracker::new();
    build_all(&mut t);
    for r in teardown_order() {
        assert!(t.live(r));
        assert_eq!(t.release(r), Ok(()));
        assert!(!t.live(r));
    }
}

#[test]
fn teardown_out_of_order_is_refused() {
    let mut t = ResourceTracker::new();
    build_all(&mut t);
    assert_eq!(t.release(Resource::Device), Err(LifecycleError::DependentsLive));
    assert_eq!(t.release(Resource::Swapchain), Err(LifecycleError::DependentsLive));
    assert_eq!(t.release(Resource::ImageViews), Ok(()));
    assert_eq!(t.release(Resource::ImageViews), Err(LifecycleError::NotLive));
    assert_eq!(t.release(Resource::Swapchain), Ok(()));
    assert_eq!(t.create(Resource::Swapchain), Ok(()));
    assert_eq!(t.create(Resource::Swapchain), Err(LifecycleError::AlreadyLive));
}

#[test]
fn creation_needs_dependencies() {
    let mut t = ResourceTracker::new();
    assert_eq!(t.create(Resource::Device), Err(LifecycleError::MissingDependency));
    assert_eq!(t.create(Resource::Instance), Ok(()));
    assert_eq!(t.create(Resource::Device), Ok(()));
    assert_eq!(t.create(Resource::Swapchain), Err(LifecycleError::MissingDependency));
    assert_eq!(dependencies(Resource::Swapchain), vec![Resource::Device, Resource::Surface]);
}

#[test]
fn frame_commands_in_order() {
    let e = Extent { width: 640, height: 480 };
    let cmds = frame_commands(2, e);
    assert_eq!(cmds.len(), 10);
    assert_eq!(cmds[0], FrameCommand::Begin);
    assert_eq!(cmds[1], FrameCommand::Transition { image_index: 2, transition: to_color_attachment() });
    assert_eq!(cmds[2], FrameCommand::BeginRendering { image_index: 2, extent: e });
    assert_eq!(cmds[6], FrameCommand::Draw { vertex_count: 3, instance_count: 1 });
    assert_eq!(cmds[8], FrameCommand::Transition { image_index: 2, transition: to_present() });
    assert_eq!(cmds[9], FrameCommand::End);
    let t = to_present();
    assert_eq!(t.old_layout, ImageLayout::ColorAttachmentOptimal);
    assert_eq!(t.new_layout, ImageLayout::PresentSrc);
    assert_eq!(t.src_access, Access::ColorAttachmentWrite);
    assert_eq!(t.dst_stage, Stage::BottomOfPipe);
    assert_eq!(to_color_attachment().src_stage, Stage::TopOfPipe);
}

#[test]
fn shader_code_must_not_be_empty() {
    assert!(ShaderCode::new(vec![]).is_none());
    let c = ShaderCode::new(vec![3, 2, 35, 7]).unwrap();
    assert_eq!(c.len(), 4);
    assert_eq!(c.bytes(), &vec![3u8, 2, 35, 7]);
}
