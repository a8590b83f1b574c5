//! The `ash` types that the contexts hold. Verus sees none of their
//! contents: each is carried through unchanged.
use vstd::prelude::*;

verus! {

/// `ash::Entry`: the loaded Vulkan entry points.
#[verifier::external_type_specification]
#[verifier::external_body]
pub struct ExEntry(ash::Entry);

/// `ash::Instance`: a Vulkan instance and its function table.
#[verifier::external_type_specification]
#[verifier::external_body]
pub struct ExInstance(ash::Instance);

/// `ash::Device`: a logical device and its function table.
#[verifier::external_type_specification]
#[verifier::external_body]
pub struct ExDevice(ash::Device);

/// `ash::khr::surface::Instance`: the surface extension functions.
#[verifier::external_type_specification]
#[verifier::external_body]
pub struct ExSurfaceLoader(ash::khr::surface::Instance);

/// `ash::khr::swapchain::Device`: the swapchain extension functions.
#[verifier::external_type_specification]
#[verifier::external_body]
pub struct ExSwapchainLoader(ash::khr::swapchain::Device);

/// `ash::ext::debug_utils::Instance`: the debug-utils extension functions.
#[verifier::external_type_specification]
#[verifier::external_body]
pub struct ExDebugUtilsLoader(ash::ext::debug_utils::Instance);

/// `ash::vk::PhysicalDevice`: a physical device handle.
#[verifier::external_type_specification]
#[verifier::external_body]
pub struct ExPhysicalDevice(ash::vk::PhysicalDevice);

/// `ash::vk::Queue`: a queue handle.
#[verifier::external_type_specification]
#[verifier::external_body]
pub struct ExQueue(ash::vk::Queue);

/// `ash::vk::SurfaceKHR`: a surface handle.
#[verifier::external_type_specification]
#[verifier::external_body]
pub struct ExSurfaceKHR(ash::vk::SurfaceKHR);

/// `ash::vk::SwapchainKHR`: a swapchain handle.
#[verifier::external_type_specification]
#[verifier::external_body]
pub struct ExSwapchainKHR(ash::vk::SwapchainKHR);

/// `ash::vk::Image`: an image handle.
#[verifier::external_type_specification]
#[verifier::external_body]
pub struct ExImage(ash::vk::Image);

/// `ash::vk::ImageView`: an image view handle.
#[verifier::external_type_specification]
#[verifier::external_body]
pub struct ExImageView(ash::vk::ImageView);

/// `ash::vk::PipelineLayout`: a pipeline layout handle.
#[verifier::external_type_specification]
#[verifier::external_body]
pub struct ExPipelineLayout(ash::vk::PipelineLayout);

/// `ash::vk::Pipeline`: a pipeline handle.
#[verifier::external_type_specification]
#[verifier::external_body]
pub struct ExPipeline(ash::vk::Pipeline);

/// `ash::vk::CommandPool`: a command pool handle.
#[verifier::external_type_specification]
#[verifier::external_body]
pub struct ExCommandPool(ash::vk::CommandPool);

/// `ash::vk::CommandBuffer`: a command buffer handle.
#[verifier::external_type_specification]
#[verifier::external_body]
pub struct ExCommandBuffer(ash::vk::CommandBuffer);

/// `ash::vk::Semaphore`: a semaphore handle.
#[verifier::external_type_specification]
#[verifier::external_body]
pub struct ExSemaphore(ash::vk::Semaphore);

/// `ash::vk::Fence`: a fence handle.
#[verifier::external_type_specification]
#[verifier::external_body]
pub struct ExFence(ash::vk::Fence);

/// `ash::vk::DebugUtilsMessengerEXT`: a debug messenger handle.
#[verifier::external_type_specification]
#[verifier::external_body]
pub struct ExDebugMessenger(ash::vk::DebugUtilsMessengerEXT);

} // verus!
