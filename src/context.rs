//! The contexts that own the native objects of a running renderer.
use vstd::prelude::*;

use crate::commands::{frame_commands, frame_commands_spec, FrameCommand};
use crate::device_select::DeviceContext;
use crate::instance::InstanceContext;
use crate::pipeline::PipelineContext;
use crate::render_loop::{
    initial_view, step_spec, DriverView, FrameAction, FrameEvent, Phase, RenderLoopDriver,
};
use crate::swapchain::SwapchainContext;

verus! {

/// One frame slot: its command buffer, the semaphore signalled when its
/// image is acquired, the one signalled when rendering is done, and the
/// fence signalled when the device has finished with the slot.
pub struct FrameData {
    pub cmd_buff: ash::vk::CommandBuffer,
    pub img_available: ash::vk::Semaphore,
    pub render_finished: ash::vk::Semaphore,
    pub draw_fence: ash::vk::Fence,
}

impl FrameData {
    /// Assembles a slot; the fence must have been created signalled.
    pub fn new(
        cmd_buff: ash::vk::CommandBuffer,
        img_available: ash::vk::Semaphore,
        render_finished: ash::vk::Semaphore,
        draw_fence: ash::vk::Fence,
    ) -> (r: FrameData)
        ensures
            r.cmd_buff == cmd_buff,
            r.img_available == img_available,
            r.render_finished == render_finished,
            r.draw_fence == draw_fence,
    {
        FrameData { cmd_buff, img_available, render_finished, draw_fence }
    }
}

/// The objects that last for the whole run: the driver connection and the
/// device.
pub struct VkCore {
    pub instance_ctx: InstanceContext,
    pub device_ctx: DeviceContext,
}

impl VkCore {
    pub fn new(instance_ctx: InstanceContext, device_ctx: DeviceContext) -> (r: VkCore)
        ensures
            r.instance_ctx == instance_ctx,
            r.device_ctx == device_ctx,
    {
        VkCore { instance_ctx, device_ctx }
    }
}

/// The objects tied to the surface: the swapchain, the pipeline, the frame
/// slots, and the driver that runs frames over them.
pub struct VkSwap {
    surface: ash::vk::SurfaceKHR,
    swapchain_ctx: SwapchainContext,
    pipeline_ctx: PipelineContext,
    frames: Vec<FrameData>,
    cmd_pool: ash::vk::CommandPool,
    driver: RenderLoopDriver,
}

impl VkSwap {
    pub closed spec fn surface_spec(&self) -> ash::vk::SurfaceKHR {
        self.surface
    }

    pub closed spec fn swapchain_spec(&self) -> SwapchainContext {
        self.swapchain_ctx
    }

    pub closed spec fn pipeline_spec(&self) -> PipelineContext {
        self.pipeline_ctx
    }

    pub closed spec fn frames_spec(&self) -> Seq<FrameData> {
        self.frames@
    }

    pub closed spec fn cmd_pool_spec(&self) -> ash::vk::CommandPool {
        self.cmd_pool
    }

    /// The state of the frame protocol.
    pub closed spec fn driver_spec(&self) -> DriverView {
        self.driver@
    }

    /// One slot per frame in flight, one view per image, and the driver
    /// knows the chain's image count.
    pub closed spec fn wf(&self) -> bool {
        &&& self.driver.wf()
        &&& self.swapchain_ctx.wf()
        &&& self.frames@.len() == self.driver@.pending.len()
        &&& self.driver@.image_count == self.swapchain_ctx.swapchain_imgs@.len()
    }

    /// Assembles the objects of a surface; no frame has run yet.
    pub fn new(
        surface: ash::vk::SurfaceKHR,
        swapchain_ctx: SwapchainContext,
        pipeline_ctx: PipelineContext,
        frames: Vec<FrameData>,
        cmd_pool: ash::vk::CommandPool,
    ) -> (r: VkSwap)
        requires
            swapchain_ctx.wf(),
            swapchain_ctx.swapchain_imgs@.len() <= u32::MAX,
            frames.len() > 0,
        ensures
            r.wf(),
            r.surface_spec() == surface,
            r.swapchain_spec() == swapchain_ctx,
            r.pipeline_spec() == pipeline_ctx,
            r.frames_spec() == frames@,
            r.cmd_pool_spec() == cmd_pool,
            r.driver_spec() == initial_view(
                frames@.len(),
                swapchain_ctx.swapchain_imgs@.len() as u32,
            ),
    {
        let image_count = swapchain_ctx.swapchain_imgs.len() as u32;
        let driver = RenderLoopDriver::new(frames.len(), image_count);
        VkSwap { surface, swapchain_ctx, pipeline_ctx, frames, cmd_pool, driver }
    }

    pub fn surface(&self) -> (r: ash::vk::SurfaceKHR)
        ensures
            r == self.surface_spec(),
    {
        self.surface
    }

    pub fn swapchain_ctx(&self) -> (r: &SwapchainContext)
        ensures
            *r == self.swapchain_spec(),
    {
        &self.swapchain_ctx
    }

    pub fn pipeline_ctx(&self) -> (r: &PipelineContext)
        ensures
            *r == self.pipeline_spec(),
    {
        &self.pipeline_ctx
    }

    pub fn frame_count(&self) -> (r: usize)
        ensures
            r == self.frames_spec().len(),
    {
        self.frames.len()
    }

    /// The objects of slot `slot`.
    pub fn frame(&self, slot: usize) -> (r: &FrameData)
        requires
            slot < self.frames_spec().len(),
        ensures
            *r == self.frames_spec()[slot as int],
    {
        &self.frames[slot]
    }

    pub fn phase(&self) -> (r: Phase)
        requires
            self.wf(),
        ensures
            r == self.driver_spec().phase,
    {
        self.driver.phase()
    }

    /// The slot of the current frame.
    pub fn current_frame(&self) -> (r: usize)
        requires
            self.wf(),
        ensures
            r == self.driver_spec().slot,
            r < self.frames_spec().len(),
    {
        self.driver.slot()
    }

    /// The submissions whose fence was not waited on yet.
    pub fn in_flight(&self) -> (r: usize)
        requires
            self.wf(),
        ensures
            r == crate::frame_ring::count_true(self.driver_spec().pending),
            r <= self.frames_spec().len(),
    {
        proof {
            crate::frame_ring::lemma_count_true_bounded(self.driver@.pending);
        }
        self.driver.in_flight()
    }

    /// Takes the outcome of the last action and returns the next one. The
    /// end of a rebuild is reported through [`VkSwap::rebuild`] instead, and
    /// is ignored here.
    pub fn step(&mut self, event: FrameEvent) -> (r: FrameAction)
        requires
            old(self).wf(),
        ensures
            final(self).wf(),
            final(self).swapchain_spec() == old(self).swapchain_spec(),
            final(self).pipeline_spec() == old(self).pipeline_spec(),
            final(self).frames_spec() == old(self).frames_spec(),
            event is SwapchainRebuilt ==> r == FrameAction::Ignore && final(self).driver_spec()
                == old(self).driver_spec(),
            !(event is SwapchainRebuilt) ==> (final(self).driver_spec(), r) == step_spec(
                old(self).driver_spec(),
                event,
            ),
    {
        match event {
            FrameEvent::SwapchainRebuilt { .. } => FrameAction::Ignore,
            _ => self.driver.step(event),
        }
    }

    /// The commands of a frame that draws into image `image_index` over the
    /// current extent.
    pub fn record_command_buff(&self, image_index: u32) -> (r: Vec<FrameCommand>)
        ensures
            r@ == frame_commands_spec(image_index, self.swapchain_spec().config.extent),
    {
        frame_commands(image_index, self.swapchain_ctx.config.extent)
    }

    /// Puts a rebuilt swapchain and pipeline in place of the old ones, which
    /// are handed back for destruction, and ends the rebuild. Outside a
    /// rebuild nothing changes and the new ones are handed back.
    pub fn rebuild(&mut self, swapchain_ctx: SwapchainContext, pipeline_ctx: PipelineContext) -> (r:
        (SwapchainContext, PipelineContext, FrameAction))
        requires
            old(self).wf(),
            swapchain_ctx.wf(),
            swapchain_ctx.swapchain_imgs@.len() <= u32::MAX,
        ensures
            final(self).wf(),
            final(self).frames_spec() == old(self).frames_spec(),
            old(self).driver_spec().phase == Phase::Rebuilding ==> {
                &&& final(self).swapchain_spec() == swapchain_ctx
                &&& final(self).pipeline_spec() == pipeline_ctx
                &&& r.0 == old(self).swapchain_spec()
                &&& r.1 == old(self).pipeline_spec()
                &&& (final(self).driver_spec(), r.2) == step_spec(
                    old(self).driver_spec(),
                    FrameEvent::SwapchainRebuilt {
                        image_count: swapchain_ctx.swapchain_imgs@.len() as u32,
                    },
                )
            },
            old(self).driver_spec().phase != Phase::Rebuilding ==> {
                &&& *final(self) == *old(self)
                &&& r.0 == swapchain_ctx
                &&& r.1 == pipeline_ctx
                &&& r.2 == FrameAction::Ignore
            },
    {
        if self.driver.phase() != Phase::Rebuilding {
            return (swapchain_ctx, pipeline_ctx, FrameAction::Ignore);
        }
        let image_count = swapchain_ctx.swapchain_imgs.len() as u32;
        let mut sc = swapchain_ctx;
        let mut pc = pipeline_ctx;
        std::mem::swap(&mut self.swapchain_ctx, &mut sc);
        std::mem::swap(&mut self.pipeline_ctx, &mut pc);
        let action = self.driver.step(FrameEvent::SwapchainRebuilt { image_count });
        (sc, pc, action)
    }

    /// Hands back every object for teardown.
    pub fn into_parts(self) -> (r: (
        ash::vk::SurfaceKHR,
        SwapchainContext,
        PipelineContext,
        Vec<FrameData>,
        ash::vk::CommandPool,
    ))
        ensures
            r.0 == self.surface_spec(),
            r.1 == self.swapchain_spec(),
            r.2 == self.pipeline_spec(),
            r.3@ == self.frames_spec(),
            r.4 == self.cmd_pool_spec(),
    {
        (self.surface, self.swapchain_ctx, self.pipeline_ctx, self.frames, self.cmd_pool)
    }
}

} // verus!
