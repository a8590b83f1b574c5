//! What one frame's command buffer holds, in order.
//!
//! The caller turns each [`FrameCommand`] into the matching `vkCmd*` call on
//! the slot's command buffer.
use vstd::prelude::*;

use crate::swapchain::Extent;

verus! {

#[derive(Clone, Copy, Debug, PartialEq, Eq, Structural)]
pub enum ImageLayout {
    Undefined,
    ColorAttachmentOptimal,
    PresentSrc,
}

#[derive(Clone, Copy, Debug, PartialEq, Eq, Structural)]
pub enum Access {
    NoAccess,
    ColorAttachmentWrite,
}

#[derive(Clone, Copy, Debug, PartialEq, Eq, Structural)]
pub enum Stage {
    TopOfPipe,
    ColorAttachmentOutput,
    BottomOfPipe,
}

/// An image memory barrier on the colour aspect of the one mip level and
/// array layer of a swapchain image.
#[derive(Clone, Copy, Debug, PartialEq, Eq, Structural)]
pub struct LayoutTransition {
    pub old_layout: ImageLayout,
    pub new_layout: ImageLayout,
    pub src_access: Access,
    pub dst_access: Access,
    pub src_stage: Stage,
    pub dst_stage: Stage,
}

#[derive(Clone, Copy, Debug, PartialEq, Eq, Structural)]
pub enum FrameCommand {
    /// Begin the command buffer.
    Begin,
    /// A barrier on the swapchain image.
    Transition { image_index: u32, transition: LayoutTransition },
    /// Begin dynamic rendering into the image's view over the whole extent,
    /// cleared to opaque black and stored.
    BeginRendering { image_index: u32, extent: Extent },
    BindPipeline,
    /// The viewport covers the extent, with depth from 0 to 1.
    SetViewport { extent: Extent },
    SetScissor { extent: Extent },
    Draw { vertex_count: u32, instance_count: u32 },
    EndRendering,
    /// End the command buffer.
    End,
}

/// From whatever the image held to a colour attachment; nothing earlier
/// this frame needs waiting for.
pub open spec fn to_color_attachment_spec() -> LayoutTransition {
    LayoutTransition {
        old_layout: ImageLayout::Undefined,
        new_layout: ImageLayout::ColorAttachmentOptimal,
        src_access: Access::NoAccess,
        dst_access: Access::ColorAttachmentWrite,
        src_stage: Stage::TopOfPipe,
        dst_stage: Stage::ColorAttachmentOutput,
    }
}

/// From a colour attachment to presentable; nothing later on the device
/// touches it.
pub open spec fn to_present_spec() -> LayoutTransition {
    LayoutTransition {
        old_layout: ImageLayout::ColorAttachmentOptimal,
        new_layout: ImageLayout::PresentSrc,
        src_access: Access::ColorAttachmentWrite,
        dst_access: Access::NoAccess,
        src_stage: Stage::ColorAttachmentOutput,
        dst_stage: Stage::BottomOfPipe,
    }
}

pub open spec fn frame_commands_spec(image_index: u32, extent: Extent) -> Seq<FrameCommand> {
    seq![
        FrameCommand::Begin,
        FrameCommand::Transition { image_index, transition: to_color_attachment_spec() },
        FrameCommand::BeginRendering { image_index, extent },
        FrameCommand::BindPipeline,
        FrameCommand::SetViewport { extent },
        FrameCommand::SetScissor { extent },
        FrameCommand::Draw { vertex_count: 3, instance_count: 1 },
        FrameCommand::EndRendering,
        FrameCommand::Transition { image_index, transition: to_present_spec() },
        FrameCommand::End,
    ]
}

pub fn to_color_attachment() -> (r: LayoutTransition)
    ensures
        r == to_color_attachment_spec(),
{
    LayoutTransition {
        old_layout: ImageLayout::Undefined,
        new_layout: ImageLayout::ColorAttachmentOptimal,
        src_access: Access::NoAccess,
        dst_access: Access::ColorAttachmentWrite,
        src_stage: Stage::TopOfPipe,
        dst_stage: Stage::ColorAttachmentOutput,
    }
}

pub fn to_present() -> (r: LayoutTransition)
    ensures
        r == to_present_spec(),
{
    LayoutTransition {
        old_layout: ImageLayout::ColorAttachmentOptimal,
        new_layout: ImageLayout::PresentSrc,
        src_access: Access::ColorAttachmentWrite,
        dst_access: Access::NoAccess,
        src_stage: Stage::ColorAttachmentOutput,
        dst_stage: Stage::BottomOfPipe,
    }
}

/// The commands of one frame that draws into image `image_index`.
pub fn frame_commands(image_index: u32, extent: Extent) -> (r: Vec<FrameCommand>)
    ensures
        r@ == frame_commands_spec(image_index, extent),
{
    let r = vec![
        FrameCommand::Begin,
        FrameCommand::Transition { image_index, transition: to_color_attachment() },
        FrameCommand::BeginRendering { image_index, extent },
        FrameCommand::BindPipeline,
        FrameCommand::SetViewport { extent },
        FrameCommand::SetScissor { extent },
        FrameCommand::Draw { vertex_count: 3, instance_count: 1 },
        FrameCommand::EndRendering,
        FrameCommand::Transition { image_index, transition: to_present() },
        FrameCommand::End,
    ];
    assert(r@ =~= frame_commands_spec(image_index, extent));
    r
}

} // verus!
