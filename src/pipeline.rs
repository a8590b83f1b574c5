//! The graphics pipeline and the shader code it is built from.
use vstd::prelude::*;

verus! {

/// Compiled shader code, never empty.
pub struct ShaderCode {
    bytes: Vec<u8>,
}

impl View for ShaderCode {
    type V = Seq<u8>;

    closed spec fn view(&self) -> Seq<u8> {
        self.bytes@
    }
}

impl ShaderCode {
    pub closed spec fn wf(&self) -> bool {
        self.bytes@.len() > 0
    }

    /// The code, or `None` when it is empty.
    pub fn new(bytes: Vec<u8>) -> (r: Option<ShaderCode>)
        ensures
            bytes@.len() == 0 <==> r.is_none(),
            r matches Some(c) ==> c.wf() && c@ == bytes@,
    {
        if bytes.len() == 0 {
            None
        } else {
            Some(ShaderCode { bytes })
        }
    }

    pub fn bytes(&self) -> (r: &Vec<u8>)
        ensures
            r@ == self@,
    {
        &self.bytes
    }

    pub fn len(&self) -> (r: usize)
        requires
            self.wf(),
        ensures
            r == self@.len(),
            r > 0,
    {
        self.bytes.len()
    }
}

/// The compiled pipeline for one colour format, with the command pool and
/// command buffer that go with it.
pub struct PipelineContext {
    pub pipeline_layout: ash::vk::PipelineLayout,
    pub graphics_pipeline: ash::vk::Pipeline,
    /// The colour-attachment format the pipeline renders to.
    pub color_format: i32,
    pub command_pool: ash::vk::CommandPool,
    pub command_buff: ash::vk::CommandBuffer,
}

impl PipelineContext {
    /// Assembles the context of a pipeline built for `color_format`.
    pub fn new(
        pipeline_layout: ash::vk::PipelineLayout,
        graphics_pipeline: ash::vk::Pipeline,
        color_format: i32,
        command_pool: ash::vk::CommandPool,
        command_buff: ash::vk::CommandBuffer,
    ) -> (r: PipelineContext)
        ensures
            r.pipeline_layout == pipeline_layout,
            r.graphics_pipeline == graphics_pipeline,
            r.color_format == color_format,
            r.command_pool == command_pool,
            r.command_buff == command_buff,
    {
        PipelineContext { pipeline_layout, graphics_pipeline, color_format, command_pool, command_buff }
    }
}

} // verus!
