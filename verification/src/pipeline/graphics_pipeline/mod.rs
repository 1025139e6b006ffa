//! The pipeline of a draw operation, and the errors of making one.

pub mod builder;
pub mod creation_error;

pub use self::builder::GraphicsPipelineBuilder;
pub use self::creation_error::GraphicsPipelineCreationError;
use crate::device::Device;
use crate::device::Features;
use crate::device::Properties;
use crate::pipeline::graphics_pipeline::builder::ShaderStage;
use crate::pipeline::layout::PipelineLayout;
use crate::pipeline::vertex::VertexInput;
use crate::render_pass::Subpass;
use crate::Error;
use std::marker::PhantomData;
use std::sync::Arc;
use vstd::prelude::*;

verus! {

/// Native handle of a pipeline.
#[verifier::external_type_specification]
#[verifier::external_body]
pub struct ExPipelineHandle(ash::vk::Pipeline);

/// Defines how the implementation should perform a draw operation.
///
/// This object contains the shaders and the various fixed states that
/// describe how the implementation should perform the various operations
/// needed by a draw command. It never changes once it is made.
pub struct GraphicsPipeline {
    inner: Inner,
    layout: Arc<PipelineLayout>,
    subpass: Subpass,
    vertex_input: VertexInput,
    dynamic_line_width: bool,
    dynamic_viewport: bool,
    dynamic_scissor: bool,
    dynamic_depth_bias: bool,
    dynamic_depth_bounds: bool,
    dynamic_stencil_compare_mask: bool,
    dynamic_stencil_write_mask: bool,
    dynamic_stencil_reference: bool,
    dynamic_blend_constants: bool,
    num_viewports: u32,
}

struct Inner {
    pipeline: ash::vk::Pipeline,
    device: Arc<Device>,
}

/// The parts of the state of a pipeline that are set when drawing, not by
/// the pipeline.
#[derive(Debug, Copy, Clone, PartialEq, Eq, Structural)]
pub struct DynamicState {
    pub line_width: bool,
    pub viewport: bool,
    pub scissor: bool,
    pub depth_bias: bool,
    pub depth_bounds: bool,
    pub stencil_compare_mask: bool,
    pub stencil_write_mask: bool,
    pub stencil_reference: bool,
    pub blend_constants: bool,
}

impl GraphicsPipelineBuilder {
    /// The parts of the state that the configuration leaves to be set when
    /// drawing.
    pub open spec fn spec_dynamic_state(self) -> DynamicState {
        DynamicState {
            line_width: self.raster.line_width_dynamic,
            viewport: self.viewports.viewports_dynamic,
            scissor: self.viewports.scissors_dynamic,
            depth_bias: self.raster.depth_bias_dynamic,
            depth_bounds: self.depth_stencil.depth_bounds_dynamic,
            stencil_compare_mask: self.depth_stencil.stencil_compare_mask_dynamic,
            stencil_write_mask: self.depth_stencil.stencil_write_mask_dynamic,
            stencil_reference: self.depth_stencil.stencil_reference_dynamic,
            blend_constants: self.blend.blend_constants_dynamic,
        }
    }

    /// The first thing that keeps a pipeline from being made of the
    /// configuration on a device with the given features and limits and
    /// with the given layout, if there is one: a descriptor that the
    /// shaders access and that the layout does not have, or else the first
    /// rule that the configuration breaks.
    pub open spec fn obstacle(
        self,
        layout: PipelineLayout,
        features: Features,
        properties: Properties,
    ) -> Option<GraphicsPipelineCreationError> {
        match layout.superset_violation(self.descriptor_requirements@) {
            Some(error) => Some(GraphicsPipelineCreationError::IncompatiblePipelineLayout(error)),
            None => self.first_violation(features, properties),
        }
    }

    /// Holds the configuration against the layout and to the rules for
    /// `device`, and makes the pipeline of the native pipeline that was
    /// created for it.
    ///
    /// `created` is what the native layer returned for the configuration:
    /// the handle of the new pipeline, or an error. It is only looked at if
    /// the configuration breaks no rule. The only error that is expected of
    /// the native layer, and the only one that is accepted here, is that
    /// memory ran out.
    pub fn build(
        self,
        device: Arc<Device>,
        layout: Arc<PipelineLayout>,
        created: Result<ash::vk::Pipeline, Error>,
    ) -> (r: Result<GraphicsPipeline, GraphicsPipelineCreationError>)
        requires
            created matches Err(err) ==> err.spec_is_out_of_memory(),
        ensures
            match self.obstacle(
                *layout,
                device.spec_enabled_features(),
                device.spec_properties(),
            ) {
                Some(error) => r matches Err(e) && e == error,
                None => match created {
                    Err(err) => r matches Err(e) && e
                        == GraphicsPipelineCreationError::spec_from_error(err),
                    Ok(handle) => {
                        &&& r matches Ok(pipeline)
                        &&& pipeline.spec_internal_object() == handle
                        &&& pipeline.spec_device() == device
                        &&& pipeline.spec_layout() == layout
                        &&& pipeline.spec_subpass() == self.subpass
                        &&& pipeline.spec_vertex_input() == self.vertex_input
                        &&& pipeline.spec_num_viewports() == self.viewports.count
                        &&& pipeline.spec_dynamic_state() == self.spec_dynamic_state()
                    },
                },
            },
    {
        match layout.ensure_superset_of(&self.descriptor_requirements) {
            Err(error) => {
                return Err(GraphicsPipelineCreationError::IncompatiblePipelineLayout(error));
            },
            Ok(()) => {},
        }
        match self.validate(device.enabled_features(), device.properties()) {
            Err(error) => {
                return Err(error);
            },
            Ok(()) => {},
        }
        let pipeline = match created {
            Ok(pipeline) => pipeline,
            Err(err) => {
                return Err(GraphicsPipelineCreationError::from_error(err));
            },
        };
        Ok(
            GraphicsPipeline {
                inner: Inner { pipeline, device },
                layout,
                subpass: self.subpass,
                vertex_input: self.vertex_input,
                dynamic_line_width: self.raster.line_width_dynamic,
                dynamic_viewport: self.viewports.viewports_dynamic,
                dynamic_scissor: self.viewports.scissors_dynamic,
                dynamic_depth_bias: self.raster.depth_bias_dynamic,
                dynamic_depth_bounds: self.depth_stencil.depth_bounds_dynamic,
                dynamic_stencil_compare_mask: self.depth_stencil.stencil_compare_mask_dynamic,
                dynamic_stencil_write_mask: self.depth_stencil.stencil_write_mask_dynamic,
                dynamic_stencil_reference: self.depth_stencil.stencil_reference_dynamic,
                dynamic_blend_constants: self.blend.blend_constants_dynamic,
                num_viewports: self.viewports.count,
            },
        )
    }
}

impl GraphicsPipeline {
    /// The native pipeline.
    pub closed spec fn spec_internal_object(self) -> ash::vk::Pipeline {
        self.inner.pipeline
    }

    /// The device that the pipeline was made on.
    pub closed spec fn spec_device(self) -> Arc<Device> {
        self.inner.device
    }

    /// The layout of the pipeline.
    pub closed spec fn spec_layout(self) -> Arc<PipelineLayout> {
        self.layout
    }

    /// The subpass that the pipeline renders in.
    pub closed spec fn spec_subpass(self) -> Subpass {
        self.subpass
    }

    /// The vertex input of the pipeline.
    pub closed spec fn spec_vertex_input(self) -> VertexInput {
        self.vertex_input
    }

    /// The number of viewports and scissor boxes of the pipeline.
    pub closed spec fn spec_num_viewports(self) -> u32 {
        self.num_viewports
    }

    /// The parts of the state that are set when drawing.
    pub closed spec fn spec_dynamic_state(self) -> DynamicState {
        DynamicState {
            line_width: self.dynamic_line_width,
            viewport: self.dynamic_viewport,
            scissor: self.dynamic_scissor,
            depth_bias: self.dynamic_depth_bias,
            depth_bounds: self.dynamic_depth_bounds,
            stencil_compare_mask: self.dynamic_stencil_compare_mask,
            stencil_write_mask: self.dynamic_stencil_write_mask,
            stencil_reference: self.dynamic_stencil_reference,
            blend_constants: self.dynamic_blend_constants,
        }
    }

    /// Starts the building process of a graphics pipeline. Returns a
    /// builder object that you can fill with the various parameters.
    pub fn start(vertex_shader: ShaderStage, subpass: Subpass) -> (r: GraphicsPipelineBuilder)
        ensures
            r.vertex_shader == vertex_shader,
            r.subpass == subpass,
    {
        GraphicsPipelineBuilder::new(vertex_shader, subpass)
    }

    /// Returns the device used to create this pipeline.
    #[inline]
    pub fn device(&self) -> (r: &Arc<Device>)
        ensures
            *r == self.spec_device(),
    {
        &self.inner.device
    }

    /// Returns the pipeline layout used to create this pipeline.
    #[inline]
    pub fn layout(&self) -> (r: &Arc<PipelineLayout>)
        ensures
            *r == self.spec_layout(),
    {
        &self.layout
    }

    /// Returns the subpass this graphics pipeline is rendering to.
    #[inline]
    pub fn subpass(&self) -> (r: &Subpass)
        ensures
            *r == self.spec_subpass(),
    {
        &self.subpass
    }

    /// Returns the vertex input description of the graphics pipeline.
    #[inline]
    pub fn vertex_input(&self) -> (r: &VertexInput)
        ensures
            *r == self.spec_vertex_input(),
    {
        &self.vertex_input
    }

    /// Returns the number of viewports and scissors of this pipeline.
    #[inline]
    pub fn num_viewports(&self) -> (r: u32)
        ensures
            r == self.spec_num_viewports(),
    {
        self.num_viewports
    }

    /// Returns true if the blend constants used by this pipeline are
    /// dynamic.
    #[inline]
    pub fn has_dynamic_blend_constants(&self) -> (r: bool)
        ensures
            r == self.spec_dynamic_state().blend_constants,
    {
        self.dynamic_blend_constants
    }

    /// Returns true if the depth bounds used by this pipeline are dynamic.
    #[inline]
    pub fn has_dynamic_depth_bounds(&self) -> (r: bool)
        ensures
            r == self.spec_dynamic_state().depth_bounds,
    {
        self.dynamic_depth_bounds
    }

    /// Returns true if the line width used by this pipeline is dynamic.
    #[inline]
    pub fn has_dynamic_line_width(&self) -> (r: bool)
        ensures
            r == self.spec_dynamic_state().line_width,
    {
        self.dynamic_line_width
    }

    /// Returns true if the scissors used by this pipeline are dynamic.
    #[inline]
    pub fn has_dynamic_scissor(&self) -> (r: bool)
        ensures
            r == self.spec_dynamic_state().scissor,
    {
        self.dynamic_scissor
    }

    /// Returns true if the stencil compare masks used by this pipeline are
    /// dynamic.
    #[inline]
    pub fn has_dynamic_stencil_compare_mask(&self) -> (r: bool)
        ensures
            r == self.spec_dynamic_state().stencil_compare_mask,
    {
        self.dynamic_stencil_compare_mask
    }

    /// Returns true if the stencil references used by this pipeline are
    /// dynamic.
    #[inline]
    pub fn has_dynamic_stencil_reference(&self) -> (r: bool)
        ensures
            r == self.spec_dynamic_state().stencil_reference,
    {
        self.dynamic_stencil_reference
    }

    /// Returns true if the stencil write masks used by this pipeline are
    /// dynamic.
    #[inline]
    pub fn has_dynamic_stencil_write_mask(&self) -> (r: bool)
        ensures
            r == self.spec_dynamic_state().stencil_write_mask,
    {
        self.dynamic_stencil_write_mask
    }

    /// Returns true if the viewports used by this pipeline are dynamic.
    #[inline]
    pub fn has_dynamic_viewport(&self) -> (r: bool)
        ensures
            r == self.spec_dynamic_state().viewport,
    {
        self.dynamic_viewport
    }

    /// Returns the native pipeline.
    #[inline]
    pub fn internal_object(&self) -> (r: ash::vk::Pipeline)
        ensures
            r == self.spec_internal_object(),
    {
        self.inner.pipeline
    }

    /// Returns an opaque object that represents the inside of the graphics
    /// pipeline.
    #[inline]
    pub fn sys(&self) -> (r: GraphicsPipelineSys<'_>)
        ensures
            r.spec_internal_object() == self.spec_internal_object(),
    {
        GraphicsPipelineSys(self.inner.pipeline, PhantomData)
    }

    /// Gives the pipeline up and returns the native pipeline, which has to
    /// be destroyed, together with the device to destroy it on. This is the
    /// only way to get at the native pipeline for good, so that it is
    /// destroyed once.
    pub fn into_inner(self) -> (r: (ash::vk::Pipeline, Arc<Device>))
        ensures
            r.0 == self.spec_internal_object(),
            r.1 == self.spec_device(),
    {
        (self.inner.pipeline, self.inner.device)
    }
}

/// Opaque object that represents the inside of the graphics pipeline.
#[derive(Debug, Copy, Clone)]
pub struct GraphicsPipelineSys<'a>(ash::vk::Pipeline, PhantomData<&'a ()>);

impl<'a> GraphicsPipelineSys<'a> {
    /// The native pipeline.
    pub closed spec fn spec_internal_object(self) -> ash::vk::Pipeline {
        self.0
    }

    /// Returns the native pipeline.
    #[inline]
    pub fn internal_object(&self) -> (r: ash::vk::Pipeline)
        ensures
            r == self.spec_internal_object(),
    {
        self.0
    }
}

} // verus!
