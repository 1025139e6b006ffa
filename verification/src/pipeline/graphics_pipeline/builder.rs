//! The configuration of a graphics pipeline, and the rules that it is held
//! to before a pipeline is made of it.

use crate::descriptor_set::layout::DescriptorSetDesc;
use crate::device::Features;
use crate::device::Properties;
use crate::pipeline::graphics_pipeline::creation_error::GraphicsPipelineCreationError;
use crate::pipeline::input_assembly::PrimitiveTopology;
use crate::pipeline::shader::interface_mismatch;
use crate::pipeline::shader::truncate_count;
use crate::pipeline::shader::GeometryShaderExecutionMode;
use crate::pipeline::shader::ShaderInterface;
use crate::pipeline::shader::ShaderInterfaceEntry;
use crate::pipeline::vertex::vertex_definition_mismatch;
use crate::pipeline::vertex::VertexInput;
use crate::pipeline::vertex::VertexInputAttribute;
use crate::pipeline::vertex::VertexInputBinding;
use crate::pipeline::vertex::VertexInputRate;
use crate::render_pass::Subpass;
use vstd::prelude::*;

verus! {

/// A shader stage of a pipeline, by what it takes in and gives out.
#[derive(Debug)]
pub struct ShaderStage {
    /// What the stage reads from the stage before it.
    pub input: ShaderInterface,
    /// What the stage hands to the stage after it.
    pub output: ShaderInterface,
}

/// The two tessellation stages of a pipeline.
#[derive(Debug)]
pub struct TessellationStages {
    pub control: ShaderStage,
    pub evaluation: ShaderStage,
}

/// The geometry stage of a pipeline.
#[derive(Debug)]
pub struct GeometryStage {
    pub stage: ShaderStage,
    /// The type of primitives that the shader expects.
    pub primitives: GeometryShaderExecutionMode,
}

/// Describes how polygons are drawn.
#[derive(Debug, Copy, Clone, PartialEq, Eq, Structural)]
pub enum PolygonMode {
    /// The polygon will be filled. This is the default mode.
    Fill,
    /// Only the edges of the polygon are drawn, as line segments.
    Line,
    /// Only the vertices of the polygon are drawn, as points.
    Point,
}

/// State of the rasterizer.
#[derive(Debug, Copy, Clone, PartialEq, Eq, Structural)]
pub struct Rasterization {
    /// If true, then the depth value of the vertices will be clamped to the
    /// range of the viewport. Requires the `depth_clamp` feature.
    pub depth_clamp: bool,
    /// How polygons are drawn. Anything but `Fill` requires the
    /// `fill_mode_non_solid` feature.
    pub polygon_mode: PolygonMode,
    /// True if lines are drawn with a fixed width other than one pixel.
    /// Requires the `wide_lines` feature.
    pub wide_lines: bool,
    /// True if the width of lines is set when drawing, not by the pipeline.
    pub line_width_dynamic: bool,
    /// True if the depth bias is clamped to a fixed value other than zero.
    /// Requires the `depth_bias_clamp` feature.
    pub depth_bias_clamp: bool,
    /// True if the depth bias is set when drawing, not by the pipeline.
    pub depth_bias_dynamic: bool,
}

/// State of the multisampling.
#[derive(Debug, Copy, Clone, PartialEq, Eq, Structural)]
pub struct Multisample {
    /// True if the fragment shader runs once for each sample. Requires the
    /// `sample_rate_shading` feature.
    pub sample_shading: bool,
    /// True if the alpha of each fragment is replaced by one. Requires the
    /// `alpha_to_one` feature.
    pub alpha_to_one: bool,
}

/// Configuration of the depth and stencil tests.
#[derive(Debug, Copy, Clone, PartialEq, Eq, Structural)]
pub struct DepthStencil {
    /// True if fragments are tested against the depth attachment.
    pub depth_test: bool,
    /// True if the depth of fragments that pass is written to the depth
    /// attachment.
    pub depth_write: bool,
    /// True if fragments are tested against depth bounds. Requires the
    /// `depth_bounds` feature.
    pub depth_bounds_test: bool,
    /// True if the depth bounds are set when drawing, not by the pipeline.
    pub depth_bounds_dynamic: bool,
    /// True if fragments are tested against the stencil attachment.
    pub stencil_test: bool,
    /// True if the stencil test writes to the stencil attachment.
    pub stencil_write: bool,
    /// True if the stencil compare mask is set when drawing.
    pub stencil_compare_mask_dynamic: bool,
    /// True if the stencil write mask is set when drawing.
    pub stencil_write_mask_dynamic: bool,
    /// True if the stencil reference is set when drawing.
    pub stencil_reference_dynamic: bool,
    /// True if the two faces agree on which parts of the stencil state are
    /// set when drawing. The faces cannot differ in that.
    pub stencil_faces_consistent: bool,
}

/// Describes how the blending system should behave.
#[derive(Debug, Copy, Clone, PartialEq, Eq, Structural)]
pub enum AttachmentsBlend {
    /// All the framebuffer attachments will use the same blending.
    Collective,
    /// Each attachment will behave differently: there is one blending for
    /// each of `count` attachments. Requires the `independent_blend`
    /// feature.
    Individual { count: u32 },
}

/// Describes how the color output of the fragment shader is written to the
/// attachments.
#[derive(Debug, Copy, Clone, PartialEq, Eq, Structural)]
pub struct Blend {
    /// True if a logical operation is applied in place of blending.
    /// Requires the `logic_op` feature.
    pub logic_op: bool,
    /// How the attachments blend.
    pub attachments: AttachmentsBlend,
    /// True if the blend constants are set when drawing.
    pub blend_constants_dynamic: bool,
}

/// The viewports and scissor boxes of a pipeline.
#[derive(Debug, Copy, Clone, PartialEq, Eq, Structural)]
pub struct Viewports {
    /// The number of viewports, and of scissor boxes.
    pub count: u32,
    /// True if the viewports are set when drawing.
    pub viewports_dynamic: bool,
    /// True if the scissor boxes are set when drawing.
    pub scissors_dynamic: bool,
    /// True if a fixed viewport is larger than `max_width` or `max_height`
    /// allow.
    pub exceeds_max_dimensions: bool,
    /// True if a fixed viewport leaves the range of coordinates that the
    /// device allows.
    pub exceeds_bounds: bool,
}

/// The configuration of a graphics pipeline: the shader stages, the state
/// of the fixed functions, and the subpass that the pipeline renders in.
#[derive(Debug)]
pub struct GraphicsPipelineBuilder {
    /// The descriptors that the shaders access, by set number.
    pub descriptor_requirements: Vec<DescriptorSetDesc>,
    pub vertex_input: VertexInput,
    pub vertex_shader: ShaderStage,
    pub topology: PrimitiveTopology,
    pub primitive_restart: bool,
    pub tessellation: Option<TessellationStages>,
    pub geometry_shader: Option<GeometryStage>,
    pub viewports: Viewports,
    pub raster: Rasterization,
    pub multisample: Multisample,
    pub fragment_shader: Option<ShaderStage>,
    pub depth_stencil: DepthStencil,
    pub blend: Blend,
    pub subpass: Subpass,
}

/// The first of two findings, where the first rule found something, and
/// else what the second rule found.
pub open spec fn first_of(
    first: Option<GraphicsPipelineCreationError>,
    second: Option<GraphicsPipelineCreationError>,
) -> Option<GraphicsPipelineCreationError> {
    if first is Some {
        first
    } else {
        second
    }
}

/// `error` if `violated` holds, and nothing otherwise.
pub open spec fn when(violated: bool, error: GraphicsPipelineCreationError) -> Option<
    GraphicsPipelineCreationError,
> {
    if violated {
        Some(error)
    } else {
        None
    }
}

/// What is wrong between the output of one stage and the input of the
/// next, if anything.
pub open spec fn stage_link_violation(
    output: Seq<ShaderInterfaceEntry>,
    input: Seq<ShaderInterfaceEntry>,
) -> Option<GraphicsPipelineCreationError> {
    match interface_mismatch(output, input) {
        Some(error) => Some(GraphicsPipelineCreationError::ShaderStagesMismatch(error)),
        None => None,
    }
}

impl GraphicsPipelineBuilder {
    /// The interface that reaches the stage after the tessellation stages:
    /// the output of the vertex shader, or of the tessellation evaluation
    /// shader where there is one.
    pub open spec fn after_tessellation(self) -> Seq<ShaderInterfaceEntry> {
        match self.tessellation {
            Some(tess) => tess.evaluation.output@,
            None => self.vertex_shader.output@,
        }
    }

    /// The interface that reaches the fragment shader: the output of the
    /// last stage before it.
    pub open spec fn after_geometry(self) -> Seq<ShaderInterfaceEntry> {
        match self.geometry_shader {
            Some(geometry) => geometry.stage.output@,
            None => self.after_tessellation(),
        }
    }

    /// What is wrong with the interfaces of the stages, if anything: the
    /// vertex input must provide what the vertex shader reads, and each
    /// stage must read what the stage before it hands on.
    pub open spec fn interface_violation(self) -> Option<GraphicsPipelineCreationError> {
        let vertex = match vertex_definition_mismatch(
            self.vertex_input.spec_attributes(),
            self.vertex_shader.input@,
        ) {
            Some(error) => Some(GraphicsPipelineCreationError::IncompatibleVertexDefinition(error)),
            None => None,
        };
        let tessellation = match self.tessellation {
            Some(tess) => first_of(
                stage_link_violation(self.vertex_shader.output@, tess.control.input@),
                stage_link_violation(tess.control.output@, tess.evaluation.input@),
            ),
            None => None,
        };
        let geometry = match self.geometry_shader {
            Some(geometry) => stage_link_violation(self.after_tessellation(), geometry.stage.input@),
            None => None,
        };
        let fragment = match self.fragment_shader {
            Some(fragment) => stage_link_violation(self.after_geometry(), fragment.input@),
            None => None,
        };
        first_of(vertex, first_of(tessellation, first_of(geometry, fragment)))
    }

    /// What the configuration uses of features that are not enabled, if
    /// anything.
    pub open spec fn feature_violation(self, features: Features) -> Option<
        GraphicsPipelineCreationError,
    > {
        first_of(
            when(
                self.raster.wide_lines && !features.wide_lines,
                GraphicsPipelineCreationError::WideLinesFeatureNotEnabled,
            ),
            first_of(
                when(
                    self.raster.depth_clamp && !features.depth_clamp,
                    GraphicsPipelineCreationError::DepthClampFeatureNotEnabled,
                ),
                first_of(
                    when(
                        self.blend.logic_op && !features.logic_op,
                        GraphicsPipelineCreationError::LogicOpFeatureNotEnabled,
                    ),
                    first_of(
                        when(
                            self.blend.attachments is Individual && !features.independent_blend,
                            GraphicsPipelineCreationError::IndependentBlendFeatureNotEnabled,
                        ),
                        first_of(
                            when(
                                self.geometry_shader is Some && !features.geometry_shader,
                                GraphicsPipelineCreationError::GeometryShaderFeatureNotEnabled,
                            ),
                            first_of(
                                when(
                                    self.tessellation is Some && !features.tessellation_shader,
                                    GraphicsPipelineCreationError::TessellationShaderFeatureNotEnabled,
                                ),
                                self.feature_violation_rest(features),
                            ),
                        ),
                    ),
                ),
            ),
        )
    }

    /// The second half of the rules on features.
    pub open spec fn feature_violation_rest(self, features: Features) -> Option<
        GraphicsPipelineCreationError,
    > {
        first_of(
            when(
                self.viewports.count > 1 && !features.multi_viewport,
                GraphicsPipelineCreationError::MultiViewportFeatureNotEnabled,
            ),
            first_of(
                when(
                    self.multisample.alpha_to_one && !features.alpha_to_one,
                    GraphicsPipelineCreationError::AlphaToOneFeatureNotEnabled,
                ),
                first_of(
                    when(
                        self.multisample.sample_shading && !features.sample_rate_shading,
                        GraphicsPipelineCreationError::SampleRateShadingFeatureNotEnabled,
                    ),
                    first_of(
                        when(
                            self.subpass.multiview && self.geometry_shader is Some
                                && !features.multiview_geometry_shader,
                            GraphicsPipelineCreationError::MultiviewGeometryShaderNotSupported,
                        ),
                        first_of(
                            when(
                                self.subpass.multiview && self.tessellation is Some
                                    && !features.multiview_tessellation_shader,
                                GraphicsPipelineCreationError::MultiviewTessellationShaderNotSupported,
                            ),
                            first_of(
                                when(
                                    self.raster.depth_bias_clamp && !features.depth_bias_clamp,
                                    GraphicsPipelineCreationError::DepthBiasClampFeatureNotEnabled,
                                ),
                                first_of(
                                    when(
                                        !(self.raster.polygon_mode is Fill)
                                            && !features.fill_mode_non_solid,
                                        GraphicsPipelineCreationError::FillModeNonSolidFeatureNotEnabled,
                                    ),
                                    first_of(
                                        when(
                                            self.depth_stencil.depth_bounds_test
                                                && !features.depth_bounds,
                                            GraphicsPipelineCreationError::DepthBoundsFeatureNotEnabled,
                                        ),
                                        divisor_feature_violation(
                                            self.vertex_input.spec_bindings(),
                                            features,
                                        ),
                                    ),
                                ),
                            ),
                        ),
                    ),
                ),
            ),
        )
    }

    /// Which limit of the device the configuration exceeds, if any.
    pub open spec fn limit_violation(self, properties: Properties) -> Option<
        GraphicsPipelineCreationError,
    > {
        let bindings = self.vertex_input.spec_bindings();
        let attributes = self.vertex_input.spec_attributes();
        first_of(
            when(
                bindings.len() > properties.max_vertex_input_bindings,
                GraphicsPipelineCreationError::MaxVertexInputBindingsExceeded {
                    max: properties.max_vertex_input_bindings,
                    obtained: bindings.len() as u32,
                },
            ),
            first_of(
                when(
                    attributes.len() > properties.max_vertex_input_attributes,
                    GraphicsPipelineCreationError::MaxVertexInputAttributesExceeded {
                        max: properties.max_vertex_input_attributes,
                        obtained: attributes.len() as usize,
                    },
                ),
                first_of(
                    attribute_offset_violation(
                        attributes,
                        properties.max_vertex_input_attribute_offset,
                    ),
                    first_of(
                        binding_stride_violation(
                            bindings,
                            properties.max_vertex_input_binding_stride,
                        ),
                        first_of(
                            when(
                                self.viewports.count > properties.max_viewports,
                                GraphicsPipelineCreationError::MaxViewportsExceeded {
                                    max: properties.max_viewports,
                                    obtained: self.viewports.count,
                                },
                            ),
                            first_of(
                                divisor_limit_violation(
                                    bindings,
                                    properties.max_vertex_attrib_divisor,
                                ),
                                first_of(
                                    when(
                                        self.viewports.exceeds_max_dimensions,
                                        GraphicsPipelineCreationError::MaxViewportDimensionsExceeded,
                                    ),
                                    when(
                                        self.viewports.exceeds_bounds,
                                        GraphicsPipelineCreationError::ViewportBoundsExceeded,
                                    ),
                                ),
                            ),
                        ),
                    ),
                ),
            ),
        )
    }

    /// Which rule on the topology of the primitives the configuration
    /// breaks, if any.
    pub open spec fn topology_violation(self, properties: Properties) -> Option<
        GraphicsPipelineCreationError,
    > {
        first_of(
            when(
                self.primitive_restart && !self.topology.spec_supports_primitive_restart(),
                GraphicsPipelineCreationError::PrimitiveDoesntSupportPrimitiveRestart {
                    primitive: self.topology,
                },
            ),
            first_of(
                when(
                    self.topology is PatchList != self.tessellation is Some,
                    GraphicsPipelineCreationError::InvalidPrimitiveTopology,
                ),
                first_of(
                    when(
                        self.topology matches PrimitiveTopology::PatchList { vertices_per_patch }
                            && vertices_per_patch > properties.max_tessellation_patch_size,
                        GraphicsPipelineCreationError::MaxTessellationPatchSizeExceeded,
                    ),
                    when(
                        self.geometry_shader matches Some(geometry)
                            && !geometry.primitives.spec_matches(self.topology),
                        GraphicsPipelineCreationError::TopologyNotMatchingGeometryShader,
                    ),
                ),
            ),
        )
    }

    /// What the configuration asks of the attachments of its subpass that
    /// the subpass does not have, if anything.
    pub open spec fn attachment_violation(self) -> Option<GraphicsPipelineCreationError> {
        first_of(
            when(
                (self.depth_stencil.depth_test && !self.subpass.has_depth) || (
                self.depth_stencil.depth_write && !self.subpass.has_writable_depth),
                GraphicsPipelineCreationError::NoDepthAttachment,
            ),
            first_of(
                when(
                    !self.depth_stencil.stencil_faces_consistent,
                    GraphicsPipelineCreationError::WrongStencilState,
                ),
                first_of(
                    when(
                        (self.depth_stencil.stencil_test && !self.subpass.has_stencil) || (
                        self.depth_stencil.stencil_write && !self.subpass.has_writable_stencil),
                        GraphicsPipelineCreationError::NoStencilAttachment,
                    ),
                    when(
                        self.blend.attachments matches AttachmentsBlend::Individual { count }
                            && count != self.subpass.num_color_attachments,
                        GraphicsPipelineCreationError::MismatchBlendingAttachmentsCount,
                    ),
                ),
            ),
        )
    }

    /// The first rule that the configuration breaks on a device with the
    /// given features and limits, if it breaks one.
    ///
    /// The rules are taken in this order: the interfaces between the
    /// stages, the features that must be enabled, the limits of the device,
    /// the topology of the primitives, and the attachments of the subpass.
    pub open spec fn first_violation(self, features: Features, properties: Properties) -> Option<
        GraphicsPipelineCreationError,
    > {
        first_of(
            self.interface_violation(),
            first_of(
                self.feature_violation(features),
                first_of(
                    self.limit_violation(properties),
                    first_of(self.topology_violation(properties), self.attachment_violation()),
                ),
            ),
        )
    }
}

/// What the first binding says that uses an instance rate divisor for which
/// no feature is enabled, if there is one: a divisor other than 1 needs the
/// feature for divisors, and a divisor of 0 the one for zero divisors too.
pub open spec fn divisor_feature_violation(bindings: Seq<VertexInputBinding>, features: Features) -> Option<
    GraphicsPipelineCreationError,
>
    decreases bindings.len(),
{
    if bindings.len() == 0 {
        None
    } else {
        first_of(
            divisor_feature_violation(bindings.drop_last(), features),
            binding_divisor_feature_violation(bindings.last(), features),
        )
    }
}

/// What one binding uses of instance rate divisors for which no feature is
/// enabled, if anything.
pub open spec fn binding_divisor_feature_violation(binding: VertexInputBinding, features: Features) -> Option<
    GraphicsPipelineCreationError,
> {
    match binding.input_rate {
        VertexInputRate::Instance { divisor } => first_of(
            when(
                divisor != 1 && !features.vertex_attribute_instance_rate_divisor,
                GraphicsPipelineCreationError::VertexAttributeInstanceRateDivisorFeatureNotEnabled,
            ),
            when(
                divisor == 0 && !features.vertex_attribute_instance_rate_zero_divisor,
                GraphicsPipelineCreationError::VertexAttributeInstanceRateZeroDivisorFeatureNotEnabled,
            ),
        ),
        VertexInputRate::Vertex => None,
    }
}

/// The first attribute whose offset is beyond `max`, if there is one.
pub open spec fn attribute_offset_violation(attributes: Seq<VertexInputAttribute>, max: u32) -> Option<
    GraphicsPipelineCreationError,
>
    decreases attributes.len(),
{
    if attributes.len() == 0 {
        None
    } else {
        first_of(
            attribute_offset_violation(attributes.drop_last(), max),
            when(
                attributes.last().offset > max,
                GraphicsPipelineCreationError::MaxVertexInputAttributeOffsetExceeded {
                    max,
                    obtained: attributes.last().offset,
                },
            ),
        )
    }
}

/// The first binding whose stride is beyond `max`, if there is one.
pub open spec fn binding_stride_violation(bindings: Seq<VertexInputBinding>, max: u32) -> Option<
    GraphicsPipelineCreationError,
>
    decreases bindings.len(),
{
    if bindings.len() == 0 {
        None
    } else {
        first_of(
            binding_stride_violation(bindings.drop_last(), max),
            when(
                bindings.last().stride > max,
                GraphicsPipelineCreationError::MaxVertexInputBindingStrideExceeded {
                    binding: bindings.last().binding,
                    max,
                    obtained: bindings.last().stride,
                },
            ),
        )
    }
}

/// The first binding whose instance rate divisor is beyond the limit of
/// the device, if the device has such a limit and there is such a binding.
pub open spec fn divisor_limit_violation(bindings: Seq<VertexInputBinding>, max: Option<u32>) -> Option<
    GraphicsPipelineCreationError,
>
    decreases bindings.len(),
{
    if bindings.len() == 0 {
        None
    } else {
        first_of(
            divisor_limit_violation(bindings.drop_last(), max),
            when(
                max matches Some(limit) && bindings.last().input_rate matches VertexInputRate::Instance {
                    divisor,
                } && divisor > limit,
                GraphicsPipelineCreationError::MaxVertexAttribDivisorExceeded {
                    binding: bindings.last().binding,
                    max: max->0,
                    obtained: bindings.last().input_rate->divisor,
                },
            ),
        )
    }
}

/// What the rules find in the first bindings is what they find in all of
/// them, once they find something.
proof fn lemma_divisor_feature_prefix(bindings: Seq<VertexInputBinding>, features: Features, n: int)
    requires
        0 <= n <= bindings.len(),
        divisor_feature_violation(bindings.take(n), features) is Some,
    ensures
        divisor_feature_violation(bindings, features) == divisor_feature_violation(
            bindings.take(n),
            features,
        ),
    decreases bindings.len() - n,
{
    if n == bindings.len() {
        assert(bindings.take(n) =~= bindings);
    } else {
        assert(bindings.take(n + 1).drop_last() =~= bindings.take(n));
        lemma_divisor_feature_prefix(bindings, features, n + 1);
    }
}

/// An offset beyond the limit among the first attributes is the one that is
/// found among all of them.
proof fn lemma_attribute_offset_prefix(attributes: Seq<VertexInputAttribute>, max: u32, n: int)
    requires
        0 <= n <= attributes.len(),
        attribute_offset_violation(attributes.take(n), max) is Some,
    ensures
        attribute_offset_violation(attributes, max) == attribute_offset_violation(
            attributes.take(n),
            max,
        ),
    decreases attributes.len() - n,
{
    if n == attributes.len() {
        assert(attributes.take(n) =~= attributes);
    } else {
        assert(attributes.take(n + 1).drop_last() =~= attributes.take(n));
        lemma_attribute_offset_prefix(attributes, max, n + 1);
    }
}

/// A stride beyond the limit among the first bindings is the one that is
/// found among all of them.
proof fn lemma_binding_stride_prefix(bindings: Seq<VertexInputBinding>, max: u32, n: int)
    requires
        0 <= n <= bindings.len(),
        binding_stride_violation(bindings.take(n), max) is Some,
    ensures
        binding_stride_violation(bindings, max) == binding_stride_violation(bindings.take(n), max),
    decreases bindings.len() - n,
{
    if n == bindings.len() {
        assert(bindings.take(n) =~= bindings);
    } else {
        assert(bindings.take(n + 1).drop_last() =~= bindings.take(n));
        lemma_binding_stride_prefix(bindings, max, n + 1);
    }
}

/// A divisor beyond the limit among the first bindings is the one that is
/// found among all of them.
proof fn lemma_divisor_limit_prefix(bindings: Seq<VertexInputBinding>, max: Option<u32>, n: int)
    requires
        0 <= n <= bindings.len(),
        divisor_limit_violation(bindings.take(n), max) is Some,
    ensures
        divisor_limit_violation(bindings, max) == divisor_limit_violation(bindings.take(n), max),
    decreases bindings.len() - n,
{
    if n == bindings.len() {
        assert(bindings.take(n) =~= bindings);
    } else {
        assert(bindings.take(n + 1).drop_last() =~= bindings.take(n));
        lemma_divisor_limit_prefix(bindings, max, n + 1);
    }
}

/// Looks for the first binding that uses an instance rate divisor for which
/// no feature is enabled.
fn check_divisor_features(bindings: &Vec<VertexInputBinding>, features: &Features) -> (r: Option<
    GraphicsPipelineCreationError,
>)
    ensures
        r == divisor_feature_violation(bindings@, *features),
{
    let mut i: usize = 0;
    while i < bindings.len()
        invariant
            i <= bindings.len(),
            divisor_feature_violation(bindings@.take(i as int), *features) is None,
        decreases bindings.len() - i,
    {
        proof {
            assert(bindings@.take(i as int + 1).drop_last() =~= bindings@.take(i as int));
            assert(bindings@.take(i as int + 1).last() == bindings@[i as int]);
        }
        let found = match bindings[i].input_rate {
            VertexInputRate::Instance { divisor } => {
                if divisor != 1 && !features.vertex_attribute_instance_rate_divisor {
                    Some(
                        GraphicsPipelineCreationError::VertexAttributeInstanceRateDivisorFeatureNotEnabled,
                    )
                } else if divisor == 0 && !features.vertex_attribute_instance_rate_zero_divisor {
                    Some(
                        GraphicsPipelineCreationError::VertexAttributeInstanceRateZeroDivisorFeatureNotEnabled,
                    )
                } else {
                    None
                }
            },
            VertexInputRate::Vertex => None,
        };
        if found.is_some() {
            proof {
                lemma_divisor_feature_prefix(bindings@, *features, i as int + 1);
            }
            return found;
        }
        i += 1;
    }
    assert(bindings@.take(i as int) =~= bindings@);
    None
}

/// Looks for the first attribute whose offset is beyond the limit.
fn check_attribute_offsets(attributes: &Vec<VertexInputAttribute>, max: u32) -> (r: Option<
    GraphicsPipelineCreationError,
>)
    ensures
        r == attribute_offset_violation(attributes@, max),
{
    let mut i: usize = 0;
    while i < attributes.len()
        invariant
            i <= attributes.len(),
            attribute_offset_violation(attributes@.take(i as int), max) is None,
        decreases attributes.len() - i,
    {
        proof {
            assert(attributes@.take(i as int + 1).drop_last() =~= attributes@.take(i as int));
            assert(attributes@.take(i as int + 1).last() == attributes@[i as int]);
        }
        if attributes[i].offset > max {
            proof {
                lemma_attribute_offset_prefix(attributes@, max, i as int + 1);
            }
            return Some(
                GraphicsPipelineCreationError::MaxVertexInputAttributeOffsetExceeded {
                    max,
                    obtained: attributes[i].offset,
                },
            );
        }
        i += 1;
    }
    assert(attributes@.take(i as int) =~= attributes@);
    None
}

/// Looks for the first binding whose stride is beyond the limit.
fn check_binding_strides(bindings: &Vec<VertexInputBinding>, max: u32) -> (r: Option<
    GraphicsPipelineCreationError,
>)
    ensures
        r == binding_stride_violation(bindings@, max),
{
    let mut i: usize = 0;
    while i < bindings.len()
        invariant
            i <= bindings.len(),
            binding_stride_violation(bindings@.take(i as int), max) is None,
        decreases bindings.len() - i,
    {
        proof {
            assert(bindings@.take(i as int + 1).drop_last() =~= bindings@.take(i as int));
            assert(bindings@.take(i as int + 1).last() == bindings@[i as int]);
        }
        if bindings[i].stride > max {
            proof {
                lemma_binding_stride_prefix(bindings@, max, i as int + 1);
            }
            return Some(
                GraphicsPipelineCreationError::MaxVertexInputBindingStrideExceeded {
                    binding: bindings[i].binding,
                    max,
                    obtained: bindings[i].stride,
                },
            );
        }
        i += 1;
    }
    assert(bindings@.take(i as int) =~= bindings@);
    None
}

/// Looks for the first binding whose instance rate divisor is beyond the
/// limit.
fn check_divisor_limits(bindings: &Vec<VertexInputBinding>, max: Option<u32>) -> (r: Option<
    GraphicsPipelineCreationError,
>)
    ensures
        r == divisor_limit_violation(bindings@, max),
{
    let mut i: usize = 0;
    while i < bindings.len()
        invariant
            i <= bindings.len(),
            divisor_limit_violation(bindings@.take(i as int), max) is None,
        decreases bindings.len() - i,
    {
        proof {
            assert(bindings@.take(i as int + 1).drop_last() =~= bindings@.take(i as int));
            assert(bindings@.take(i as int + 1).last() == bindings@[i as int]);
        }
        if let Some(limit) = max {
            if let VertexInputRate::Instance { divisor } = bindings[i].input_rate {
                if divisor > limit {
                    proof {
                        lemma_divisor_limit_prefix(bindings@, max, i as int + 1);
                    }
                    return Some(
                        GraphicsPipelineCreationError::MaxVertexAttribDivisorExceeded {
                            binding: bindings[i].binding,
                            max: limit,
                            obtained: divisor,
                        },
                    );
                }
            }
        }
        i += 1;
    }
    assert(bindings@.take(i as int) =~= bindings@);
    None
}

/// Holds the output of one stage against the input of the next.
fn check_stage_link(output: &ShaderInterface, input: &ShaderInterface) -> (r: Option<
    GraphicsPipelineCreationError,
>)
    ensures
        r == stage_link_violation(output@, input@),
{
    match output.matches(input) {
        Ok(()) => None,
        Err(error) => Some(GraphicsPipelineCreationError::ShaderStagesMismatch(error)),
    }
}

impl GraphicsPipelineBuilder {
    /// Starts the configuration of a pipeline with the given vertex shader
    /// that renders in `subpass`.
    ///
    /// The shaders access no descriptor. The pipeline takes no vertex
    /// input, draws lists of triangles into
    /// one fixed viewport, fills its polygons with lines of one pixel, and
    /// neither tests nor writes depth and stencil. All attachments blend in
    /// the same way, and nothing is set when drawing.
    pub fn new(vertex_shader: ShaderStage, subpass: Subpass) -> (r: GraphicsPipelineBuilder)
        ensures
            r.vertex_shader == vertex_shader,
            r.subpass == subpass,
            r.descriptor_requirements@ == Seq::<DescriptorSetDesc>::empty(),
            r.vertex_input.spec_bindings() == Seq::<VertexInputBinding>::empty(),
            r.vertex_input.spec_attributes() == Seq::<VertexInputAttribute>::empty(),
            r.topology == PrimitiveTopology::TriangleList,
            !r.primitive_restart,
            r.tessellation is None,
            r.geometry_shader is None,
            r.fragment_shader is None,
            r.viewports == (Viewports {
                count: 1,
                viewports_dynamic: false,
                scissors_dynamic: false,
                exceeds_max_dimensions: false,
                exceeds_bounds: false,
            }),
            r.raster == (Rasterization {
                depth_clamp: false,
                polygon_mode: PolygonMode::Fill,
                wide_lines: false,
                line_width_dynamic: false,
                depth_bias_clamp: false,
                depth_bias_dynamic: false,
            }),
            r.multisample == (Multisample { sample_shading: false, alpha_to_one: false }),
            r.depth_stencil == (DepthStencil {
                depth_test: false,
                depth_write: false,
                depth_bounds_test: false,
                depth_bounds_dynamic: false,
                stencil_test: false,
                stencil_write: false,
                stencil_compare_mask_dynamic: false,
                stencil_write_mask_dynamic: false,
                stencil_reference_dynamic: false,
                stencil_faces_consistent: true,
            }),
            r.blend == (Blend {
                logic_op: false,
                attachments: AttachmentsBlend::Collective,
                blend_constants_dynamic: false,
            }),
    {
        GraphicsPipelineBuilder {
            descriptor_requirements: Vec::new(),
            vertex_input: VertexInput::empty(),
            vertex_shader,
            topology: PrimitiveTopology::TriangleList,
            primitive_restart: false,
            tessellation: None,
            geometry_shader: None,
            viewports: Viewports {
                count: 1,
                viewports_dynamic: false,
                scissors_dynamic: false,
                exceeds_max_dimensions: false,
                exceeds_bounds: false,
            },
            raster: Rasterization {
                depth_clamp: false,
                polygon_mode: PolygonMode::Fill,
                wide_lines: false,
                line_width_dynamic: false,
                depth_bias_clamp: false,
                depth_bias_dynamic: false,
            },
            multisample: Multisample { sample_shading: false, alpha_to_one: false },
            fragment_shader: None,
            depth_stencil: DepthStencil {
                depth_test: false,
                depth_write: false,
                depth_bounds_test: false,
                depth_bounds_dynamic: false,
                stencil_test: false,
                stencil_write: false,
                stencil_compare_mask_dynamic: false,
                stencil_write_mask_dynamic: false,
                stencil_reference_dynamic: false,
                stencil_faces_consistent: true,
            },
            blend: Blend {
                logic_op: false,
                attachments: AttachmentsBlend::Collective,
                blend_constants_dynamic: false,
            },
            subpass,
        }
    }

    /// Sets the vertex input.
    #[inline]
    pub fn vertex_input(self, vertex_input: VertexInput) -> (r: GraphicsPipelineBuilder)
        ensures
            r == (GraphicsPipelineBuilder { vertex_input, ..self }),
    {
        GraphicsPipelineBuilder { vertex_input, ..self }
    }

    /// Sets the descriptors that the shaders access, by set number.
    #[inline]
    pub fn descriptor_requirements(self, descriptor_requirements: Vec<DescriptorSetDesc>) -> (r:
        GraphicsPipelineBuilder)
        ensures
            r == (GraphicsPipelineBuilder { descriptor_requirements, ..self }),
    {
        GraphicsPipelineBuilder { descriptor_requirements, ..self }
    }

    /// Sets the topology of the primitives that are expected by the
    /// pipeline.
    #[inline]
    pub fn primitive_topology(self, topology: PrimitiveTopology) -> (r: GraphicsPipelineBuilder)
        ensures
            r == (GraphicsPipelineBuilder { topology, ..self }),
    {
        GraphicsPipelineBuilder { topology, ..self }
    }

    /// Sets whether primitive restart is enabled: a special value of the
    /// index type then starts a new primitive.
    #[inline]
    pub fn primitive_restart(self, enabled: bool) -> (r: GraphicsPipelineBuilder)
        ensures
            r == (GraphicsPipelineBuilder { primitive_restart: enabled, ..self }),
    {
        GraphicsPipelineBuilder { primitive_restart: enabled, ..self }
    }

    /// Sets the tessellation shaders to use.
    #[inline]
    pub fn tessellation_shaders(self, control: ShaderStage, evaluation: ShaderStage) -> (r:
        GraphicsPipelineBuilder)
        ensures
            r == (GraphicsPipelineBuilder {
                tessellation: Some(TessellationStages { control, evaluation }),
                ..self
            }),
    {
        GraphicsPipelineBuilder {
            tessellation: Some(TessellationStages { control, evaluation }),
            ..self
        }
    }

    /// Sets the geometry shader to use.
    #[inline]
    pub fn geometry_shader(self, stage: ShaderStage, primitives: GeometryShaderExecutionMode) -> (r:
        GraphicsPipelineBuilder)
        ensures
            r == (GraphicsPipelineBuilder {
                geometry_shader: Some(GeometryStage { stage, primitives }),
                ..self
            }),
    {
        GraphicsPipelineBuilder { geometry_shader: Some(GeometryStage { stage, primitives }), ..self }
    }

    /// Sets the fragment shader to use.
    #[inline]
    pub fn fragment_shader(self, stage: ShaderStage) -> (r: GraphicsPipelineBuilder)
        ensures
            r == (GraphicsPipelineBuilder { fragment_shader: Some(stage), ..self }),
    {
        GraphicsPipelineBuilder { fragment_shader: Some(stage), ..self }
    }

    /// Sets the viewports and scissor boxes.
    #[inline]
    pub fn viewports(self, viewports: Viewports) -> (r: GraphicsPipelineBuilder)
        ensures
            r == (GraphicsPipelineBuilder { viewports, ..self }),
    {
        GraphicsPipelineBuilder { viewports, ..self }
    }

    /// Sets the state of the rasterizer.
    #[inline]
    pub fn rasterization(self, raster: Rasterization) -> (r: GraphicsPipelineBuilder)
        ensures
            r == (GraphicsPipelineBuilder { raster, ..self }),
    {
        GraphicsPipelineBuilder { raster, ..self }
    }

    /// Sets the state of the multisampling.
    #[inline]
    pub fn multisample(self, multisample: Multisample) -> (r: GraphicsPipelineBuilder)
        ensures
            r == (GraphicsPipelineBuilder { multisample, ..self }),
    {
        GraphicsPipelineBuilder { multisample, ..self }
    }

    /// Sets the depth and stencil tests.
    #[inline]
    pub fn depth_stencil(self, depth_stencil: DepthStencil) -> (r: GraphicsPipelineBuilder)
        ensures
            r == (GraphicsPipelineBuilder { depth_stencil, ..self }),
    {
        GraphicsPipelineBuilder { depth_stencil, ..self }
    }

    /// Sets how the output of the fragment shader is written to the
    /// attachments.
    #[inline]
    pub fn blend(self, blend: Blend) -> (r: GraphicsPipelineBuilder)
        ensures
            r == (GraphicsPipelineBuilder { blend, ..self }),
    {
        GraphicsPipelineBuilder { blend, ..self }
    }

    /// Sets the subpass that the pipeline renders in.
    #[inline]
    pub fn render_pass(self, subpass: Subpass) -> (r: GraphicsPipelineBuilder)
        ensures
            r == (GraphicsPipelineBuilder { subpass, ..self }),
    {
        GraphicsPipelineBuilder { subpass, ..self }
    }

    /// Holds the interfaces of the stages against each other.
    fn check_interfaces(&self) -> (r: Option<GraphicsPipelineCreationError>)
        ensures
            r == self.interface_violation(),
    {
        match self.vertex_input.check_shader_input(&self.vertex_shader.input) {
            Err(error) => {
                return Some(GraphicsPipelineCreationError::IncompatibleVertexDefinition(error));
            },
            Ok(()) => {},
        }
        let mut last: &ShaderInterface = &self.vertex_shader.output;
        if let Some(tess) = &self.tessellation {
            let found = check_stage_link(last, &tess.control.input);
            if found.is_some() {
                return found;
            }
            let found = check_stage_link(&tess.control.output, &tess.evaluation.input);
            if found.is_some() {
                return found;
            }
            last = &tess.evaluation.output;
        }
        if let Some(geometry) = &self.geometry_shader {
            let found = check_stage_link(last, &geometry.stage.input);
            if found.is_some() {
                return found;
            }
            last = &geometry.stage.output;
        }
        if let Some(fragment) = &self.fragment_shader {
            let found = check_stage_link(last, &fragment.input);
            if found.is_some() {
                return found;
            }
        }
        None
    }

    /// Looks for a feature that the configuration uses and that is not
    /// enabled.
    fn check_features(&self, features: &Features) -> (r: Option<GraphicsPipelineCreationError>)
        ensures
            r == self.feature_violation(*features),
    {
        if self.raster.wide_lines && !features.wide_lines {
            return Some(GraphicsPipelineCreationError::WideLinesFeatureNotEnabled);
        }
        if self.raster.depth_clamp && !features.depth_clamp {
            return Some(GraphicsPipelineCreationError::DepthClampFeatureNotEnabled);
        }
        if self.blend.logic_op && !features.logic_op {
            return Some(GraphicsPipelineCreationError::LogicOpFeatureNotEnabled);
        }
        let individual = match self.blend.attachments {
            AttachmentsBlend::Individual { .. } => true,
            AttachmentsBlend::Collective => false,
        };
        if individual && !features.independent_blend {
            return Some(GraphicsPipelineCreationError::IndependentBlendFeatureNotEnabled);
        }
        if self.geometry_shader.is_some() && !features.geometry_shader {
            return Some(GraphicsPipelineCreationError::GeometryShaderFeatureNotEnabled);
        }
        if self.tessellation.is_some() && !features.tessellation_shader {
            return Some(GraphicsPipelineCreationError::TessellationShaderFeatureNotEnabled);
        }
        if self.viewports.count > 1 && !features.multi_viewport {
            return Some(GraphicsPipelineCreationError::MultiViewportFeatureNotEnabled);
        }
        if self.multisample.alpha_to_one && !features.alpha_to_one {
            return Some(GraphicsPipelineCreationError::AlphaToOneFeatureNotEnabled);
        }
        if self.multisample.sample_shading && !features.sample_rate_shading {
            return Some(GraphicsPipelineCreationError::SampleRateShadingFeatureNotEnabled);
        }
        if self.subpass.multiview {
            if self.geometry_shader.is_some() && !features.multiview_geometry_shader {
                return Some(GraphicsPipelineCreationError::MultiviewGeometryShaderNotSupported);
            }
            if self.tessellation.is_some() && !features.multiview_tessellation_shader {
                return Some(
                    GraphicsPipelineCreationError::MultiviewTessellationShaderNotSupported,
                );
            }
        }
        if self.raster.depth_bias_clamp && !features.depth_bias_clamp {
            return Some(GraphicsPipelineCreationError::DepthBiasClampFeatureNotEnabled);
        }
        let fill = match self.raster.polygon_mode {
            PolygonMode::Fill => true,
            _ => false,
        };
        if !fill && !features.fill_mode_non_solid {
            return Some(GraphicsPipelineCreationError::FillModeNonSolidFeatureNotEnabled);
        }
        if self.depth_stencil.depth_bounds_test && !features.depth_bounds {
            return Some(GraphicsPipelineCreationError::DepthBoundsFeatureNotEnabled);
        }
        check_divisor_features(self.vertex_input.bindings(), features)
    }

    /// Looks for a limit of the device that the configuration exceeds.
    fn check_limits(&self, properties: &Properties) -> (r: Option<GraphicsPipelineCreationError>)
        ensures
            r == self.limit_violation(*properties),
    {
        let bindings = self.vertex_input.bindings();
        let attributes = self.vertex_input.attributes();
        if bindings.len() > properties.max_vertex_input_bindings as usize {
            return Some(
                GraphicsPipelineCreationError::MaxVertexInputBindingsExceeded {
                    max: properties.max_vertex_input_bindings,
                    obtained: truncate_count(bindings.len()),
                },
            );
        }
        if attributes.len() > properties.max_vertex_input_attributes as usize {
            return Some(
                GraphicsPipelineCreationError::MaxVertexInputAttributesExceeded {
                    max: properties.max_vertex_input_attributes,
                    obtained: attributes.len(),
                },
            );
        }
        let found = check_attribute_offsets(attributes, properties.max_vertex_input_attribute_offset);
        if found.is_some() {
            return found;
        }
        let found = check_binding_strides(bindings, properties.max_vertex_input_binding_stride);
        if found.is_some() {
            return found;
        }
        if self.viewports.count > properties.max_viewports {
            return Some(
                GraphicsPipelineCreationError::MaxViewportsExceeded {
                    max: properties.max_viewports,
                    obtained: self.viewports.count,
                },
            );
        }
        let found = check_divisor_limits(bindings, properties.max_vertex_attrib_divisor);
        if found.is_some() {
            return found;
        }
        if self.viewports.exceeds_max_dimensions {
            return Some(GraphicsPipelineCreationError::MaxViewportDimensionsExceeded);
        }
        if self.viewports.exceeds_bounds {
            return Some(GraphicsPipelineCreationError::ViewportBoundsExceeded);
        }
        None
    }

    /// Holds the configuration to the rules on the topology of the
    /// primitives.
    fn check_topology(&self, properties: &Properties) -> (r: Option<GraphicsPipelineCreationError>)
        ensures
            r == self.topology_violation(*properties),
    {
        if self.primitive_restart && !self.topology.supports_primitive_restart() {
            return Some(
                GraphicsPipelineCreationError::PrimitiveDoesntSupportPrimitiveRestart {
                    primitive: self.topology,
                },
            );
        }
        match self.topology {
            PrimitiveTopology::PatchList { vertices_per_patch } => {
                if self.tessellation.is_none() {
                    return Some(GraphicsPipelineCreationError::InvalidPrimitiveTopology);
                }
                if vertices_per_patch > properties.max_tessellation_patch_size {
                    return Some(GraphicsPipelineCreationError::MaxTessellationPatchSizeExceeded);
                }
            },
            _ => {
                if self.tessellation.is_some() {
                    return Some(GraphicsPipelineCreationError::InvalidPrimitiveTopology);
                }
            },
        }
        if let Some(geometry) = &self.geometry_shader {
            if !geometry.primitives.matches(self.topology) {
                return Some(GraphicsPipelineCreationError::TopologyNotMatchingGeometryShader);
            }
        }
        None
    }

    /// Holds the configuration against the attachments of its subpass.
    fn check_attachments(&self) -> (r: Option<GraphicsPipelineCreationError>)
        ensures
            r == self.attachment_violation(),
    {
        if self.depth_stencil.depth_test && !self.subpass.has_depth() {
            return Some(GraphicsPipelineCreationError::NoDepthAttachment);
        }
        if self.depth_stencil.depth_write && !self.subpass.has_writable_depth() {
            return Some(GraphicsPipelineCreationError::NoDepthAttachment);
        }
        if !self.depth_stencil.stencil_faces_consistent {
            return Some(GraphicsPipelineCreationError::WrongStencilState);
        }
        if self.depth_stencil.stencil_test && !self.subpass.has_stencil() {
            return Some(GraphicsPipelineCreationError::NoStencilAttachment);
        }
        if self.depth_stencil.stencil_write && !self.subpass.has_writable_stencil() {
            return Some(GraphicsPipelineCreationError::NoStencilAttachment);
        }
        if let AttachmentsBlend::Individual { count } = self.blend.attachments {
            if count != self.subpass.num_color_attachments() {
                return Some(GraphicsPipelineCreationError::MismatchBlendingAttachmentsCount);
            }
        }
        None
    }

    /// Holds the configuration to the rules for a device with the given
    /// features and limits.
    ///
    /// Returns `Ok` if the configuration breaks no rule, and the first rule
    /// that it breaks otherwise.
    pub fn validate(&self, features: &Features, properties: &Properties) -> (r: Result<
        (),
        GraphicsPipelineCreationError,
    >)
        ensures
            r == match self.first_violation(*features, *properties) {
                Some(error) => Err::<(), GraphicsPipelineCreationError>(error),
                None => Ok(()),
            },
    {
        if let Some(error) = self.check_interfaces() {
            return Err(error);
        }
        if let Some(error) = self.check_features(features) {
            return Err(error);
        }
        if let Some(error) = self.check_limits(properties) {
            return Err(error);
        }
        if let Some(error) = self.check_topology(properties) {
            return Err(error);
        }
        if let Some(error) = self.check_attachments() {
            return Err(error);
        }
        Ok(())
    }
}

/// Wide lines need the `wide_lines` feature, and nothing else: a
/// configuration that asks for wide lines and breaks no rule on a device
/// with the feature is refused with `WideLinesFeatureNotEnabled` on a
/// device that differs in nothing but the feature.
pub proof fn lemma_wide_lines_need_the_feature(
    config: GraphicsPipelineBuilder,
    features: Features,
    properties: Properties,
)
    requires
        config.raster.wide_lines,
        config.first_violation(Features { wide_lines: true, ..features }, properties) is None,
    ensures
        config.first_violation(Features { wide_lines: false, ..features }, properties) == Some(
            GraphicsPipelineCreationError::WideLinesFeatureNotEnabled,
        ),
{
}

/// A configuration that asks for wide lines is refused on every device
/// without the `wide_lines` feature, whatever else it asks for.
pub proof fn lemma_wide_lines_are_refused_without_the_feature(
    config: GraphicsPipelineBuilder,
    features: Features,
    properties: Properties,
)
    requires
        config.raster.wide_lines,
        !features.wide_lines,
    ensures
        config.first_violation(features, properties) is Some,
{
}

} // verus!
