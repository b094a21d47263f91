//! The one render pipeline: how vertices are shaded, rasterized and blended.
//!
//! Everything but the shaders, the bind-group layout and the two buffer
//! layouts is fixed. The description does not depend on the window size, so
//! a resize never invalidates it.

use crate::error::InitError;
use crate::layout::VertexBufferLayout;
use crate::shader::{blob_order, blob_words, shader_words};
use crate::surface::{surface_format, SwapSurface, TextureFormat};
use crate::uniforms::BindGroupLayoutEntry;
use vstd::prelude::*;

verus! {

/// How vertices are assembled into primitives.
#[derive(Clone, Copy, Debug, PartialEq, Eq, Structural)]
pub enum PrimitiveTopology {
    PointList,
    LineList,
    LineStrip,
    TriangleList,
    TriangleStrip,
}

/// Which winding faces the viewer.
#[derive(Clone, Copy, Debug, PartialEq, Eq, Structural)]
pub enum FrontFace {
    Ccw,
    Cw,
}

/// Which faces are dropped.
#[derive(Clone, Copy, Debug, PartialEq, Eq, Structural)]
pub enum CullMode {
    Off,
    Front,
    Back,
}

/// Width of one index.
#[derive(Clone, Copy, Debug, PartialEq, Eq, Structural)]
pub enum IndexFormat {
    Uint16,
    Uint32,
}

/// A factor of the blend equation.
#[derive(Clone, Copy, Debug, PartialEq, Eq, Structural)]
pub enum BlendFactor {
    Zero,
    One,
    SrcAlpha,
    OneMinusSrcAlpha,
}

/// The operation of the blend equation.
#[derive(Clone, Copy, Debug, PartialEq, Eq, Structural)]
pub enum BlendOperation {
    Add,
    Subtract,
    ReverseSubtract,
    Min,
    Max,
}

/// One blend equation.
#[derive(Clone, Copy, Debug, PartialEq, Eq, Structural)]
pub struct BlendDescriptor {
    pub src_factor: BlendFactor,
    pub dst_factor: BlendFactor,
    pub operation: BlendOperation,
}

impl BlendDescriptor {
    /// The equation that overwrites the target with the source.
    pub open spec fn replace() -> BlendDescriptor {
        BlendDescriptor {
            src_factor: BlendFactor::One,
            dst_factor: BlendFactor::Zero,
            operation: BlendOperation::Add,
        }
    }
}

/// How fragments reach the colour target.
#[derive(Clone, Copy, Debug, PartialEq, Eq, Structural)]
pub struct ColorState {
    pub format: TextureFormat,
    pub color_blend: BlendDescriptor,
    pub alpha_blend: BlendDescriptor,
    /// Whether all four channels are written.
    pub write_all: bool,
}

/// How primitives are rasterized. The two depth-bias factors are
/// single-precision bit patterns.
#[derive(Clone, Copy, Debug, PartialEq, Eq, Structural)]
pub struct RasterizationState {
    pub front_face: FrontFace,
    pub cull_mode: CullMode,
    pub depth_bias: i32,
    pub depth_bias_slope_scale: u32,
    pub depth_bias_clamp: u32,
}

/// The settings that every pipeline of this renderer has.
#[derive(Clone, Copy, Debug, PartialEq, Eq, Structural)]
pub struct FixedState {
    pub primitive_topology: PrimitiveTopology,
    pub rasterization: RasterizationState,
    pub color: ColorState,
    pub depth_stencil: bool,
    pub index_format: IndexFormat,
    pub sample_count: u32,
    pub sample_mask: u32,
    pub alpha_to_coverage_enabled: bool,
}

impl FixedState {
    /// Triangle lists, counter-clockwise front faces, no culling, no depth
    /// or stencil test, one sample per pixel, opaque blending into a BGRA8
    /// sRGB target, 16-bit indices.
    pub open spec fn standard() -> FixedState {
        FixedState {
            primitive_topology: PrimitiveTopology::TriangleList,
            rasterization: RasterizationState {
                front_face: FrontFace::Ccw,
                cull_mode: CullMode::Off,
                depth_bias: 0,
                depth_bias_slope_scale: 0,
                depth_bias_clamp: 0,
            },
            color: ColorState {
                format: surface_format(),
                color_blend: BlendDescriptor::replace(),
                alpha_blend: BlendDescriptor::replace(),
                write_all: true,
            },
            depth_stencil: false,
            index_format: IndexFormat::Uint16,
            sample_count: 1,
            sample_mask: 0xFFFF_FFFF,
            alpha_to_coverage_enabled: false,
        }
    }
}

/// The render pipeline as a value.
pub struct PipelineModel {
    /// Words of the vertex shader module.
    pub vertex_shader: Seq<u32>,
    /// Words of the fragment shader module.
    pub fragment_shader: Seq<u32>,
    pub bind_group_layout: Seq<BindGroupLayoutEntry>,
    /// The vertex buffers by slot: the mesh at 0, the instances at 1.
    pub vertex_buffers: Seq<VertexBufferLayout>,
    pub fixed: FixedState,
}

/// The description of the render pipeline. Once built it is only read.
#[derive(Debug, PartialEq, Eq)]
pub struct PipelineDescriptor {
    vertex_shader: Vec<u32>,
    fragment_shader: Vec<u32>,
    bind_group_layout: Vec<BindGroupLayoutEntry>,
    vertex_buffers: Vec<VertexBufferLayout>,
    fixed: FixedState,
}

impl View for PipelineDescriptor {
    type V = PipelineModel;

    closed spec fn view(&self) -> PipelineModel {
        PipelineModel {
            vertex_shader: self.vertex_shader@,
            fragment_shader: self.fragment_shader@,
            bind_group_layout: self.bind_group_layout@,
            vertex_buffers: self.vertex_buffers@,
            fixed: self.fixed,
        }
    }
}

impl PipelineDescriptor {
    /// Whether the pipeline can draw into `surface`: only the colour format
    /// has to agree.
    pub open spec fn spec_compatible_with(&self, surface: SwapSurface) -> bool {
        self@.fixed.color.format == surface.format
    }

    /// Whether the pipeline can draw into `surface`: only the colour format
    /// has to agree.
    #[verifier::when_used_as_spec(spec_compatible_with)]
    pub fn compatible_with(&self, surface: SwapSurface) -> (compatible: bool)
        ensures
            compatible == self.spec_compatible_with(surface),
    {
        self.fixed.color.format == surface.format
    }

    /// Words of the vertex shader module.
    pub fn vertex_shader(&self) -> (words: &Vec<u32>)
        ensures
            words@ == self@.vertex_shader,
    {
        &self.vertex_shader
    }

    /// Words of the fragment shader module.
    pub fn fragment_shader(&self) -> (words: &Vec<u32>)
        ensures
            words@ == self@.fragment_shader,
    {
        &self.fragment_shader
    }

    /// The slots of the bind group.
    pub fn bind_group_layout(&self) -> (entries: &Vec<BindGroupLayoutEntry>)
        ensures
            entries@ == self@.bind_group_layout,
    {
        &self.bind_group_layout
    }

    /// The vertex buffers by slot: the mesh at 0, the instances at 1.
    pub fn vertex_buffers(&self) -> (layouts: &Vec<VertexBufferLayout>)
        ensures
            layouts@ == self@.vertex_buffers,
    {
        &self.vertex_buffers
    }

    /// The settings that do not depend on the scene.
    pub fn fixed(&self) -> (fixed: FixedState)
        ensures
            fixed == self@.fixed,
    {
        self.fixed
    }
}

/// Describes the render pipeline for the given shaders, bind-group layout
/// and buffer layouts; all other settings are [`FixedState::standard`].
///
/// Fails with [`InitError::ShaderModule`] exactly when one of the blobs is
/// no shader binary.
pub fn build_pipeline(
    vertex_blob: &Vec<u8>,
    fragment_blob: &Vec<u8>,
    bind_group_layout: Vec<BindGroupLayoutEntry>,
    vertex_layout: VertexBufferLayout,
    instance_layout: VertexBufferLayout,
) -> (result: Result<PipelineDescriptor, InitError>)
    ensures
        result is Ok <==> blob_order(vertex_blob@) is Some && blob_order(fragment_blob@) is Some,
        result matches Ok(pipeline) ==> pipeline@.vertex_shader == blob_words(vertex_blob@),
        result matches Ok(pipeline) ==> pipeline@.fragment_shader == blob_words(fragment_blob@),
        result matches Ok(pipeline) ==> pipeline@.bind_group_layout == bind_group_layout@,
        result matches Ok(pipeline) ==> pipeline@.vertex_buffers == seq![
            vertex_layout,
            instance_layout,
        ],
        result matches Ok(pipeline) ==> pipeline@.fixed == FixedState::standard(),
        result matches Err(e) ==> e == InitError::ShaderModule,
{
    let vertex_shader = match shader_words(vertex_blob) {
        Ok(words) => words,
        Err(e) => {
            return Err(e);
        },
    };
    let fragment_shader = match shader_words(fragment_blob) {
        Ok(words) => words,
        Err(e) => {
            return Err(e);
        },
    };
    let mut vertex_buffers: Vec<VertexBufferLayout> = Vec::new();
    vertex_buffers.push(vertex_layout);
    vertex_buffers.push(instance_layout);
    assert(vertex_buffers@ =~= seq![vertex_layout, instance_layout]);
    Ok(
        PipelineDescriptor {
            vertex_shader,
            fragment_shader,
            bind_group_layout,
            vertex_buffers,
            fixed: FixedState {
                primitive_topology: PrimitiveTopology::TriangleList,
                rasterization: RasterizationState {
                    front_face: FrontFace::Ccw,
                    cull_mode: CullMode::Off,
                    depth_bias: 0,
                    depth_bias_slope_scale: 0,
                    depth_bias_clamp: 0,
                },
                color: ColorState {
                    format: TextureFormat::Bgra8UnormSrgb,
                    color_blend: BlendDescriptor {
                        src_factor: BlendFactor::One,
                        dst_factor: BlendFactor::Zero,
                        operation: BlendOperation::Add,
                    },
                    alpha_blend: BlendDescriptor {
                        src_factor: BlendFactor::One,
                        dst_factor: BlendFactor::Zero,
                        operation: BlendOperation::Add,
                    },
                    write_all: true,
                },
                depth_stencil: false,
                index_format: IndexFormat::Uint16,
                sample_count: 1,
                sample_mask: 0xFFFF_FFFF,
                alpha_to_coverage_enabled: false,
            },
        },
    )
}

/// A pipeline with the standard settings can draw into the swap-surface of
/// any window size: resizing never invalidates it.
pub proof fn lemma_pipeline_survives_resize(pipeline: PipelineDescriptor, width: u32, height: u32)
    requires
        pipeline@.fixed == FixedState::standard(),
    ensures
        pipeline.compatible_with(SwapSurface::configured(width, height)),
{
}

} // verus!
