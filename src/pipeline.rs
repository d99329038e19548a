use vstd::prelude::*;

use crate::mesh::VertexLayoutInfo;

verus! {

/// A byte range of push constants visible to every graphics stage.
#[derive(Clone, Copy, PartialEq, Eq, Structural, Debug)]
pub struct PushConstantRange {
    pub offset: u32,
    pub size: u32,
}

/// How vertices are assembled into primitives.
#[derive(Clone, Copy, PartialEq, Eq, Structural, Debug)]
pub enum Topology {
    TriangleList,
}

/// Which faces are discarded.
#[derive(Clone, Copy, PartialEq, Eq, Structural, Debug)]
pub enum CullMode {
    NoCulling,
}

/// Which winding makes a face the front face.
#[derive(Clone, Copy, PartialEq, Eq, Structural, Debug)]
pub enum FrontFace {
    Clockwise,
}

/// The depth comparison a fragment must pass.
#[derive(Clone, Copy, PartialEq, Eq, Structural, Debug)]
pub enum CompareOp {
    /// Closer fragments win.
    Less,
}

/// The fixed-function state of every pipeline: triangle lists, no culling,
/// clockwise front faces, one sample per pixel, viewport and scissor set per
/// draw, depth test and write enabled with closer fragments winning.
#[derive(Clone, Copy, PartialEq, Eq, Structural, Debug)]
pub struct FixedFunctionState {
    pub topology: Topology,
    pub cull_mode: CullMode,
    pub front_face: FrontFace,
    pub sample_count: u32,
    pub dynamic_viewport_and_scissor: bool,
    pub depth_test: bool,
    pub depth_write: bool,
    pub depth_compare: CompareOp,
}

pub open spec fn default_fixed_function() -> FixedFunctionState {
    FixedFunctionState {
        topology: Topology::TriangleList,
        cull_mode: CullMode::NoCulling,
        front_face: FrontFace::Clockwise,
        sample_count: 1,
        dynamic_viewport_and_scissor: true,
        depth_test: true,
        depth_write: true,
        depth_compare: CompareOp::Less,
    }
}

/// Why a pipeline could not be built.
#[derive(Debug)]
pub enum PipelineBuildError {
    NoVertexShader,
    NoFragmentShader,
    NoColorFormat,
    NoDepthFormat,
    /// The driver failed to compile the pipeline (its raw result code).
    VulkanError(i32),
}

/// A validated, complete pipeline configuration, ready to be compiled.
pub struct PipelineDesc {
    pub vertex_shader: Vec<u32>,
    pub fragment_shader: Vec<u32>,
    pub color_format: i32,
    pub depth_format: i32,
    pub vertex_layout_info: Option<VertexLayoutInfo>,
    pub push_constant_ranges: Vec<PushConstantRange>,
    pub descriptor_set_layouts: Vec<u64>,
    pub fixed_function: FixedFunctionState,
}

/// Accumulates the optional parts of a pipeline.
pub struct PipelineBuilder {
    pub vertex_shader_data: Option<Vec<u32>>,
    pub fragment_shader_data: Option<Vec<u32>>,
    pub color_format: Option<i32>,
    pub depth_format: Option<i32>,
    pub push_constant_range: Option<PushConstantRange>,
    pub vertex_layout_info: Option<VertexLayoutInfo>,
    /// Raw handles of the descriptor-set layouts.
    pub descriptor_set_layouts: Vec<u64>,
}

impl PipelineBuilder {
    /// A builder with nothing set.
    pub fn new() -> (r: Self)
        ensures
            r.vertex_shader_data is None,
            r.fragment_shader_data is None,
            r.color_format is None,
            r.depth_format is None,
            r.push_constant_range is None,
            r.vertex_layout_info is None,
            r.descriptor_set_layouts@.len() == 0,
    {
        PipelineBuilder {
            vertex_shader_data: None,
            fragment_shader_data: None,
            color_format: None,
            depth_format: None,
            push_constant_range: None,
            vertex_layout_info: None,
            descriptor_set_layouts: Vec::new(),
        }
    }

    /// Sets the vertex shader's bytecode.
    pub fn with_vertex_shader_data(self, data: Vec<u32>) -> (r: Self)
        ensures
            r.vertex_shader_data == Some(data),
            r.fragment_shader_data == self.fragment_shader_data,
            r.color_format == self.color_format,
            r.depth_format == self.depth_format,
            r.push_constant_range == self.push_constant_range,
            r.vertex_layout_info == self.vertex_layout_info,
            r.descriptor_set_layouts == self.descriptor_set_layouts,
    {
        PipelineBuilder {
            vertex_shader_data: Some(data),
            fragment_shader_data: self.fragment_shader_data,
            color_format: self.color_format,
            depth_format: self.depth_format,
            push_constant_range: self.push_constant_range,
            vertex_layout_info: self.vertex_layout_info,
            descriptor_set_layouts: self.descriptor_set_layouts,
        }
    }

    /// Sets the fragment shader's bytecode.
    pub fn with_fragment_shader_data(self, data: Vec<u32>) -> (r: Self)
        ensures
            r.vertex_shader_data == self.vertex_shader_data,
            r.fragment_shader_data == Some(data),
            r.color_format == self.color_format,
            r.depth_format == self.depth_format,
            r.push_constant_range == self.push_constant_range,
            r.vertex_layout_info == self.vertex_layout_info,
            r.descriptor_set_layouts == self.descriptor_set_layouts,
    {
        PipelineBuilder {
            vertex_shader_data: self.vertex_shader_data,
            fragment_shader_data: Some(data),
            color_format: self.color_format,
            depth_format: self.depth_format,
            push_constant_range: self.push_constant_range,
            vertex_layout_info: self.vertex_layout_info,
            descriptor_set_layouts: self.descriptor_set_layouts,
        }
    }

    /// Sets the raw format of the colour attachment.
    pub fn with_color_format(self, format: i32) -> (r: Self)
        ensures
            r.vertex_shader_data == self.vertex_shader_data,
            r.fragment_shader_data == self.fragment_shader_data,
            r.color_format == Some(format),
            r.depth_format == self.depth_format,
            r.push_constant_range == self.push_constant_range,
            r.vertex_layout_info == self.vertex_layout_info,
            r.descriptor_set_layouts == self.descriptor_set_layouts,
    {
        PipelineBuilder {
            vertex_shader_data: self.vertex_shader_data,
            fragment_shader_data: self.fragment_shader_data,
            color_format: Some(format),
            depth_format: self.depth_format,
            push_constant_range: self.push_constant_range,
            vertex_layout_info: self.vertex_layout_info,
            descriptor_set_layouts: self.descriptor_set_layouts,
        }
    }

    /// Sets the raw format of the depth attachment.
    pub fn with_depth_format(self, format: i32) -> (r: Self)
        ensures
            r.vertex_shader_data == self.vertex_shader_data,
            r.fragment_shader_data == self.fragment_shader_data,
            r.color_format == self.color_format,
            r.depth_format == Some(format),
            r.push_constant_range == self.push_constant_range,
            r.vertex_layout_info == self.vertex_layout_info,
            r.descriptor_set_layouts == self.descriptor_set_layouts,
    {
        PipelineBuilder {
            vertex_shader_data: self.vertex_shader_data,
            fragment_shader_data: self.fragment_shader_data,
            color_format: self.color_format,
            depth_format: Some(format),
            push_constant_range: self.push_constant_range,
            vertex_layout_info: self.vertex_layout_info,
            descriptor_set_layouts: self.descriptor_set_layouts,
        }
    }

    /// Sets the vertex input layout.
    pub fn with_vertex_layout_info(self, info: VertexLayoutInfo) -> (r: Self)
        ensures
            r.vertex_shader_data == self.vertex_shader_data,
            r.fragment_shader_data == self.fragment_shader_data,
            r.color_format == self.color_format,
            r.depth_format == self.depth_format,
            r.push_constant_range == self.push_constant_range,
            r.vertex_layout_info == Some(info),
            r.descriptor_set_layouts == self.descriptor_set_layouts,
    {
        PipelineBuilder {
            vertex_shader_data: self.vertex_shader_data,
            fragment_shader_data: self.fragment_shader_data,
            color_format: self.color_format,
            depth_format: self.depth_format,
            push_constant_range: self.push_constant_range,
            vertex_layout_info: Some(info),
            descriptor_set_layouts: self.descriptor_set_layouts,
        }
    }

    /// Declares push constants holding one `T`, from offset 0.
    pub fn with_push_constants<T>(self) -> (r: Self)
        requires
            size_of::<T>() <= u32::MAX,
        ensures
            r.vertex_shader_data == self.vertex_shader_data,
            r.fragment_shader_data == self.fragment_shader_data,
            r.color_format == self.color_format,
            r.depth_format == self.depth_format,
            r.push_constant_range == Some(PushConstantRange { offset: 0, size: size_of::<T>() as u32 }),
            r.vertex_layout_info == self.vertex_layout_info,
            r.descriptor_set_layouts == self.descriptor_set_layouts,
    {
        let size = core::mem::size_of::<T>();
        PipelineBuilder {
            vertex_shader_data: self.vertex_shader_data,
            fragment_shader_data: self.fragment_shader_data,
            color_format: self.color_format,
            depth_format: self.depth_format,
            push_constant_range: Some(PushConstantRange { offset: 0, size: size as u32 }),
            vertex_layout_info: self.vertex_layout_info,
            descriptor_set_layouts: self.descriptor_set_layouts,
        }
    }

    /// Sets the raw handles of the descriptor-set layouts.
    pub fn with_descriptor_set_layouts(self, layouts: Vec<u64>) -> (r: Self)
        ensures
            r.vertex_shader_data == self.vertex_shader_data,
            r.fragment_shader_data == self.fragment_shader_data,
            r.color_format == self.color_format,
            r.depth_format == self.depth_format,
            r.push_constant_range == self.push_constant_range,
            r.vertex_layout_info == self.vertex_layout_info,
            r.descriptor_set_layouts == layouts,
    {
        PipelineBuilder {
            vertex_shader_data: self.vertex_shader_data,
            fragment_shader_data: self.fragment_shader_data,
            color_format: self.color_format,
            depth_format: self.depth_format,
            push_constant_range: self.push_constant_range,
            vertex_layout_info: self.vertex_layout_info,
            descriptor_set_layouts: layouts,
        }
    }

    /// Checks that every required part is present, in the order vertex
    /// shader, fragment shader, colour format, depth format, and reports the
    /// first one missing. Otherwise yields the configuration with the fixed
    /// state every pipeline has and at most one push-constant range.
    pub fn build(self) -> (r: Result<PipelineDesc, PipelineBuildError>)
        ensures
            match r {
                Ok(d) => {
                    &&& self.vertex_shader_data == Some(d.vertex_shader)
                    &&& self.fragment_shader_data == Some(d.fragment_shader)
                    &&& self.color_format == Some(d.color_format)
                    &&& self.depth_format == Some(d.depth_format)
                    &&& d.vertex_layout_info == self.vertex_layout_info
                    &&& d.descriptor_set_layouts == self.descriptor_set_layouts
                    &&& d.push_constant_ranges@ == match self.push_constant_range {
                        Some(p) => seq![p],
                        None => Seq::<PushConstantRange>::empty(),
                    }
                    &&& d.fixed_function == default_fixed_function()
                },
                Err(PipelineBuildError::NoVertexShader) => self.vertex_shader_data is None,
                Err(PipelineBuildError::NoFragmentShader) => {
                    self.vertex_shader_data is Some && self.fragment_shader_data is None
                },
                Err(PipelineBuildError::NoColorFormat) => {
                    &&& self.vertex_shader_data is Some
                    &&& self.fragment_shader_data is Some
                    &&& self.color_format is None
                },
                Err(PipelineBuildError::NoDepthFormat) => {
                    &&& self.vertex_shader_data is Some
                    &&& self.fragment_shader_data is Some
                    &&& self.color_format is Some
                    &&& self.depth_format is None
                },
                Err(PipelineBuildError::VulkanError(_)) => false,
            },
    {
        let vertex_shader = match self.vertex_shader_data {
            Some(v) => v,
            None => {
                return Err(PipelineBuildError::NoVertexShader);
            },
        };
        let fragment_shader = match self.fragment_shader_data {
            Some(f) => f,
            None => {
                return Err(PipelineBuildError::NoFragmentShader);
            },
        };
        let color_format = match self.color_format {
            Some(c) => c,
            None => {
                return Err(PipelineBuildError::NoColorFormat);
            },
        };
        let depth_format = match self.depth_format {
            Some(d) => d,
            None => {
                return Err(PipelineBuildError::NoDepthFormat);
            },
        };
        let mut push_constant_ranges: Vec<PushConstantRange> = Vec::new();
        match self.push_constant_range {
            Some(range) => {
                push_constant_ranges.push(range);
            },
            None => {},
        }
        proof {
            match self.push_constant_range {
                Some(p) => {
                    assert(push_constant_ranges@ =~= seq![p]);
                },
                None => {
                    assert(push_constant_ranges@ =~= Seq::<PushConstantRange>::empty());
                },
            }
        }
        let fixed_function = FixedFunctionState {
            topology: Topology::TriangleList,
            cull_mode: CullMode::NoCulling,
            front_face: FrontFace::Clockwise,
            sample_count: 1,
            dynamic_viewport_and_scissor: true,
            depth_test: true,
            depth_write: true,
            depth_compare: CompareOp::Less,
        };
        Ok(PipelineDesc {
            vertex_shader,
            fragment_shader,
            color_format,
            depth_format,
            vertex_layout_info: self.vertex_layout_info,
            push_constant_ranges,
            descriptor_set_layouts: self.descriptor_set_layouts,
            fixed_function,
        })
    }
}

} // verus!
