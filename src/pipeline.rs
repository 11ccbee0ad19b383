use vstd::prelude::*;

verus! {

/// Makes Verus aware of wgpu's vertex attribute format; carried opaquely.
#[verifier::external_type_specification]
#[verifier::external_body]
pub struct ExVertexFormat(wgpu::VertexFormat);

/// Makes Verus aware of wgpu's front-face winding; carried opaquely.
#[verifier::external_type_specification]
#[verifier::external_body]
pub struct ExFrontFace(wgpu::FrontFace);

/// Makes Verus aware of wgpu's culled face; carried opaquely.
#[verifier::external_type_specification]
#[verifier::external_body]
pub struct ExFace(wgpu::Face);

/// One typed attribute inside a vertex.
pub struct VertexAttribute {
    pub format: wgpu::VertexFormat,
    /// Byte offset of the attribute from the start of the vertex.
    pub offset: u64,
    pub shader_location: u32,
}

/// Layout of one vertex buffer: the stride between vertices and their attributes.
pub struct VertexLayout {
    pub array_stride: u64,
    pub attributes: Vec<VertexAttribute>,
}

/// Shader module source and the names of its entry points.
pub struct ShaderInfo {
    pub label: Option<String>,
    pub source: String,
    pub vertex_entry: Option<String>,
    pub fragment_entry: Option<String>,
}

/// Initial contents of an index buffer and the byte size of one index.
pub struct IndexBufferInit {
    pub stride: u32,
    pub contents: Vec<u8>,
}

/// Everything needed to build a pipeline, independent of any device.
pub struct PipelineInfo {
    pub vertex_layout: VertexLayout,
    /// Raw initial contents of the vertex buffer.
    pub vertex_contents: Vec<u8>,
    pub index_buffer: Option<IndexBufferInit>,
    pub front_face: wgpu::FrontFace,
    pub cull_mode: Option<wgpu::Face>,
    pub shader_info: ShaderInfo,
}

/// What the renderer keeps of a built pipeline: the sizes and strides it needs
/// to issue a draw. The GPU handles live beside it in the embedding program.
pub struct PipelineResource {
    pub vertex_stride: u64,
    /// Byte size of the vertex buffer.
    pub vertex_size: u64,
    pub index_stride: u32,
    /// Byte size of the index buffer, when there is one.
    pub index_size: Option<u64>,
}

/// One draw command of a frame.
#[derive(Clone, Copy, Debug, PartialEq, Eq, Structural)]
pub enum DrawCall {
    /// Draw `count` indices from the bound index buffer.
    Indexed { count: u32 },
    /// Draw `count` vertices straight from the vertex buffer.
    NonIndexed { count: u32 },
}

impl PipelineInfo {
    /// The draw count that a pipeline built from this description needs is defined
    /// (no zero stride) and fits in a `u32`.
    pub open spec fn drawable(&self) -> bool {
        match self.index_buffer {
            Some(ib) => ib.stride > 0 && (ib.contents@.len() as int) / (ib.stride as int) <= u32::MAX,
            None => self.vertex_layout.array_stride > 0 && (self.vertex_contents@.len() as int)
                / (self.vertex_layout.array_stride as int) <= u32::MAX,
        }
    }

    /// The resource record of a pipeline built from this description.
    pub open spec fn resource(&self) -> PipelineResource {
        PipelineResource {
            vertex_stride: self.vertex_layout.array_stride,
            vertex_size: self.vertex_contents@.len() as u64,
            index_stride: match self.index_buffer {
                Some(ib) => ib.stride,
                None => 0,
            },
            index_size: match self.index_buffer {
                Some(ib) => Some(ib.contents@.len() as u64),
                None => None,
            },
        }
    }

    /// Tells whether a pipeline built from this description can be drawn.
    pub fn is_drawable(&self) -> (r: bool)
        ensures
            r == self.drawable(),
    {
        match &self.index_buffer {
            Some(ib) => ib.stride > 0 && (ib.contents.len() as u64) / (ib.stride as u64)
                <= u32::MAX as u64,
            None => self.vertex_layout.array_stride > 0 && (self.vertex_contents.len() as u64)
                / self.vertex_layout.array_stride <= u32::MAX as u64,
        }
    }
}

impl PipelineResource {
    /// Strides used for counting are non-zero and the count fits in a `u32`.
    pub open spec fn wf(&self) -> bool {
        match self.index_size {
            Some(n) => self.index_stride > 0 && (n as int) / (self.index_stride as int) <= u32::MAX,
            None => self.vertex_stride > 0 && self.vertex_size / self.vertex_stride <= u32::MAX,
        }
    }

    /// The draw that a frame issues with this pipeline: indexed over the whole
    /// index buffer when there is one, else over the whole vertex buffer.
    pub open spec fn spec_draw(&self) -> DrawCall {
        match self.index_size {
            Some(n) => DrawCall::Indexed { count: ((n as int) / (self.index_stride as int)) as u32 },
            None => DrawCall::NonIndexed { count: (self.vertex_size / self.vertex_stride) as u32 },
        }
    }

    /// Computes the frame's draw command.
    pub fn draw_call(&self) -> (r: DrawCall)
        requires
            self.wf(),
        ensures
            r == self.spec_draw(),
            match self.index_size {
                Some(n) => r matches DrawCall::Indexed { count } && count as int == (n as int) / (
                self.index_stride as int),
                None => r matches DrawCall::NonIndexed { count } && count as int == (
                self.vertex_size as int) / (self.vertex_stride as int),
            },
    {
        match self.index_size {
            Some(n) => DrawCall::Indexed { count: (n / (self.index_stride as u64)) as u32 },
            None => DrawCall::NonIndexed { count: (self.vertex_size / self.vertex_stride) as u32 },
        }
    }
}

/// Records the pipeline that `info` describes. Allocating its buffers, compiling
/// its shader and assembling the pipeline object happen on the device.
pub fn create_pipeline(info: &PipelineInfo) -> (r: PipelineResource)
    ensures
        r == info.resource(),
        info.drawable() ==> r.wf(),
{
    let index_stride: u32 = match &info.index_buffer {
        Some(ib) => ib.stride,
        None => 0,
    };
    let index_size: Option<u64> = match &info.index_buffer {
        Some(ib) => Some(ib.contents.len() as u64),
        None => None,
    };
    PipelineResource {
        vertex_stride: info.vertex_layout.array_stride,
        vertex_size: info.vertex_contents.len() as u64,
        index_stride,
        index_size,
    }
}

} // verus!
