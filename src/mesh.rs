use vstd::prelude::*;
use crate::pipeline::{IndexBufferInit, PipelineInfo, ShaderInfo, VertexLayout};

verus! {

/// Relies on `bytemuck::cast_slice` from `u16` to `u8`: it views the indices as
/// their bytes, two per index, and cannot fail for these types.
#[verifier::external_body]
fn index_bytes(indices: &[u16]) -> (r: Vec<u8>)
    ensures
        r@.len() == 2 * indices@.len(),
{
    bytemuck::cast_slice::<u16, u8>(indices).to_vec()
}

/// Vertex and 16-bit index data of one mesh, as the bytes to upload and the
/// number of elements of each.
pub struct Mesh {
    pub vertex_contents: Vec<u8>,
    pub vertex_count: u32,
    pub index_contents: Vec<u8>,
    pub index_count: u32,
}

impl Mesh {
    /// A mesh with nothing to draw: both buffers hold a single zero byte, so
    /// that they can still be allocated.
    pub fn new() -> (r: Mesh)
        ensures
            r.vertex_contents@ == seq![0u8],
            r.index_contents@ == seq![0u8],
            r.vertex_count == 0,
            r.index_count == 0,
    {
        Mesh { vertex_contents: vec![0u8], vertex_count: 0, index_contents: vec![0u8], index_count: 0 }
    }

    /// A mesh of `vertex_count` vertices packed in `vertex_contents`, drawn
    /// through `indices`.
    pub fn from(vertex_contents: Vec<u8>, vertex_count: u32, indices: &[u16]) -> (r: Mesh)
        requires
            indices@.len() <= u32::MAX,
        ensures
            r.vertex_contents@ == vertex_contents@,
            r.vertex_count == vertex_count,
            r.index_contents@.len() == 2 * indices@.len(),
            r.index_count == indices@.len(),
    {
        let index_contents = index_bytes(indices);
        Mesh { vertex_contents, vertex_count, index_contents, index_count: indices.len() as u32 }
    }

    /// The description of a pipeline that draws this mesh through its indices.
    pub fn pipeline_info(
        self,
        vertex_layout: VertexLayout,
        front_face: wgpu::FrontFace,
        cull_mode: Option<wgpu::Face>,
        shader_info: ShaderInfo,
    ) -> (r: PipelineInfo)
        ensures
            r.vertex_contents@ == self.vertex_contents@,
            r.index_buffer == Some(IndexBufferInit { stride: 2, contents: self.index_contents }),
            r.vertex_layout == vertex_layout,
            r.front_face == front_face,
            r.cull_mode == cull_mode,
            r.shader_info == shader_info,
    {
        PipelineInfo {
            vertex_layout,
            vertex_contents: self.vertex_contents,
            index_buffer: Some(IndexBufferInit { stride: 2, contents: self.index_contents }),
            front_face,
            cull_mode,
            shader_info,
        }
    }
}

} // verus!
