use vstd::prelude::*;

pub mod mesh;
pub mod post_effect;

verus! {

#[derive(Clone, Copy, Debug, PartialEq, Eq, Structural)]
pub enum ShaderStage {
    Vertex,
    Fragment,
    /// Seen by both the vertex and the fragment stage.
    VertexAndFragment,
}

#[derive(Clone, Copy, Debug, PartialEq, Eq, Structural)]
pub enum DescriptorType {
    Sampler,
    SampledImage,
    CombinedImageSampler,
    UniformBuffer,
    StorageBuffer,
}

#[derive(Clone, Copy, Debug, PartialEq, Eq, Structural)]
pub enum ImageLayout {
    ShaderReadOnlyOptimal,
    ColorAttachmentOptimal,
}

/// One binding of a descriptor set layout.
#[derive(Clone, Copy, Debug, PartialEq, Eq, Structural)]
pub struct DescriptorBinding {
    pub binding: u32,
    pub ty: DescriptorType,
    pub count: u32,
    pub stage: ShaderStage,
    pub immutable_samplers: bool,
}

#[derive(Debug)]
pub struct SetLayout {
    pub bindings: Vec<DescriptorBinding>,
}

/// A push-constant range, in bytes.
#[derive(Clone, Copy, Debug, PartialEq, Eq, Structural)]
pub struct PushConstantRange {
    pub stage: ShaderStage,
    pub start: u32,
    pub end: u32,
}

/// The resource layout of a pipeline.
#[derive(Debug)]
pub struct Layout {
    pub sets: Vec<SetLayout>,
    pub push_constants: Vec<PushConstantRange>,
}

/// One command recorded into a render pass.
#[derive(Debug)]
pub enum Command {
    /// Uploads `words` (32 bits each) at byte `offset` of the push-constant
    /// block seen by `stage`.
    PushConstants { stage: ShaderStage, offset: u32, words: Vec<u32> },
    /// Binds the loaded mesh's vertex buffers from `first_binding` on, and
    /// its index buffer.
    BindMesh { first_binding: u32 },
    /// Binds the descriptor set of frame slot `set` at set number `first_set`.
    BindDescriptorSet { first_set: u32, set: usize },
    DrawIndexed {
        first_index: u32,
        index_count: u32,
        vertex_offset: i32,
        first_instance: u32,
        instance_count: u32,
    },
    Draw { first_vertex: u32, vertex_count: u32, first_instance: u32, instance_count: u32 },
}

pub open spec fn is_draw(c: Command) -> bool {
    c is Draw || c is DrawIndexed
}

/// Number of draw calls among `cmds`.
pub open spec fn draw_calls(cmds: Seq<Command>) -> nat
    decreases cmds.len(),
{
    if cmds.len() == 0 {
        0
    } else {
        draw_calls(cmds.drop_last()) + if is_draw(cmds.last()) {
            1nat
        } else {
            0nat
        }
    }
}

} // verus!
