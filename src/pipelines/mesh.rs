use vstd::prelude::*;

use crate::pipelines::{draw_calls, Command, Layout, PushConstantRange, ShaderStage};

verus! {

/// Size in bytes of the 4x4 transform matrix pushed to the vertex stage.
pub const TRANSFORM_BYTES: u32 = 64;

/// Format of a vertex attribute.
#[derive(Clone, Copy, Debug, PartialEq, Eq, Structural)]
pub enum VertexFormat {
    /// Three 32-bit floats.
    Rgb32Sfloat,
}

#[derive(Clone, Copy, Debug, PartialEq, Eq, Structural)]
pub enum InputRate {
    Vertex,
    Instance,
}

#[derive(Clone, Copy, Debug, PartialEq, Eq, Structural)]
pub struct VertexAttribute {
    pub location: u32,
    pub format: VertexFormat,
    pub offset: u32,
}

/// One vertex buffer binding: its attributes, stride in bytes, and rate.
#[derive(Debug)]
pub struct VertexInput {
    pub attributes: Vec<VertexAttribute>,
    pub stride: u32,
    pub rate: InputRate,
}

/// What the draw needs to know of a loaded mesh.
#[derive(Clone, Copy, Debug, PartialEq, Eq, Structural)]
pub struct MeshInfo {
    pub vertex_count: u32,
    pub index_count: u32,
}

/// Description of the geometry pass.
#[derive(Debug, Default)]
pub struct PipelineDesc;

/// The geometry pass once built. It keeps no per-frame state: the only
/// per-draw data is the pushed transform.
#[derive(Debug)]
pub struct Pipeline;

pub open spec fn position_attribute() -> VertexAttribute {
    VertexAttribute { location: 0, format: VertexFormat::Rgb32Sfloat, offset: 0 }
}

/// A push-constant range that the vertex stage sees and that holds the whole
/// transform.
pub open spec fn covers_transform(r: PushConstantRange) -> bool {
    (r.stage == ShaderStage::Vertex || r.stage == ShaderStage::VertexAndFragment) && r.start == 0
        && r.end >= TRANSFORM_BYTES
}

pub open spec fn has_transform_range(ranges: Seq<PushConstantRange>) -> bool {
    exists|i: int| 0 <= i < ranges.len() && covers_transform(#[trigger] ranges[i])
}

pub open spec fn transform_range() -> PushConstantRange {
    PushConstantRange { stage: ShaderStage::Vertex, start: 0, end: TRANSFORM_BYTES }
}

impl PipelineDesc {
    /// A single buffer of tightly packed 3D positions, one per vertex.
    pub fn vertices(&self) -> (r: Vec<VertexInput>)
        ensures
            r@.len() == 1,
            r@[0].attributes@ == seq![position_attribute()],
            r@[0].stride == 12,
            r@[0].rate == InputRate::Vertex,
    {
        let attributes = vec![VertexAttribute { location: 0, format: VertexFormat::Rgb32Sfloat, offset: 0 }];
        let r = vec![VertexInput { attributes, stride: 12, rate: InputRate::Vertex }];
        assert(r@[0].attributes@ =~= seq![position_attribute()]);
        r
    }

    /// The layout reflected from the shaders, with the transform's range
    /// made sure of: where no vertex-visible range already covers bytes
    /// 0..64, one is appended. Descriptor sets are kept as reflected.
    pub fn layout(&self, reflected: Layout) -> (r: Layout)
        ensures
            r.sets@ == reflected.sets@,
            has_transform_range(reflected.push_constants@) ==> r.push_constants@
                == reflected.push_constants@,
            !has_transform_range(reflected.push_constants@) ==> r.push_constants@
                == reflected.push_constants@.push(transform_range()),
            has_transform_range(r.push_constants@),
    {
        let Layout { sets, mut push_constants } = reflected;
        let mut i: usize = 0;
        while i < push_constants.len()
            invariant
                i <= push_constants@.len(),
                sets@ == reflected.sets@,
                push_constants@ == reflected.push_constants@,
                forall|j: int| 0 <= j < i ==> !covers_transform(#[trigger] push_constants@[j]),
            decreases push_constants@.len() - i,
        {
            let range = push_constants[i];
            if (range.stage == ShaderStage::Vertex || range.stage == ShaderStage::VertexAndFragment)
                && range.start == 0 && range.end >= TRANSFORM_BYTES {
                assert(covers_transform(push_constants@[i as int]));
                return Layout { sets, push_constants };
            }
            i = i + 1;
        }
        let ghost before = push_constants@;
        push_constants.push(
            PushConstantRange { stage: ShaderStage::Vertex, start: 0, end: TRANSFORM_BYTES },
        );
        assert(covers_transform(push_constants@[before.len() as int]));
        Layout { sets, push_constants }
    }

    pub fn build(self) -> (r: Pipeline) {
        Pipeline
    }
}

impl Pipeline {
    /// The commands that draw the mesh, if one is loaded: the transform is
    /// pushed as 16 words at offset 0 of the vertex stage's block, in the order
    /// given (column by column), then every index is drawn once, one instance.
    /// Without a mesh nothing is recorded.
    pub fn draw(&self, mesh: Option<MeshInfo>, transform: &[u32; 16]) -> (r: Vec<Command>)
        ensures
            mesh is None ==> r@.len() == 0,
            draw_calls(r@) == if mesh is None {
                0nat
            } else {
                1nat
            },
            mesh matches Some(m) ==> {
                &&& r@.len() == 3
                &&& r@[0] matches Command::PushConstants { stage, offset, words } && stage
                    == ShaderStage::Vertex && offset == 0 && words@ == transform@
                &&& r@[1] matches Command::BindMesh { first_binding } && first_binding == 0
                &&& r@[2] == (Command::DrawIndexed {
                    first_index: 0,
                    index_count: m.index_count,
                    vertex_offset: 0,
                    first_instance: 0,
                    instance_count: 1,
                })
            },
    {
        match mesh {
            None => Vec::new(),
            Some(m) => {
                let mut words: Vec<u32> = Vec::new();
                let mut i: usize = 0;
                while i < 16
                    invariant
                        i <= 16,
                        words@ == transform@.subrange(0, i as int),
                    decreases 16 - i,
                {
                    words.push(transform[i]);
                    i = i + 1;
                    assert(words@ =~= transform@.subrange(0, i as int));
                }
                assert(words@ =~= transform@);
                let mut r: Vec<Command> = Vec::new();
                r.push(Command::PushConstants { stage: ShaderStage::Vertex, offset: 0, words });
                r.push(Command::BindMesh { first_binding: 0 });
                r.push(
                    Command::DrawIndexed {
                        first_index: 0,
                        index_count: m.index_count,
                        vertex_offset: 0,
                        first_instance: 0,
                        instance_count: 1,
                    },
                );
                proof {
                    let s2 = r@.drop_last();
                    let s1 = s2.drop_last();
                    assert(s1.drop_last().len() == 0);
                    assert(draw_calls(s1.drop_last()) == 0);
                    assert(s1.last() == r@[0]);
                    assert(draw_calls(s1) == 0);
                    assert(s2.last() == r@[1]);
                    assert(draw_calls(s2) == 0);
                }
                r
            },
        }
    }
}

} // verus!
