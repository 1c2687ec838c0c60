use vstd::prelude::*;

use crate::graph::ImageFormat;
use crate::pipelines::{
    draw_calls, Command, DescriptorBinding, DescriptorType, ImageLayout, Layout, SetLayout,
    ShaderStage,
};

verus! {

#[derive(Clone, Copy, Debug, PartialEq, Eq, Structural)]
pub enum Access {
    ShaderRead,
    ShaderWrite,
}

#[derive(Clone, Copy, Debug, PartialEq, Eq, Structural)]
pub enum Usage {
    Sampled,
    Storage,
}

#[derive(Clone, Copy, Debug, PartialEq, Eq, Structural)]
pub enum PipelineStage {
    VertexShader,
    FragmentShader,
}

/// How a pass uses an image that an earlier pass produced.
#[derive(Clone, Copy, Debug, PartialEq, Eq, Structural)]
pub struct ImageAccess {
    pub access: Access,
    pub usage: Usage,
    pub layout: ImageLayout,
    pub stage: PipelineStage,
}

#[derive(Clone, Copy, Debug, PartialEq, Eq, Structural)]
pub enum Filter {
    Nearest,
    Linear,
}

#[derive(Clone, Copy, Debug, PartialEq, Eq, Structural)]
pub enum WrapMode {
    Clamp,
    Tile,
}

/// The one sampler the pass creates.
#[derive(Clone, Copy, Debug, PartialEq, Eq, Structural)]
pub struct SamplerDesc {
    pub filter: Filter,
    pub wrap: WrapMode,
}

#[derive(Clone, Copy, Debug, PartialEq, Eq, Structural)]
pub enum ViewKind {
    D1,
    D2,
    D3,
}

/// How a view maps the image's channels.
#[derive(Clone, Copy, Debug, PartialEq, Eq, Structural)]
pub enum Swizzle {
    /// Each channel reads itself.
    Identity,
    /// Red read into every channel.
    Red,
}

/// The one image view the pass creates, over the whole of its first input
/// image.
#[derive(Clone, Copy, Debug, PartialEq, Eq, Structural)]
pub struct ImageViewDesc {
    pub input: usize,
    pub kind: ViewKind,
    pub format: ImageFormat,
    pub swizzle: Swizzle,
}

#[derive(Clone, Copy, Debug, PartialEq, Eq, Structural)]
pub struct DescriptorRange {
    pub ty: DescriptorType,
    pub count: usize,
}

/// The descriptor pool: how many sets, how many descriptors of each type,
/// and whether single sets may be freed back to it (otherwise the pool is
/// only ever reset whole).
#[derive(Debug)]
pub struct PoolDesc {
    pub max_sets: usize,
    pub ranges: Vec<DescriptorRange>,
    pub free_individual_sets: bool,
}

/// What a descriptor write points at: the pass's sampler, or its image view
/// in the given layout.
#[derive(Clone, Copy, Debug, PartialEq, Eq, Structural)]
pub enum Descriptor {
    Sampler,
    Image(ImageLayout),
}

#[derive(Clone, Copy, Debug, PartialEq, Eq, Structural)]
pub struct SetWrite {
    pub binding: u32,
    pub array_offset: u32,
    pub descriptor: Descriptor,
}

/// The writes made once into the descriptor set of one frame slot.
#[derive(Debug)]
pub struct FrameSet {
    pub writes: Vec<SetWrite>,
}

/// Teardown of the pass's GPU objects, in order.
#[derive(Clone, Copy, Debug, PartialEq, Eq, Structural)]
pub enum Release {
    ResetPool,
    DestroyPool,
    DestroySampler,
    DestroyImageView,
}

/// Description of the full-screen post-processing pass.
#[derive(Debug, Default)]
pub struct PipelineDesc;

/// The post-processing pass once built: a pool with one descriptor set per
/// frame in flight, each pointing at the same sampler and image view.
#[derive(Debug)]
pub struct Pipeline {
    pub pool: PoolDesc,
    pub sampler: SamplerDesc,
    pub view: ImageViewDesc,
    pub sets: Vec<FrameSet>,
}

pub open spec fn sampled_in_fragment() -> ImageAccess {
    ImageAccess {
        access: Access::ShaderRead,
        usage: Usage::Sampled,
        layout: ImageLayout::ShaderReadOnlyOptimal,
        stage: PipelineStage::FragmentShader,
    }
}

pub open spec fn fragment_binding(binding: u32, ty: DescriptorType) -> DescriptorBinding {
    DescriptorBinding {
        binding,
        ty,
        count: 1,
        stage: ShaderStage::Fragment,
        immutable_samplers: false,
    }
}

/// Sampler at binding 0, the image view in shader-read-only layout at
/// binding 1.
pub open spec fn frame_writes() -> Seq<SetWrite> {
    seq![
        SetWrite { binding: 0, array_offset: 0, descriptor: Descriptor::Sampler },
        SetWrite {
            binding: 1,
            array_offset: 0,
            descriptor: Descriptor::Image(ImageLayout::ShaderReadOnlyOptimal),
        },
    ]
}

impl Pipeline {
    pub open spec fn wf(&self) -> bool {
        &&& self.sets@.len() == self.pool.max_sets
        &&& forall|i: int| 0 <= i < self.sets@.len() ==> #[trigger] self.sets@[i].writes@ == frame_writes()
    }
}

fn set_writes() -> (r: Vec<SetWrite>)
    ensures
        r@ == frame_writes(),
{
    let r = vec![
        SetWrite { binding: 0, array_offset: 0, descriptor: Descriptor::Sampler },
        SetWrite {
            binding: 1,
            array_offset: 0,
            descriptor: Descriptor::Image(ImageLayout::ShaderReadOnlyOptimal),
        },
    ];
    assert(r@ =~= frame_writes());
    r
}

impl PipelineDesc {
    /// The pass samples one image in the fragment stage.
    pub fn images(&self) -> (r: Vec<ImageAccess>)
        ensures
            r@ == seq![sampled_in_fragment()],
    {
        let r = vec![
            ImageAccess {
                access: Access::ShaderRead,
                usage: Usage::Sampled,
                layout: ImageLayout::ShaderReadOnlyOptimal,
                stage: PipelineStage::FragmentShader,
            },
        ];
        assert(r@ =~= seq![sampled_in_fragment()]);
        r
    }

    /// The pass has no depth or stencil attachment.
    pub fn depth_stencil(&self) -> (r: bool)
        ensures
            !r,
    {
        false
    }

    /// One set: a sampler at binding 0 and a sampled image at binding 1, both
    /// seen by the fragment stage; no push constants.
    pub fn layout(&self) -> (r: Layout)
        ensures
            r.sets@.len() == 1,
            r.sets@[0].bindings@ == seq![
                fragment_binding(0, DescriptorType::Sampler),
                fragment_binding(1, DescriptorType::SampledImage),
            ],
            r.push_constants@.len() == 0,
    {
        let bindings = vec![
            DescriptorBinding {
                binding: 0,
                ty: DescriptorType::Sampler,
                count: 1,
                stage: ShaderStage::Fragment,
                immutable_samplers: false,
            },
            DescriptorBinding {
                binding: 1,
                ty: DescriptorType::SampledImage,
                count: 1,
                stage: ShaderStage::Fragment,
                immutable_samplers: false,
            },
        ];
        let r = Layout { sets: vec![SetLayout { bindings }], push_constants: Vec::new() };
        assert(r.sets@[0].bindings@ =~= seq![
            fragment_binding(0, DescriptorType::Sampler),
            fragment_binding(1, DescriptorType::SampledImage),
        ]);
        r
    }

    /// Sizes the pool for `frames_in_flight` sets of one sampler and one
    /// sampled image each, with no creation flags, creates one
    /// nearest-filtering, edge-clamping sampler and one 2D, unswizzled view
    /// over the HDR input, and writes both into the set of every frame slot
    /// once.
    pub fn build(self, frames_in_flight: usize) -> (r: Pipeline)
        ensures
            r.wf(),
            r.sets@.len() == frames_in_flight,
            r.pool.max_sets == frames_in_flight,
            r.pool.ranges@ == seq![
                DescriptorRange { ty: DescriptorType::Sampler, count: frames_in_flight },
                DescriptorRange { ty: DescriptorType::SampledImage, count: frames_in_flight },
            ],
            r.sampler == (SamplerDesc { filter: Filter::Nearest, wrap: WrapMode::Clamp }),
            !r.pool.free_individual_sets,
            r.view == (ImageViewDesc {
                input: 0,
                kind: ViewKind::D2,
                format: ImageFormat::Rgba32Sfloat,
                swizzle: Swizzle::Identity,
            }),
    {
        let pool = PoolDesc {
            max_sets: frames_in_flight,
            ranges: vec![
                DescriptorRange { ty: DescriptorType::Sampler, count: frames_in_flight },
                DescriptorRange { ty: DescriptorType::SampledImage, count: frames_in_flight },
            ],
            free_individual_sets: false,
        };
        let sampler = SamplerDesc { filter: Filter::Nearest, wrap: WrapMode::Clamp };
        let view = ImageViewDesc {
            input: 0,
            kind: ViewKind::D2,
            format: ImageFormat::Rgba32Sfloat,
            swizzle: Swizzle::Identity,
        };
        let mut sets: Vec<FrameSet> = Vec::new();
        let mut i: usize = 0;
        while i < frames_in_flight
            invariant
                i <= frames_in_flight,
                sets@.len() == i,
                forall|j: int| 0 <= j < i ==> #[trigger] sets@[j].writes@ == frame_writes(),
            decreases frames_in_flight - i,
        {
            sets.push(FrameSet { writes: set_writes() });
            i = i + 1;
        }
        let r = Pipeline { pool, sampler, view, sets };
        assert(r.pool.ranges@ =~= seq![
            DescriptorRange { ty: DescriptorType::Sampler, count: frames_in_flight },
            DescriptorRange { ty: DescriptorType::SampledImage, count: frames_in_flight },
        ]);
        r
    }
}

impl Pipeline {
    /// Binds the set of frame slot `index` at set number 0, then draws one
    /// full-screen triangle: three vertices, one instance, no vertex buffer.
    pub fn draw(&self, index: usize) -> (r: Vec<Command>)
        requires
            index < self.sets@.len(),
        ensures
            r@.len() == 2,
            r@[0] == (Command::BindDescriptorSet { first_set: 0, set: index }),
            r@[1] == (Command::Draw {
                first_vertex: 0,
                vertex_count: 3,
                first_instance: 0,
                instance_count: 1,
            }),
            draw_calls(r@) == 1,
    {
        let mut r: Vec<Command> = Vec::new();
        r.push(Command::BindDescriptorSet { first_set: 0, set: index });
        r.push(Command::Draw { first_vertex: 0, vertex_count: 3, first_instance: 0, instance_count: 1 });
        proof {
            let s1 = r@.drop_last();
            assert(draw_calls(s1.drop_last()) == 0);
            assert(s1.last() == r@[0]);
            assert(draw_calls(s1) == 0);
        }
        r
    }

    /// Resets and destroys the pool, then releases the sampler and the view,
    /// which belong to this pass alone.
    pub fn dispose(self) -> (r: Vec<Release>)
        ensures
            r@ == seq![
                Release::ResetPool,
                Release::DestroyPool,
                Release::DestroySampler,
                Release::DestroyImageView,
            ],
    {
        let r = vec![
            Release::ResetPool,
            Release::DestroyPool,
            Release::DestroySampler,
            Release::DestroyImageView,
        ];
        assert(r@ =~= seq![
            Release::ResetPool,
            Release::DestroyPool,
            Release::DestroySampler,
            Release::DestroyImageView,
        ]);
        r
    }
}

} // verus!
