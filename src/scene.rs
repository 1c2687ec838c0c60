use vstd::prelude::*;

use crate::graph::{
    acyclic, deps_valid, images_valid, is_schedule, lemma_chain_has_one_schedule, read, reads_written,
    resolve, runs_before, written, BuildError, ClearKind, CompiledGraph, GraphBuilder, ImageDecl,
    ImageFormat, PassDecl, PassKind,
};

verus! {

/// Index of the presented color image.
pub const COLOR: usize = 0;

/// Index of the high-dynamic-range intermediate image.
pub const HDR: usize = 1;

/// Index of the depth image.
pub const DEPTH: usize = 2;

/// Index of the geometry pass.
pub const MESH_PASS: usize = 0;

/// Index of the full-screen post-processing pass.
pub const POST_EFFECT_PASS: usize = 1;

/// Index of the presentation pass.
pub const PRESENT_PASS: usize = 2;

pub open spec fn scene_images() -> Seq<ImageDecl> {
    seq![
        ImageDecl { format: ImageFormat::Surface, levels: 1, clear: ClearKind::Color },
        ImageDecl { format: ImageFormat::Rgba32Sfloat, levels: 1, clear: ClearKind::Color },
        ImageDecl { format: ImageFormat::D32Sfloat, levels: 1, clear: ClearKind::DepthStencil },
    ]
}

/// The declared shape of each pass: kind, reads, writes, dependencies.
pub open spec fn scene_pass(p: PassDecl, kind: PassKind, reads: Seq<usize>, writes: Seq<usize>, deps: Seq<usize>) -> bool {
    p.kind == kind && p.reads@ == reads && p.writes@ == writes && p.depends_on@ == deps
}

pub open spec fn is_scene(b: GraphBuilder) -> bool {
    &&& b.images@ == scene_images()
    &&& b.passes@.len() == 3
    &&& scene_pass(b.passes@[0], PassKind::Mesh, seq![], seq![HDR, DEPTH], seq![])
    &&& scene_pass(b.passes@[1], PassKind::PostEffect, seq![HDR], seq![COLOR], seq![MESH_PASS])
    &&& scene_pass(b.passes@[2], PassKind::Present, seq![COLOR], seq![], seq![POST_EFFECT_PASS])
}

/// Declares the three window-sized images and the three passes: the mesh pass
/// writes the HDR and depth images, the post-effect pass reads the HDR image
/// and writes the color image, and presentation reads the color image.
pub fn declare_scene() -> (r: GraphBuilder)
    ensures
        is_scene(r),
{
    let mut b = GraphBuilder::new();
    b.create_image(ImageDecl { format: ImageFormat::Surface, levels: 1, clear: ClearKind::Color });
    b.create_image(
        ImageDecl { format: ImageFormat::Rgba32Sfloat, levels: 1, clear: ClearKind::Color },
    );
    b.create_image(
        ImageDecl { format: ImageFormat::D32Sfloat, levels: 1, clear: ClearKind::DepthStencil },
    );
    let mesh = b.add_node(
        PassDecl {
            kind: PassKind::Mesh,
            reads: Vec::new(),
            writes: vec![HDR, DEPTH],
            depends_on: Vec::new(),
        },
    );
    let post = b.add_node(
        PassDecl {
            kind: PassKind::PostEffect,
            reads: vec![HDR],
            writes: vec![COLOR],
            depends_on: vec![mesh],
        },
    );
    b.add_node(
        PassDecl {
            kind: PassKind::Present,
            reads: vec![COLOR],
            writes: Vec::new(),
            depends_on: vec![post],
        },
    );
    assert(b.images@ =~= scene_images());
    assert(b.passes@[0].reads@ =~= seq![]);
    assert(b.passes@[0].writes@ =~= seq![HDR, DEPTH]);
    assert(b.passes@[0].depends_on@ =~= seq![]);
    assert(b.passes@[1].reads@ =~= seq![HDR]);
    assert(b.passes@[1].writes@ =~= seq![COLOR]);
    assert(b.passes@[1].depends_on@ =~= seq![MESH_PASS]);
    assert(b.passes@[2].reads@ =~= seq![COLOR]);
    assert(b.passes@[2].writes@ =~= seq![]);
    assert(b.passes@[2].depends_on@ =~= seq![POST_EFFECT_PASS]);
    b
}

proof fn lemma_scene_is_valid(b: GraphBuilder)
    requires
        is_scene(b),
    ensures
        deps_valid(b.passes@),
        images_valid(b.passes@, b.images@.len()),
        reads_written(b.passes@),
        acyclic(b.passes@),
{
    let passes = b.passes@;
    assert(passes[0].writes@[0] == HDR);
    assert(passes[1].writes@[0] == COLOR);
    assert forall|image: usize| read(passes, image) implies written(passes, image) by {
        let (p, k) = choose|p: int, k: int|
            0 <= p < passes.len() && 0 <= k < passes[p].reads@.len() && #[trigger] passes[p].reads@[k]
                == image;
    }
    let order = seq![MESH_PASS, POST_EFFECT_PASS, PRESENT_PASS];
    assert(order[0] == MESH_PASS && order[1] == POST_EFFECT_PASS && order[2] == PRESENT_PASS);
    assert(order.contains(0));
    assert(order.contains(1));
    assert(order.contains(2));
    assert(runs_before(order, passes[1].depends_on@[0], 1));
    assert(runs_before(order, passes[2].depends_on@[0], 2));
    assert(is_schedule(passes, order));
}

/// Declares the scene and compiles it against a window of the given size.
/// On any nonzero size the passes run mesh, post-effect, present, and every
/// image is exactly the window's size.
pub fn build_graph(width: u32, height: u32, frames_in_flight: u32) -> (r: Result<
    CompiledGraph,
    BuildError,
>)
    ensures
        r is Ok <==> width > 0 && height > 0 && frames_in_flight > 0,
        r == Err::<CompiledGraph, BuildError>(BuildError::EmptyExtent) <==> width == 0 || height
            == 0,
        r == Err::<CompiledGraph, BuildError>(BuildError::NoFramesInFlight) <==> width > 0
            && height > 0 && frames_in_flight == 0,
        r matches Ok(g) ==> {
            &&& g.order@ == seq![MESH_PASS, POST_EFFECT_PASS, PRESENT_PASS]
            &&& g.kinds@ == seq![PassKind::Mesh, PassKind::PostEffect, PassKind::Present]
            &&& g.frames_in_flight == frames_in_flight
            &&& g.images@.len() == 3
            &&& forall|i: int| 0 <= i < 3 ==> #[trigger] g.images@[i] == resolve(scene_images()[i], width, height)
        },
{
    let b = declare_scene();
    proof {
        lemma_scene_is_valid(b);
    }
    let r = b.compile(width, height, frames_in_flight);
    proof {
        if r is Ok {
            let g = r->Ok_0;
            assert(b.passes@[1].depends_on@[0] == MESH_PASS);
            assert(b.passes@[2].depends_on@[0] == POST_EFFECT_PASS);
            lemma_chain_has_one_schedule(b.passes@, g.order@, MESH_PASS, POST_EFFECT_PASS, PRESENT_PASS);
            assert(g.kinds@ =~= seq![PassKind::Mesh, PassKind::PostEffect, PassKind::Present]);
        }
    }
    r
}

} // verus!
