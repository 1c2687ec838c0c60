use hdr_renderer::graph::{
    BuildError, ClearKind, GraphBuilder, ImageDecl, ImageFormat, PassDecl, PassKind,
};
use hdr_renderer::scene::{
    build_graph, declare_scene, COLOR, DEPTH, HDR, MESH_PASS, POST_EFFECT_PASS, PRESENT_PASS,
};

fn image(format: ImageFormat) -> ImageDecl {
    ImageDecl { format, levels: 1, clear: ClearKind::Color }
}

fn pass(kind: PassKind, reads: Vec<usize>, writes: Vec<usize>, deps: Vec<usize>) -> PassDecl {
    PassDecl { kind, reads, writes, depends_on: deps }
}

#[test]
fn chain_order_ignores_declaration_order() {
    let mut b = GraphBuilder::new();
    let color = b.create_image(image(ImageFormat::Surface));
    let hdr = b.create_image(image(ImageFormat::Rgba32Sfloat));
    // present declared first, mesh last
    let present = b.add_node(pass(PassKind::Present, vec![color], vec![], vec![1]));
    let post = b.add_node(pass(PassKind::PostEffect, vec![hdr], vec![color], vec![2]));
    let mesh = b.add_node(pass(PassKind::Mesh, vec![], vec![hdr], vec![]));
    assert_eq!((present, post, mesh), (0, 1, 2));
    let g = b.compile(64, 64, 2).unwrap();
    assert_eq!(g.order, vec![mesh, post, present]);
    assert_eq!(g.kinds, vec![PassKind::Present, PassKind::PostEffect, PassKind::Mesh]);
}

#[test]
fn chain_order_in_every_declaration_order() {
    let perms: [[usize; 3]; 6] = [[0, 1, 2], [0, 2, 1], [1, 0, 2], [1, 2, 0], [2, 0, 1], [2, 1, 0]];
    for perm in perms.iter() {
        // perm[k] is the index under which the k-th pass of the chain is declared
        let mut slots: Vec<Option<PassDecl>> = vec![None, None, None];
        slots[perm[0]] = Some(pass(PassKind::Mesh, vec![], vec![0], vec![]));
        slots[perm[1]] = Some(pass(PassKind::PostEffect, vec![0], vec![1], vec![perm[0]]));
        slots[perm[2]] = Some(pass(PassKind::Present, vec![1], vec![], vec![perm[1]]));
        let mut b = GraphBuilder::new();
        b.create_image(image(ImageFormat::Rgba32Sfloat));
        b.create_image(image(ImageFormat::Surface));
        for s in slots {
            b.add_node(s.unwrap());
        }
        let g = b.compile(8, 8, 1).unwrap();
        assert_eq!(g.order, vec![perm[0], perm[1], perm[2]]);
    }
}

#[test]
fn disposal_reverses_execution_on_scene() {
    let g = build_graph(512, 512, 3).unwrap();
    assert_eq!(g.order, vec![MESH_PASS, POST_EFFECT_PASS, PRESENT_PASS]);
    assert_eq!(g.disposal_order(), vec![PRESENT_PASS, POST_EFFECT_PASS, MESH_PASS]);
}

#[test]
fn disposal_reverses_execution_on_diamond() {
    // 0 -> {1, 2} -> 3, plus an independent pass 4 that depends on 3
    let mut b = GraphBuilder::new();
    let img = b.create_image(image(ImageFormat::Rgba32Sfloat));
    b.add_node(pass(PassKind::Present, vec![img], vec![], vec![1, 2]));
    b.add_node(pass(PassKind::PostEffect, vec![img], vec![], vec![3]));
    b.add_node(pass(PassKind::PostEffect, vec![img], vec![], vec![3]));
    b.add_node(pass(PassKind::Mesh, vec![], vec![img], vec![]));
    b.add_node(pass(PassKind::Present, vec![], vec![], vec![0]));
    let g = b.compile(10, 20, 2).unwrap();
    let order = g.order.clone();
    let pos = |p: usize| order.iter().position(|&x| x == p).unwrap();
    assert!(pos(3) < pos(1) && pos(3) < pos(2));
    assert!(pos(1) < pos(0) && pos(2) < pos(0) && pos(0) < pos(4));
    let mut reversed = order.clone();
    reversed.reverse();
    assert_eq!(g.disposal_order(), reversed);
}

#[test]
fn resize_recompiles_to_new_size_with_same_order() {
    let small = build_graph(512, 512, 2).unwrap();
    let large = build_graph(1024, 600, 2).unwrap();
    assert_eq!(small.order, large.order);
    for img in small.images.iter() {
        assert_eq!((img.width, img.height), (512, 512));
    }
    for img in large.images.iter() {
        assert_eq!((img.width, img.height), (1024, 600));
        assert_eq!((img.layers, img.samples, img.levels), (1, 1, 1));
    }
    assert_eq!(large.images[HDR].format, ImageFormat::Rgba32Sfloat);
    assert_eq!(large.images[DEPTH].format, ImageFormat::D32Sfloat);
    assert_eq!(large.images[DEPTH].clear, ClearKind::DepthStencil);
    assert_eq!(large.images[COLOR].format, ImageFormat::Surface);
}

#[test]
fn scene_declares_three_images_and_chain() {
    let b = declare_scene();
    assert_eq!(b.images.len(), 3);
    assert_eq!(b.passes.len(), 3);
    assert_eq!(b.passes[MESH_PASS].writes, vec![HDR, DEPTH]);
    assert_eq!(b.passes[POST_EFFECT_PASS].reads, vec![HDR]);
    assert_eq!(b.passes[POST_EFFECT_PASS].depends_on, vec![MESH_PASS]);
    assert_eq!(b.passes[PRESENT_PASS].depends_on, vec![POST_EFFECT_PASS]);
}

#[test]
fn build_graph_reports_frames_in_flight() {
    let g = build_graph(3, 4, 3).unwrap();
    assert_eq!(g.frames_in_flight, 3);
}

#[test]
fn empty_window_is_rejected() {
    assert!(matches!(build_graph(0, 512, 2), Err(BuildError::EmptyExtent)));
    assert!(matches!(build_graph(512, 0, 2), Err(BuildError::EmptyExtent)));
}

#[test]
fn no_frames_in_flight_is_rejected() {
    assert!(matches!(build_graph(512, 512, 0), Err(BuildError::NoFramesInFlight)));
}

#[test]
fn unknown_dependency_is_rejected() {
    let mut b = GraphBuilder::new();
    b.create_image(image(ImageFormat::Surface));
    b.add_node(pass(PassKind::Mesh, vec![], vec![0], vec![7]));
    assert!(matches!(
        b.compile(4, 4, 1),
        Err(BuildError::UnknownPass { pass: 0, dependency: 7 })
    ));
}

#[test]
fn unknown_image_is_rejected() {
    let mut b = GraphBuilder::new();
    b.create_image(image(ImageFormat::Surface));
    b.add_node(pass(PassKind::Mesh, vec![], vec![0], vec![]));
    b.add_node(pass(PassKind::PostEffect, vec![0], vec![5], vec![0]));
    assert!(matches!(
        b.compile(4, 4, 1),
        Err(BuildError::UnknownImage { pass: 1, image: 5 })
    ));
}

#[test]
fn read_without_writer_is_rejected() {
    let mut b = GraphBuilder::new();
    let hdr = b.create_image(image(ImageFormat::Rgba32Sfloat));
    let color = b.create_image(image(ImageFormat::Surface));
    b.add_node(pass(PassKind::PostEffect, vec![hdr], vec![color], vec![]));
    assert!(matches!(b.compile(4, 4, 1), Err(BuildError::MissingWriter { image: 0 })));
}

#[test]
fn cycle_is_rejected() {
    let mut b = GraphBuilder::new();
    let img = b.create_image(image(ImageFormat::Rgba32Sfloat));
    b.add_node(pass(PassKind::Mesh, vec![], vec![img], vec![1]));
    b.add_node(pass(PassKind::PostEffect, vec![img], vec![], vec![0]));
    assert!(matches!(b.compile(4, 4, 1), Err(BuildError::Cycle)));
}

#[test]
fn self_dependency_is_a_cycle() {
    let mut b = GraphBuilder::new();
    b.add_node(pass(PassKind::Mesh, vec![], vec![], vec![0]));
    assert!(matches!(b.compile(4, 4, 1), Err(BuildError::Cycle)));
}

#[test]
fn empty_graph_compiles() {
    let b = GraphBuilder::new();
    let g = b.compile(1, 1, 1).unwrap();
    assert!(g.order.is_empty());
    assert!(g.disposal_order().is_empty());
}

/// Small linear congruential generator, so the DAGs below are reproducible.
struct Lcg(u64);

impl Lcg {
    fn next(&mut self, bound: usize) -> usize {
        self.0 = self.0.wrapping_mul(6364136223846793005).wrapping_add(1442695040888963407);
        ((self.0 >> 33) as usize) % bound
    }
}

#[test]
fn disposal_reverses_execution_on_random_dags() {
    let mut rng = Lcg(7);
    for _ in 0..200 {
        let n = 1 + rng.next(8);
        // a hidden ranking; every edge goes from a lower rank to a higher one
        let mut rank: Vec<usize> = (0..n).collect();
        for i in (1..n).rev() {
            let j = rng.next(i + 1);
            rank.swap(i, j);
        }
        let mut b = GraphBuilder::new();
        let img = b.create_image(image(ImageFormat::Rgba32Sfloat));
        for p in 0..n {
            let deps: Vec<usize> = (0..n).filter(|&q| rank[q] < rank[p] && rng.next(3) == 0).collect();
            b.add_node(pass(PassKind::PostEffect, vec![], vec![img], deps));
        }
        let g = b.compile(16, 16, 2).unwrap();
        assert_eq!(g.order.len(), n);
        let pos = |p: usize| g.order.iter().position(|&x| x == p).unwrap();
        for p in 0..n {
            for &d in b.passes[p].depends_on.iter() {
                assert!(pos(d) < pos(p));
            }
        }
        let disposal = g.disposal_order();
        let mut reversed = g.order.clone();
        reversed.reverse();
        assert_eq!(disposal, reversed);
        let dpos = |p: usize| disposal.iter().position(|&x| x == p).unwrap();
        for p in 0..n {
            for &d in b.passes[p].depends_on.iter() {
                assert!(dpos(p) < dpos(d));
            }
        }
    }
}
