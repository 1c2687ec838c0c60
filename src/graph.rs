use vstd::prelude::*;

verus! {

/// Pixel format of a declared image. `Surface` stands for whatever format the
/// presentation surface reports; the shell resolves it.
#[derive(Clone, Copy, Debug, PartialEq, Eq, Structural)]
pub enum ImageFormat {
    Surface,
    Rgba32Sfloat,
    D32Sfloat,
}

/// What an image is cleared to at the start of the frame.
#[derive(Clone, Copy, Debug, PartialEq, Eq, Structural)]
pub enum ClearKind {
    NoClear,
    Color,
    DepthStencil,
}

/// A virtual image: sized to the window, resolved when the graph compiles.
#[derive(Clone, Copy, Debug, PartialEq, Eq, Structural)]
pub struct ImageDecl {
    pub format: ImageFormat,
    pub levels: u8,
    pub clear: ClearKind,
}

/// A virtual image resolved against a concrete window size.
#[derive(Clone, Copy, Debug, PartialEq, Eq, Structural)]
pub struct ResolvedImage {
    pub width: u32,
    pub height: u32,
    pub layers: u16,
    pub samples: u8,
    pub levels: u8,
    pub format: ImageFormat,
    pub clear: ClearKind,
}

#[derive(Clone, Copy, Debug, PartialEq, Eq, Structural)]
pub enum PassKind {
    Mesh,
    PostEffect,
    Present,
}

/// A pass: the images it reads and writes (indices into the image table) and
/// the passes it depends on (indices into the pass table).
#[derive(Debug)]
pub struct PassDecl {
    pub kind: PassKind,
    pub reads: Vec<usize>,
    pub writes: Vec<usize>,
    pub depends_on: Vec<usize>,
}

#[derive(Clone, Copy, Debug, PartialEq, Eq, Structural)]
pub enum BuildError {
    /// The window has no area.
    EmptyExtent,
    /// The device reported no frame in flight.
    NoFramesInFlight,
    /// A pass depends on a pass that was never added.
    UnknownPass { pass: usize, dependency: usize },
    /// A pass reads or writes an image that was never created.
    UnknownImage { pass: usize, image: usize },
    /// A pass reads an image that no pass writes.
    MissingWriter { image: usize },
    /// The dependencies do not form a DAG.
    Cycle,
}

pub open spec fn deps_valid(passes: Seq<PassDecl>) -> bool {
    forall|p: int, k: int|
        0 <= p < passes.len() && 0 <= k < passes[p].depends_on@.len()
            ==> #[trigger] passes[p].depends_on@[k] < passes.len()
}

pub open spec fn images_valid(passes: Seq<PassDecl>, n_images: nat) -> bool {
    &&& forall|p: int, k: int|
        0 <= p < passes.len() && 0 <= k < passes[p].reads@.len()
            ==> #[trigger] passes[p].reads@[k] < n_images
    &&& forall|p: int, k: int|
        0 <= p < passes.len() && 0 <= k < passes[p].writes@.len()
            ==> #[trigger] passes[p].writes@[k] < n_images
}

/// Some pass writes `image`.
pub open spec fn written(passes: Seq<PassDecl>, image: usize) -> bool {
    exists|p: int, k: int|
        0 <= p < passes.len() && 0 <= k < passes[p].writes@.len() && #[trigger] passes[p].writes@[k]
            == image
}

/// Some pass reads `image`.
pub open spec fn read(passes: Seq<PassDecl>, image: usize) -> bool {
    exists|p: int, k: int|
        0 <= p < passes.len() && 0 <= k < passes[p].reads@.len() && #[trigger] passes[p].reads@[k]
            == image
}

pub open spec fn reads_written(passes: Seq<PassDecl>) -> bool {
    forall|image: usize| read(passes, image) ==> written(passes, image)
}

/// `a` runs strictly before `b` in `order`.
pub open spec fn runs_before(order: Seq<usize>, a: usize, b: usize) -> bool {
    exists|i: int, j: int| 0 <= i < j < order.len() && #[trigger] order[i] == a && #[trigger] order[j] == b
}

/// `order` runs every pass exactly once, each after all of its dependencies.
pub open spec fn is_schedule(passes: Seq<PassDecl>, order: Seq<usize>) -> bool {
    &&& order.no_duplicates()
    &&& forall|i: int| 0 <= i < order.len() ==> #[trigger] order[i] < passes.len()
    &&& forall|p: usize| p < passes.len() ==> #[trigger] order.contains(p)
    &&& forall|p: int, k: int|
        0 <= p < passes.len() && 0 <= k < passes[p].depends_on@.len() ==> runs_before(
            order,
            #[trigger] passes[p].depends_on@[k],
            p as usize,
        )
}

/// The dependencies admit an execution order.
pub open spec fn acyclic(passes: Seq<PassDecl>) -> bool {
    exists|order: Seq<usize>| is_schedule(passes, order)
}

pub open spec fn resolve(d: ImageDecl, width: u32, height: u32) -> ResolvedImage {
    ResolvedImage {
        width,
        height,
        layers: 1,
        samples: 1,
        levels: d.levels,
        format: d.format,
        clear: d.clear,
    }
}

/// Number of entries of `placed` that are still false.
pub open spec fn count_unplaced(placed: Seq<bool>) -> nat
    decreases placed.len(),
{
    if placed.len() == 0 {
        0
    } else {
        count_unplaced(placed.drop_last()) + if placed.last() {
            0nat
        } else {
            1nat
        }
    }
}

proof fn lemma_place(placed: Seq<bool>, i: int)
    requires
        0 <= i < placed.len(),
        !placed[i],
    ensures
        count_unplaced(placed.update(i, true)) + 1 == count_unplaced(placed),
    decreases placed.len(),
{
    if i == placed.len() - 1 {
        assert(placed.update(i, true).drop_last() =~= placed.drop_last());
    } else {
        lemma_place(placed.drop_last(), i);
        assert(placed.update(i, true).drop_last() =~= placed.drop_last().update(i, true));
    }
}

/// Where every unplaced pass waits on another unplaced pass, a schedule would
/// have to run one of them first: none exists.
proof fn lemma_stuck_means_cycle(passes: Seq<PassDecl>, placed: Seq<bool>, q: usize)
    requires
        deps_valid(passes),
        placed.len() == passes.len(),
        q < passes.len(),
        !placed[q as int],
        forall|p: int|
            0 <= p < passes.len() && !placed[p] ==> exists|k: int|
                0 <= k < passes[p].depends_on@.len() && !#[trigger] placed[passes[p].depends_on@[k] as int],
    ensures
        !acyclic(passes),
{
    if acyclic(passes) {
        let order = choose|order: Seq<usize>| is_schedule(passes, order);
        assert(order.contains(q));
        let i = choose|i: int| 0 <= i < order.len() && order[i] == q;
        lemma_schedule_prefix_placed(passes, placed, order, i);
    }
}

proof fn lemma_schedule_prefix_placed(
    passes: Seq<PassDecl>,
    placed: Seq<bool>,
    order: Seq<usize>,
    i: int,
)
    requires
        deps_valid(passes),
        placed.len() == passes.len(),
        is_schedule(passes, order),
        0 <= i < order.len(),
        forall|p: int|
            0 <= p < passes.len() && !placed[p] ==> exists|k: int|
                0 <= k < passes[p].depends_on@.len() && !#[trigger] placed[passes[p].depends_on@[k] as int],
    ensures
        placed[order[i] as int],
    decreases i,
{
    let p = order[i] as int;
    assert(order[i] < passes.len());
    if !placed[p] {
        let k = choose|k: int|
            0 <= k < passes[p].depends_on@.len() && !#[trigger] placed[passes[p].depends_on@[k] as int];
        let d = passes[p].depends_on@[k];
        assert(runs_before(order, d, p as usize));
        let (a, b) = choose|a: int, b: int|
            0 <= a < b < order.len() && #[trigger] order[a] == d && #[trigger] order[b] == p as usize;
        assert(b == i);
        lemma_schedule_prefix_placed(passes, placed, order, a);
    }
}

/// The `k`-th dependency of the pass at position `x` of `order` stands
/// earlier in `order`.
pub open spec fn dep_earlier(passes: Seq<PassDecl>, order: Seq<usize>, x: int, k: int) -> bool {
    exists|j: int|
        0 <= j < x && #[trigger] order[j] == passes[order[x] as int].depends_on@[k]
}

enum Pick {
    Next(usize),
    Done,
    Stuck(usize),
}

pub struct GraphBuilder {
    pub images: Vec<ImageDecl>,
    pub passes: Vec<PassDecl>,
}

impl GraphBuilder {
    /// The first pass not yet placed whose dependencies all are.
    fn pick_ready(&self, placed: &Vec<bool>) -> (r: Pick)
        requires
            deps_valid(self.passes@),
            placed@.len() == self.passes@.len(),
        ensures
            match r {
                Pick::Next(p) => p < self.passes@.len() && !placed@[p as int] && forall|k: int|
                    0 <= k < self.passes@[p as int].depends_on@.len()
                        ==> #[trigger] placed@[self.passes@[p as int].depends_on@[k] as int],
                Pick::Done => forall|p: int| 0 <= p < placed@.len() ==> #[trigger] placed@[p],
                Pick::Stuck(q) => q < self.passes@.len() && !placed@[q as int] && forall|p: int|
                    0 <= p < self.passes@.len() && !placed@[p] ==> exists|k: int|
                        0 <= k < self.passes@[p].depends_on@.len()
                            && !#[trigger] placed@[self.passes@[p].depends_on@[k] as int],
            },
    {
        let n = self.passes.len();
        let mut waiting: Option<usize> = None;
        let mut p: usize = 0;
        while p < n
            invariant
                p <= n,
                n == self.passes@.len(),
                deps_valid(self.passes@),
                placed@.len() == n,
                match waiting {
                    Some(q) => q < n && !placed@[q as int],
                    None => forall|x: int| 0 <= x < p ==> #[trigger] placed@[x],
                },
                forall|x: int|
                    0 <= x < p && !placed@[x] ==> exists|k: int|
                        0 <= k < self.passes@[x].depends_on@.len()
                            && !#[trigger] placed@[self.passes@[x].depends_on@[k] as int],
            decreases n - p,
        {
            if !placed[p] {
                let deps = &self.passes[p].depends_on;
                let mut k: usize = 0;
                let mut ready = true;
                while k < deps.len()
                    invariant
                        k <= deps@.len(),
                        deps@ == self.passes@[p as int].depends_on@,
                        p < n,
                        n == self.passes@.len(),
                        deps_valid(self.passes@),
                        placed@.len() == n,
                        ready ==> forall|j: int| 0 <= j < k ==> #[trigger] placed@[deps@[j] as int],
                        !ready ==> exists|j: int| 0 <= j < deps@.len() && !#[trigger] placed@[deps@[j] as int],
                    decreases deps@.len() - k,
                {
                    assert(deps@[k as int] < n);
                    if !placed[deps[k]] {
                        ready = false;
                    }
                    k = k + 1;
                }
                if ready {
                    return Pick::Next(p);
                }
                waiting = Some(p);
            }
            p = p + 1;
        }
        match waiting {
            Some(q) => Pick::Stuck(q),
            None => Pick::Done,
        }
    }

    /// Orders the passes so that each runs after all of its dependencies.
    pub fn schedule(&self) -> (r: Option<Vec<usize>>)
        requires
            deps_valid(self.passes@),
        ensures
            r is Some <==> acyclic(self.passes@),
            r matches Some(order) ==> is_schedule(self.passes@, order@),
    {
        let n = self.passes.len();
        let mut placed: Vec<bool> = Vec::new();
        let mut i: usize = 0;
        while i < n
            invariant
                i <= n,
                placed@.len() == i,
                forall|x: int| 0 <= x < i ==> !#[trigger] placed@[x],
            decreases n - i,
        {
            placed.push(false);
            i = i + 1;
        }
        let mut order: Vec<usize> = Vec::new();
        loop
            invariant
                n == self.passes@.len(),
                deps_valid(self.passes@),
                placed@.len() == n,
                order@.no_duplicates(),
                forall|x: int| 0 <= x < order@.len() ==> #[trigger] order@[x] < n,
                forall|q: usize| q < n ==> (placed@[q as int] <==> #[trigger] order@.contains(q)),
                forall|x: int, k: int|
                    0 <= x < order@.len() && 0 <= k < self.passes@[order@[x] as int].depends_on@.len()
                        ==> #[trigger] dep_earlier(self.passes@, order@, x, k),
            decreases count_unplaced(placed@),
        {
            match self.pick_ready(&placed) {
                Pick::Next(p) => {
                    proof {
                        lemma_place(placed@, p as int);
                        assert forall|k: int|
                            0 <= k < self.passes@[p as int].depends_on@.len() implies exists|j: int|
                                0 <= j < order@.len() && #[trigger] order@[j]
                                    == #[trigger] self.passes@[p as int].depends_on@[k] by {
                            let d = self.passes@[p as int].depends_on@[k];
                            assert(placed@[d as int]);
                            assert(order@.contains(d));
                        }
                    }
                    let ghost before = order@;
                    placed.set(p, true);
                    order.push(p);
                    proof {
                        assert(order@ == before.push(p));
                        assert forall|a: int, b: int|
                            0 <= a < order@.len() && 0 <= b < order@.len() && a != b implies order@[a]
                            != order@[b] by {
                            if a == before.len() && order@[b] == p {
                                assert(before.contains(p));
                            }
                            if b == before.len() && order@[a] == p {
                                assert(before.contains(p));
                            }
                        }
                        assert forall|x: int, k: int|
                            0 <= x < order@.len() && 0 <= k
                                < self.passes@[order@[x] as int].depends_on@.len() implies #[trigger] dep_earlier(
                            self.passes@,
                            order@,
                            x,
                            k,
                        ) by {
                            if x < before.len() {
                                assert(dep_earlier(self.passes@, before, x, k));
                                let j = choose|j: int|
                                    0 <= j < x && #[trigger] before[j]
                                        == self.passes@[before[x] as int].depends_on@[k];
                                assert(order@[j] == before[j]);
                            } else {
                                let j = choose|j: int|
                                    0 <= j < before.len() && #[trigger] before[j]
                                        == self.passes@[p as int].depends_on@[k];
                                assert(order@[j] == before[j]);
                            }
                        }
                        assert forall|q: usize| q < n implies (placed@[q as int]
                            <==> #[trigger] order@.contains(q)) by {
                            if q == p {
                                assert(order@[before.len() as int] == p);
                            } else if before.contains(q) {
                                let j = choose|j: int| 0 <= j < before.len() && before[j] == q;
                                assert(order@[j] == q);
                            }
                        }
                    }
                },
                Pick::Done => {
                    proof {
                        assert forall|p: int, k: int|
                            0 <= p < self.passes@.len() && 0 <= k
                                < self.passes@[p].depends_on@.len() implies runs_before(
                            order@,
                            #[trigger] self.passes@[p].depends_on@[k],
                            p as usize,
                        ) by {
                            assert(placed@[p]);
                            assert(order@.contains(p as usize));
                            let x = choose|x: int| 0 <= x < order@.len() && order@[x] == p as usize;
                            assert(dep_earlier(self.passes@, order@, x, k));
                            let j = choose|j: int|
                                0 <= j < x && #[trigger] order@[j]
                                    == self.passes@[order@[x] as int].depends_on@[k];
                            assert(0 <= j < x < order@.len() && order@[j]
                                == self.passes@[p].depends_on@[k] && order@[x] == p as usize);
                        }
                        assert(is_schedule(self.passes@, order@));
                    }
                    return Some(order);
                },
                Pick::Stuck(q) => {
                    proof {
                        lemma_stuck_means_cycle(self.passes@, placed@, q);
                    }
                    return None;
                },
            }
        }
    }
}


impl GraphBuilder {
    /// A pass and a dependency of it that names no pass.
    fn find_unknown_pass(&self) -> (r: Option<(usize, usize)>)
        ensures
            r is None <==> deps_valid(self.passes@),
            r matches Some((p, d)) ==> p < self.passes@.len() && d >= self.passes@.len()
                && self.passes@[p as int].depends_on@.contains(d),
    {
        let n = self.passes.len();
        let mut p: usize = 0;
        while p < n
            invariant
                p <= n,
                n == self.passes@.len(),
                forall|x: int, k: int|
                    0 <= x < p && 0 <= k < self.passes@[x].depends_on@.len()
                        ==> #[trigger] self.passes@[x].depends_on@[k] < n,
            decreases n - p,
        {
            let deps = &self.passes[p].depends_on;
            let mut k: usize = 0;
            while k < deps.len()
                invariant
                    k <= deps@.len(),
                    p < n,
                    n == self.passes@.len(),
                    deps@ == self.passes@[p as int].depends_on@,
                    forall|j: int| 0 <= j < k ==> #[trigger] deps@[j] < n,
                decreases deps@.len() - k,
            {
                if deps[k] >= n {
                    assert(deps@[k as int] == deps[k as int]);
                    return Some((p, deps[k]));
                }
                k = k + 1;
            }
            p = p + 1;
        }
        None
    }

    /// A pass and an image it reads or writes that was never created.
    fn find_unknown_image(&self) -> (r: Option<(usize, usize)>)
        ensures
            r is None <==> images_valid(self.passes@, self.images@.len()),
            r matches Some((p, i)) ==> p < self.passes@.len() && i >= self.images@.len() && (
            self.passes@[p as int].reads@.contains(i) || self.passes@[p as int].writes@.contains(i)),
    {
        let n = self.passes.len();
        let m = self.images.len();
        let mut p: usize = 0;
        while p < n
            invariant
                p <= n,
                n == self.passes@.len(),
                m == self.images@.len(),
                forall|x: int, k: int|
                    0 <= x < p && 0 <= k < self.passes@[x].reads@.len()
                        ==> #[trigger] self.passes@[x].reads@[k] < m,
                forall|x: int, k: int|
                    0 <= x < p && 0 <= k < self.passes@[x].writes@.len()
                        ==> #[trigger] self.passes@[x].writes@[k] < m,
            decreases n - p,
        {
            let reads = &self.passes[p].reads;
            let mut k: usize = 0;
            while k < reads.len()
                invariant
                    k <= reads@.len(),
                    p < n,
                    n == self.passes@.len(),
                    m == self.images@.len(),
                    reads@ == self.passes@[p as int].reads@,
                    forall|j: int| 0 <= j < k ==> #[trigger] reads@[j] < m,
                decreases reads@.len() - k,
            {
                if reads[k] >= m {
                    assert(reads@[k as int] == reads[k as int]);
                    return Some((p, reads[k]));
                }
                k = k + 1;
            }
            let writes = &self.passes[p].writes;
            let mut k: usize = 0;
            while k < writes.len()
                invariant
                    k <= writes@.len(),
                    p < n,
                    n == self.passes@.len(),
                    m == self.images@.len(),
                    writes@ == self.passes@[p as int].writes@,
                    forall|j: int| 0 <= j < k ==> #[trigger] writes@[j] < m,
                decreases writes@.len() - k,
            {
                if writes[k] >= m {
                    assert(writes@[k as int] == writes[k as int]);
                    return Some((p, writes[k]));
                }
                k = k + 1;
            }
            p = p + 1;
        }
        None
    }

    fn is_written(&self, image: usize) -> (r: bool)
        ensures
            r == written(self.passes@, image),
    {
        let n = self.passes.len();
        let mut p: usize = 0;
        while p < n
            invariant
                p <= n,
                n == self.passes@.len(),
                forall|x: int, k: int|
                    0 <= x < p && 0 <= k < self.passes@[x].writes@.len()
                        ==> #[trigger] self.passes@[x].writes@[k] != image,
            decreases n - p,
        {
            let writes = &self.passes[p].writes;
            let mut k: usize = 0;
            while k < writes.len()
                invariant
                    k <= writes@.len(),
                    p < n,
                    n == self.passes@.len(),
                    writes@ == self.passes@[p as int].writes@,
                    forall|j: int| 0 <= j < k ==> #[trigger] writes@[j] != image,
                decreases writes@.len() - k,
            {
                if writes[k] == image {
                    assert(self.passes@[p as int].writes@[k as int] == image);
                    return true;
                }
                k = k + 1;
            }
            p = p + 1;
        }
        false
    }

    /// An image that some pass reads and no pass writes.
    fn find_unwritten_read(&self) -> (r: Option<usize>)
        ensures
            r is None <==> reads_written(self.passes@),
            r matches Some(i) ==> read(self.passes@, i) && !written(self.passes@, i),
    {
        let n = self.passes.len();
        let mut p: usize = 0;
        while p < n
            invariant
                p <= n,
                n == self.passes@.len(),
                forall|x: int, k: int|
                    0 <= x < p && 0 <= k < self.passes@[x].reads@.len() ==> written(
                        self.passes@,
                        #[trigger] self.passes@[x].reads@[k],
                    ),
            decreases n - p,
        {
            let reads = &self.passes[p].reads;
            let mut k: usize = 0;
            while k < reads.len()
                invariant
                    k <= reads@.len(),
                    p < n,
                    n == self.passes@.len(),
                    reads@ == self.passes@[p as int].reads@,
                    forall|j: int| 0 <= j < k ==> written(self.passes@, #[trigger] reads@[j]),
                decreases reads@.len() - k,
            {
                if !self.is_written(reads[k]) {
                    assert(self.passes@[p as int].reads@[k as int] == reads@[k as int]);
                    return Some(reads[k]);
                }
                k = k + 1;
            }
            p = p + 1;
        }
        proof {
            assert forall|image: usize| read(self.passes@, image) implies written(
                self.passes@,
                image,
            ) by {
                let (x, k) = choose|x: int, k: int|
                    0 <= x < self.passes@.len() && 0 <= k < self.passes@[x].reads@.len()
                        && #[trigger] self.passes@[x].reads@[k] == image;
            }
        }
        None
    }
}

/// A graph whose passes are ordered and whose images are resolved.
pub struct CompiledGraph {
    /// Pass indices in execution order.
    pub order: Vec<usize>,
    /// Kind of each pass, by pass index.
    pub kinds: Vec<PassKind>,
    /// Resolved images, by image index.
    pub images: Vec<ResolvedImage>,
    pub frames_in_flight: u32,
}

impl GraphBuilder {
    pub fn new() -> (r: GraphBuilder)
        ensures
            r.images@.len() == 0,
            r.passes@.len() == 0,
    {
        GraphBuilder { images: Vec::new(), passes: Vec::new() }
    }

    /// Declares an image and returns its index.
    pub fn create_image(&mut self, image: ImageDecl) -> (r: usize)
        ensures
            r == old(self).images@.len(),
            final(self).images@ == old(self).images@.push(image),
            final(self).passes@ == old(self).passes@,
    {
        let r = self.images.len();
        self.images.push(image);
        r
    }

    /// Registers a pass and returns its index.
    pub fn add_node(&mut self, pass: PassDecl) -> (r: usize)
        ensures
            r == old(self).passes@.len(),
            final(self).passes@ == old(self).passes@.push(pass),
            final(self).images@ == old(self).images@,
    {
        let r = self.passes.len();
        self.passes.push(pass);
        r
    }

    /// Checks the declarations, orders the passes and sizes every image to
    /// the window.
    pub fn compile(&self, width: u32, height: u32, frames_in_flight: u32) -> (r: Result<
        CompiledGraph,
        BuildError,
    >)
        ensures
            r is Ok <==> (width > 0 && height > 0 && frames_in_flight > 0 && deps_valid(
                self.passes@,
            ) && images_valid(self.passes@, self.images@.len()) && reads_written(self.passes@)
                && acyclic(self.passes@)),
            match r {
                Ok(g) => {
                    &&& is_schedule(self.passes@, g.order@)
                    &&& g.frames_in_flight == frames_in_flight
                    &&& g.kinds@.len() == self.passes@.len()
                    &&& forall|p: int|
                        0 <= p < self.passes@.len() ==> #[trigger] g.kinds@[p] == self.passes@[p].kind
                    &&& g.images@.len() == self.images@.len()
                    &&& forall|i: int|
                        0 <= i < self.images@.len() ==> #[trigger] g.images@[i] == resolve(
                            self.images@[i],
                            width,
                            height,
                        )
                },
                Err(BuildError::EmptyExtent) => width == 0 || height == 0,
                Err(BuildError::NoFramesInFlight) => width > 0 && height > 0 && frames_in_flight
                    == 0,
                Err(BuildError::UnknownPass { pass, dependency }) => {
                    &&& width > 0 && height > 0 && frames_in_flight > 0
                    &&& pass < self.passes@.len()
                    &&& dependency >= self.passes@.len()
                    &&& self.passes@[pass as int].depends_on@.contains(dependency)
                },
                Err(BuildError::UnknownImage { pass, image }) => {
                    &&& width > 0 && height > 0 && frames_in_flight > 0
                    &&& deps_valid(self.passes@)
                    &&& pass < self.passes@.len()
                    &&& image >= self.images@.len()
                    &&& (self.passes@[pass as int].reads@.contains(image)
                        || self.passes@[pass as int].writes@.contains(image))
                },
                Err(BuildError::MissingWriter { image }) => {
                    &&& width > 0 && height > 0 && frames_in_flight > 0
                    &&& deps_valid(self.passes@)
                    &&& images_valid(self.passes@, self.images@.len())
                    &&& read(self.passes@, image)
                    &&& !written(self.passes@, image)
                },
                Err(BuildError::Cycle) => {
                    &&& width > 0 && height > 0 && frames_in_flight > 0
                    &&& deps_valid(self.passes@)
                    &&& images_valid(self.passes@, self.images@.len())
                    &&& reads_written(self.passes@)
                    &&& !acyclic(self.passes@)
                },
            },
    {
        if width == 0 || height == 0 {
            return Err(BuildError::EmptyExtent);
        }
        if frames_in_flight == 0 {
            return Err(BuildError::NoFramesInFlight);
        }
        if let Some((pass, dependency)) = self.find_unknown_pass() {
            return Err(BuildError::UnknownPass { pass, dependency });
        }
        if let Some((pass, image)) = self.find_unknown_image() {
            return Err(BuildError::UnknownImage { pass, image });
        }
        if let Some(image) = self.find_unwritten_read() {
            return Err(BuildError::MissingWriter { image });
        }
        let order = match self.schedule() {
            Some(order) => order,
            None => {
                return Err(BuildError::Cycle);
            },
        };
        let mut images: Vec<ResolvedImage> = Vec::new();
        let mut i: usize = 0;
        while i < self.images.len()
            invariant
                i <= self.images@.len(),
                images@.len() == i,
                forall|j: int| 0 <= j < i ==> #[trigger] images@[j] == resolve(self.images@[j], width, height),
            decreases self.images@.len() - i,
        {
            let d = self.images[i];
            images.push(
                ResolvedImage {
                    width,
                    height,
                    layers: 1,
                    samples: 1,
                    levels: d.levels,
                    format: d.format,
                    clear: d.clear,
                },
            );
            i = i + 1;
        }
        let mut kinds: Vec<PassKind> = Vec::new();
        let mut p: usize = 0;
        while p < self.passes.len()
            invariant
                p <= self.passes@.len(),
                kinds@.len() == p,
                forall|j: int| 0 <= j < p ==> #[trigger] kinds@[j] == self.passes@[j].kind,
            decreases self.passes@.len() - p,
        {
            kinds.push(self.passes[p].kind);
            p = p + 1;
        }
        Ok(CompiledGraph { order, kinds, images, frames_in_flight })
    }
}

impl CompiledGraph {
    /// The order in which passes are torn down: the execution order reversed.
    pub fn disposal_order(&self) -> (r: Vec<usize>)
        ensures
            r@ == self.order@.reverse(),
    {
        let n = self.order.len();
        let mut r: Vec<usize> = Vec::new();
        let mut i: usize = 0;
        while i < n
            invariant
                i <= n,
                n == self.order@.len(),
                r@.len() == i,
                forall|j: int| 0 <= j < i ==> #[trigger] r@[j] == self.order@[n - 1 - j],
            decreases n - i,
        {
            r.push(self.order[n - 1 - i]);
            i = i + 1;
        }
        assert(r@ =~= self.order@.reverse());
        r
    }
}

/// Disposing of passes in the reverse of any valid execution order tears down
/// every pass before each pass it depends on.
pub proof fn lemma_disposal_precedes_dependencies(passes: Seq<PassDecl>, order: Seq<usize>)
    requires
        is_schedule(passes, order),
    ensures
        forall|p: int, k: int|
            0 <= p < passes.len() && 0 <= k < passes[p].depends_on@.len() ==> runs_before(
                order.reverse(),
                p as usize,
                #[trigger] passes[p].depends_on@[k],
            ),
{
    assert forall|p: int, k: int|
        0 <= p < passes.len() && 0 <= k < passes[p].depends_on@.len() implies runs_before(
        order.reverse(),
        p as usize,
        #[trigger] passes[p].depends_on@[k],
    ) by {
        let d = passes[p].depends_on@[k];
        assert(runs_before(order, d, p as usize));
        let (i, j) = choose|i: int, j: int|
            0 <= i < j < order.len() && #[trigger] order[i] == d && #[trigger] order[j] == p as usize;
        let n = order.len();
        let rev = order.reverse();
        assert(rev[n - 1 - j] == p as usize);
        assert(rev[n - 1 - i] == d);
    }
}

/// Where three passes form the chain `a` before `b` before `c`, the only
/// execution order is `[a, b, c]`, whatever indices they were declared under.
pub proof fn lemma_chain_has_one_schedule(
    passes: Seq<PassDecl>,
    order: Seq<usize>,
    a: usize,
    b: usize,
    c: usize,
)
    requires
        passes.len() == 3,
        a < 3 && b < 3 && c < 3,
        a != b && b != c && a != c,
        passes[b as int].depends_on@.contains(a),
        passes[c as int].depends_on@.contains(b),
        is_schedule(passes, order),
    ensures
        order == seq![a, b, c],
{
    let ka = choose|k: int| 0 <= k < passes[b as int].depends_on@.len() && passes[b as int].depends_on@[k] == a;
    let kb = choose|k: int| 0 <= k < passes[c as int].depends_on@.len() && passes[c as int].depends_on@[k] == b;
    assert(runs_before(order, passes[b as int].depends_on@[ka], b));
    assert(runs_before(order, passes[c as int].depends_on@[kb], c));
    let (ia, ib) = choose|i: int, j: int|
        0 <= i < j < order.len() && #[trigger] order[i] == a && #[trigger] order[j] == b;
    let (ib2, ic) = choose|i: int, j: int|
        0 <= i < j < order.len() && #[trigger] order[i] == b && #[trigger] order[j] == c;
    assert(ib2 == ib);
    if order.len() > 3 {
        assert(0 == ia || 0 == ib || 0 == ic) by {
            assert(order[0] < 3);
        }
        assert(1 == ia || 1 == ib || 1 == ic) by {
            assert(order[1] < 3);
        }
        assert(2 == ia || 2 == ib || 2 == ic) by {
            assert(order[2] < 3);
        }
        assert(3 == ia || 3 == ib || 3 == ic) by {
            assert(order[3] < 3);
        }
    }
    assert(order.len() == 3);
    assert(ia == 0 && ib == 1 && ic == 2);
    assert(order =~= seq![a, b, c]);
}

} // verus!
