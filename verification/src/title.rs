//! The title scene: a jittered grid of nodes linked by proximity, and
//! walkers that wander from node to node along the links.

use vstd::prelude::*;
use rand::rngs::StdRng;
use crate::rng::{pick_below, seeded};
use crate::utils::{near, Vec2, ONE};

verus! {

/// Nodes per row and per column of the grid.
pub const GRID: usize = 10;

/// Nodes in the whole grid.
pub const NODE_COUNT: usize = 100;

/// Side of one grid cell: a tenth of the unit square.
pub const CELL: i64 = 100_000;

/// Half the side of the unit square, which is centred on the origin.
pub const HALF: i64 = 500_000;

/// Two nodes are linked when they are less than this far apart: 0.115.
pub const MAX_DIST: u32 = 115_000;

/// How many walkers wander over the graph.
pub const WALKER_COUNT: usize = 100;

/// The slowest pace of a walker, in links per second: 0.6.
pub const MIN_PACE: u32 = 600_000;

/// The fastest pace of a walker, in links per second: 1.2.
pub const MAX_PACE: u32 = 1_200_000;

/// The seed of the scene's own pseudo-random source.
pub const LAYOUT_SEED: u64 = 42;

/// A marker on its way from one node to another.
#[derive(Clone, Copy, Debug, PartialEq, Eq, Structural)]
pub struct Walker {
    /// The node it left.
    pub from: usize,
    /// The node it is heading for.
    pub to: usize,
    /// How much of the way it has covered, in millionths.
    pub wt: u32,
    /// Its pace, in millionths of the way per second.
    pub speed: u32,
}

impl Walker {
    /// How far along the walker would be after `dt` more microseconds.
    pub open spec fn progress(self, dt: u32) -> int {
        self.wt + (dt as int * self.speed as int) / (ONE as int)
    }

    /// Whether `dt` more microseconds would carry the walker past its
    /// target.
    pub open spec fn arrives(self, dt: u32) -> bool {
        self.progress(dt) > ONE
    }

    /// The walker further along the same link.
    pub open spec fn advanced(self, dt: u32) -> Walker {
        Walker { wt: self.progress(dt) as u32, ..self }
    }

    /// The walker setting out from its old target toward `next`.
    pub open spec fn rerouted(self, next: usize) -> Walker {
        Walker { from: self.to, to: next, wt: 0, speed: self.speed }
    }

    /// A walker at the start of the link from `from` to `to`.
    pub fn new(from: usize, to: usize, speed: u32) -> (w: Walker)
        ensures
            w == (Walker { from, to, wt: 0, speed }),
    {
        Walker { from, to, wt: 0, speed }
    }

    /// Moves the walker along its link by `dt * speed`, unless that would
    /// carry it past the target: then it stays as it is and the answer is
    /// `true`.
    pub fn advance(&mut self, dt: u32) -> (arrived: bool)
        ensures
            arrived == old(self).arrives(dt),
            arrived ==> *final(self) == *old(self),
            !arrived ==> *final(self) == old(self).advanced(dt),
    {
        assert(0 <= dt as int * self.speed as int <= 0xffff_ffff * 0xffff_ffff) by (nonlinear_arith)
            requires
                0 <= dt <= 0xffff_ffff,
                0 <= self.speed <= 0xffff_ffff,
        ;
        let gain: u64 = (dt as u64 * self.speed as u64) / (ONE as u64);
        proof {
            vstd::arithmetic::div_mod::lemma_div_is_ordered(
                dt as int * self.speed as int,
                0xffff_ffff_ffff_ffffint,
                ONE as int,
            );
        }
        let progress: u64 = self.wt as u64 + gain;
        if progress > ONE as u64 {
            true
        } else {
            self.wt = progress as u32;
            false
        }
    }

    /// Sets the walker out anew: it leaves from where it was heading,
    /// toward `next`.
    pub fn reroute(&mut self, next: usize)
        ensures
            *final(self) == old(self).rerouted(next),
    {
        self.from = self.to;
        self.to = next;
        self.wt = 0;
    }
}

/// A node of the graph: where it lies, and which nodes it is linked to.
pub struct GraphNode {
    pub pos: Vec2,
    pub links: Vec<usize>,
}

/// Where each node lies.
pub open spec fn positions(points: Seq<GraphNode>) -> Seq<Vec2> {
    Seq::new(points.len(), |k: int| points[k].pos)
}

/// Whether the node `k` of the grid lies inside its own cell. Cells are
/// numbered column by column, from the lower left corner of the square.
pub open spec fn in_cell(pos: Vec2, k: int) -> bool {
    let left = (k / 10) * CELL - HALF;
    let bottom = (k % 10) * CELL - HALF;
    left <= pos.x < left + CELL && bottom <= pos.y < bottom + CELL
}

/// Whether two different nodes lie close enough to be linked.
pub open spec fn linked(positions: Seq<Vec2>, a: int, b: int) -> bool {
    a != b && near(positions[a], positions[b], MAX_DIST)
}

/// Whether `links` lists, in rising order and once each, exactly the nodes
/// that are linked to node `a`.
pub open spec fn links_exact(links: Seq<usize>, positions: Seq<Vec2>, a: int) -> bool {
    &&& forall|k: int|
        0 <= k < links.len() ==> (#[trigger] links[k]) < positions.len() && linked(
            positions,
            a,
            links[k] as int,
        )
    &&& forall|k: int, m: int| 0 <= k < m < links.len() ==> #[trigger] links[k] < #[trigger] links[m]
    &&& forall|b: int|
        0 <= b < positions.len() && #[trigger] linked(positions, a, b) ==> links.contains(b as usize)
}

/// What holds of every walker when the scene is built.
pub open spec fn fresh_walker(w: Walker) -> bool {
    &&& w.from < NODE_COUNT
    &&& w.to < NODE_COUNT
    &&& w.from != w.to
    &&& w.wt == 0
    &&& MIN_PACE <= w.speed <= MAX_PACE
}

/// How one tick changes a walker. One that would pass its target sets out
/// again from there, toward a node linked to it, which is never the node
/// itself; where the target has no link it stays put. Any other walker
/// moves along its link.
pub open spec fn walker_stepped(
    before: Walker,
    after: Walker,
    dt: u32,
    points: Seq<GraphNode>,
) -> bool {
    if before.arrives(dt) {
        let links = points[before.to as int].links@;
        &&& after.from == before.to
        &&& after.wt == 0
        &&& after.speed == before.speed
        &&& if links.len() == 0 {
            after.to == before.to
        } else {
            links.contains(after.to)
        }
    } else {
        after == before.advanced(dt)
    }
}

/// A random index below `n` other than `avoid`.
pub fn pick_other(rng: &mut StdRng, n: usize, avoid: usize) -> (r: usize)
    requires
        n > 1,
    ensures
        r < n,
        r != avoid,
{
    let k = pick_below(rng, n - 1);
    if k >= avoid {
        k + 1
    } else {
        k
    }
}

/// Lays out the grid: one node per cell, at a random place inside it, and
/// no links yet.
pub fn scatter(rng: &mut StdRng) -> (points: Vec<GraphNode>)
    ensures
        points@.len() == NODE_COUNT,
        forall|k: int| 0 <= k < NODE_COUNT ==> in_cell(#[trigger] points@[k].pos, k),
        forall|k: int| 0 <= k < NODE_COUNT ==> (#[trigger] points@[k]).links@.len() == 0,
{
    let mut points: Vec<GraphNode> = Vec::new();
    let mut k: usize = 0;
    while k < NODE_COUNT
        invariant
            k <= NODE_COUNT,
            points@.len() == k,
            forall|m: int| 0 <= m < k ==> in_cell(#[trigger] points@[m].pos, m),
            forall|m: int| 0 <= m < k ==> (#[trigger] points@[m]).links@.len() == 0,
        decreases NODE_COUNT - k,
    {
        let column: i64 = (k / GRID) as i64;
        let row: i64 = (k % GRID) as i64;
        let jx: usize = pick_below(rng, CELL as usize);
        let jy: usize = pick_below(rng, CELL as usize);
        let pos = Vec2 { x: column * CELL - HALF + jx as i64, y: row * CELL - HALF + jy as i64 };
        points.push(GraphNode { pos, links: Vec::new() });
        k += 1;
    }
    points
}

/// The nodes linked to node `a`: every other node that lies less than
/// [`MAX_DIST`] away, in rising order.
pub fn neighbours(points: &Vec<GraphNode>, a: usize) -> (links: Vec<usize>)
    requires
        a < points@.len(),
    ensures
        links_exact(links@, positions(points@), a as int),
{
    let ghost places = positions(points@);
    let mut links: Vec<usize> = Vec::new();
    let n = points.len();
    let mut b: usize = 0;
    while b < n
        invariant
            b <= n,
            n == points@.len(),
            a < n,
            places == positions(points@),
            forall|k: int|
                0 <= k < links@.len() ==> (#[trigger] links@[k]) < b && linked(
                    places,
                    a as int,
                    links@[k] as int,
                ),
            forall|k: int, m: int|
                0 <= k < m < links@.len() ==> #[trigger] links@[k] < #[trigger] links@[m],
            forall|c: int|
                0 <= c < b && #[trigger] linked(places, a as int, c) ==> links@.contains(c as usize),
        decreases n - b,
    {
        let ghost before = links@;
        if b != a && points[a].pos.within(points[b].pos, MAX_DIST) {
            links.push(b);
            assert(links@[before.len() as int] == b);
            assert forall|c: int|
                0 <= c < b + 1 && #[trigger] linked(places, a as int, c) implies links@.contains(
                c as usize,
            ) by {
                if c < b {
                    let k = choose|k: int| 0 <= k < before.len() && before[k] == c as usize;
                    assert(links@[k] == c as usize);
                }
            }
        }
        b += 1;
    }
    links
}

/// Links every node to the nodes near it.
pub fn connect(points: &mut Vec<GraphNode>)
    ensures
        final(points)@.len() == old(points)@.len(),
        positions(final(points)@) == positions(old(points)@),
        forall|a: int|
            0 <= a < final(points)@.len() ==> links_exact(
                (#[trigger] final(points)@[a]).links@,
                positions(final(points)@),
                a,
            ),
{
    let ghost places = positions(points@);
    let n = points.len();
    let mut a: usize = 0;
    while a < n
        invariant
            a <= n,
            n == points@.len(),
            positions(points@) =~= places,
            forall|c: int| 0 <= c < a ==> links_exact((#[trigger] points@[c]).links@, places, c),
        decreases n - a,
    {
        let links = neighbours(points, a);
        let pos = points[a].pos;
        let ghost before = points@;
        points.set(a, GraphNode { pos, links });
        assert forall|c: int| 0 <= c < a + 1 implies links_exact(
            (#[trigger] points@[c]).links@,
            places,
            c,
        ) by {
            if c < a {
                assert(points@[c] == before[c]);
            }
        }
        assert(positions(points@) =~= places) by {
            assert forall|k: int| 0 <= k < n implies positions(points@)[k] == places[k] by {
                assert(places[k] == before[k].pos);
            }
        }
        a += 1;
    }
}

/// Places the walkers: each on a random link between two different
/// nodes, at its start, with a random pace.
pub fn spawn(rng: &mut StdRng) -> (walkers: Vec<Walker>)
    ensures
        walkers@.len() == WALKER_COUNT,
        forall|i: int| 0 <= i < WALKER_COUNT ==> fresh_walker(#[trigger] walkers@[i]),
{
    let mut walkers: Vec<Walker> = Vec::new();
    let mut i: usize = 0;
    while i < WALKER_COUNT
        invariant
            i <= WALKER_COUNT,
            walkers@.len() == i,
            forall|k: int| 0 <= k < i ==> fresh_walker(#[trigger] walkers@[k]),
        decreases WALKER_COUNT - i,
    {
        let start = pick_below(rng, NODE_COUNT);
        let end = pick_other(rng, NODE_COUNT, start);
        let spread: usize = pick_below(rng, (MAX_PACE - MIN_PACE + 1) as usize);
        walkers.push(Walker::new(start, end, MIN_PACE + spread as u32));
        i += 1;
    }
    walkers
}

/// The graph, the walkers on it, and the pseudo-random source that routes
/// them.
pub struct TitleScene {
    pub points: Vec<GraphNode>,
    pub walkers: Vec<Walker>,
    pub rng: StdRng,
}

/// A [`TitleScene`] as contracts see it: the graph and the walkers. The
/// state of the pseudo-random source is no part of it.
pub ghost struct TitleView {
    pub points: Seq<GraphNode>,
    pub walkers: Seq<Walker>,
}

impl View for TitleScene {
    type V = TitleView;

    open spec fn view(&self) -> TitleView {
        TitleView { points: self.points@, walkers: self.walkers@ }
    }
}

impl TitleView {
    /// Every link and every walker names a node of the graph, and no node
    /// is linked to itself.
    pub open spec fn wf(self) -> bool {
        &&& forall|a: int, k: int|
            0 <= a < self.points.len() && 0 <= k < self.points[a].links@.len() ==> (
            #[trigger] self.points[a].links@[k]) < self.points.len() && self.points[a].links@[k]
                != a
        &&& forall|i: int|
            0 <= i < self.walkers.len() ==> (#[trigger] self.walkers[i]).from < self.points.len()
                && self.walkers[i].to < self.points.len()
    }

    /// What holds of the scene as it is built: one node in each cell of
    /// the grid, each linked to exactly the nodes near it, and the walkers
    /// at the start of links between different nodes.
    pub open spec fn fresh(self) -> bool {
        &&& self.wf()
        &&& self.points.len() == NODE_COUNT
        &&& forall|k: int| 0 <= k < NODE_COUNT ==> in_cell(#[trigger] self.points[k].pos, k)
        &&& forall|a: int|
            0 <= a < NODE_COUNT ==> links_exact(
                (#[trigger] self.points[a]).links@,
                positions(self.points),
                a,
            )
        &&& self.walkers.len() == WALKER_COUNT
        &&& forall|i: int| 0 <= i < WALKER_COUNT ==> fresh_walker(#[trigger] self.walkers[i])
    }

    /// Whether `after` can follow from this state by one tick of `dt`
    /// microseconds: the graph is the same, and every walker has taken
    /// its step.
    pub open spec fn ticked(self, after: TitleView, dt: u32) -> bool {
        &&& after.points == self.points
        &&& after.walkers.len() == self.walkers.len()
        &&& forall|i: int|
            0 <= i < self.walkers.len() ==> walker_stepped(
                self.walkers[i],
                #[trigger] after.walkers[i],
                dt,
                self.points,
            )
    }
}

/// A walker that arrives at a node with links sets out again at once,
/// from the start of a link, toward a node other than the one it stands
/// on. Every walker still names nodes of the graph after the tick.
pub proof fn lemma_arrival_moves_on(before: TitleView, after: TitleView, dt: u32, i: int)
    requires
        before.wf(),
        before.ticked(after, dt),
        0 <= i < before.walkers.len(),
        before.walkers[i].arrives(dt),
        before.points[before.walkers[i].to as int].links@.len() > 0,
    ensures
        after.walkers[i].wt == 0,
        after.walkers[i].from == before.walkers[i].to,
        after.walkers[i].to != after.walkers[i].from,
        after.walkers[i].to < after.points.len(),
        linked_by(after.points, after.walkers[i].from as int, after.walkers[i].to),
{
    let w = before.walkers[i];
    let links = before.points[w.to as int].links@;
    assert(walker_stepped(w, after.walkers[i], dt, before.points));
    let k = choose|k: int| 0 <= k < links.len() && links[k] == after.walkers[i].to;
    assert(before.points[w.to as int].links@[k] == after.walkers[i].to);
}

/// Whether node `a` lists `b` among its links.
pub open spec fn linked_by(points: Seq<GraphNode>, a: int, b: usize) -> bool {
    points[a].links@.contains(b)
}

impl TitleScene {
    /// Builds the scene from its own seeded source: the jittered grid, the
    /// links between near nodes, and the walkers.
    pub fn new() -> (r: TitleScene)
        ensures
            r@.fresh(),
    {
        let mut rng = seeded(LAYOUT_SEED);
        let mut points = scatter(&mut rng);
        let ghost scattered = points@;
        connect(&mut points);
        let walkers = spawn(&mut rng);
        assert forall|k: int| 0 <= k < NODE_COUNT implies in_cell(#[trigger] points@[k].pos, k) by {
            assert(points@[k].pos == positions(points@)[k]);
            assert(scattered[k].pos == positions(scattered)[k]);
        }
        TitleScene { points, walkers, rng }
    }

    /// Moves every walker by `dt` microseconds; see [`walker_stepped`].
    /// The graph stays as it is.
    pub fn update(&mut self, dt: u32)
        requires
            old(self)@.wf(),
        ensures
            final(self)@.wf(),
            old(self)@.ticked(final(self)@, dt),
    {
        let n = self.walkers.len();
        let mut i: usize = 0;
        while i < n
            invariant
                i <= n,
                n == self.walkers@.len(),
                n == old(self).walkers@.len(),
                self.points@ == old(self).points@,
                self@.wf(),
                forall|k: int|
                    0 <= k < i ==> walker_stepped(
                        old(self).walkers@[k],
                        #[trigger] self.walkers@[k],
                        dt,
                        self.points@,
                    ),
                forall|k: int| i <= k < n ==> #[trigger] self.walkers@[k] == old(self).walkers@[k],
            decreases n - i,
        {
            let mut w = self.walkers[i];
            assert(self@.walkers[i as int] == w);
            if w.advance(dt) {
                let here = w.to;
                let count = self.points[here].links.len();
                let next = if count > 0 {
                    let pick = pick_below(&mut self.rng, count);
                    self.points[here].links[pick]
                } else {
                    here
                };
                w.reroute(next);
            }
            self.walkers.set(i, w);
            i += 1;
        }
    }
}

} // verus!
