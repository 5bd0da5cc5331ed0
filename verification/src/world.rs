//! World-level vocabulary (axes and face directions) and the grid of chunks.

use vstd::prelude::*;
use crate::chunk::Chunk;

verus! {

/// One of the three principal axes of the voxel grid.
#[derive(Clone, Copy, Debug, PartialEq, Eq, Structural)]
pub enum Axis {
    X,
    Y,
    Z,
}

/// A face direction in world space. `East`/`West` are the negative/positive
/// X sides of a block, `Up`/`Down` the positive/negative Y sides, and
/// `North`/`South` the positive/negative Z sides.
#[derive(Clone, Copy, Debug, PartialEq, Eq, Structural)]
pub enum Direction {
    North,
    South,
    East,
    West,
    Up,
    Down,
}

impl Direction {
    /// Whether the face sits on the positive side of its axis, so that the
    /// neighbouring layer in the positive direction would cover it.
    pub open spec fn spec_is_positive_side(&self) -> bool {
        match self {
            Direction::West | Direction::Up | Direction::North => true,
            Direction::East | Direction::Down | Direction::South => false,
        }
    }

    #[verifier::when_used_as_spec(spec_is_positive_side)]
    pub fn is_positive_side(&self) -> (r: bool)
        ensures
            r == self.spec_is_positive_side(),
    {
        match self {
            Direction::West | Direction::Up | Direction::North => true,
            Direction::East | Direction::Down | Direction::South => false,
        }
    }
}

/// The world: a growable collection of chunks, each sitting at a distinct
/// grid coordinate, plus the seed and render distance the game was set up
/// with. Chunk lifecycle is elementary for now: chunks are generated on
/// demand and never evicted.
pub struct World {
    pub chunks: Vec<Chunk>,
    pub seed: i64,
    pub render_distance: i32,
}

impl World {
    /// The stored chunks, in insertion order.
    pub open spec fn chunks_view(&self) -> Seq<Chunk> {
        self.chunks@
    }

    pub open spec fn spec_seed(&self) -> i64 {
        self.seed
    }

    pub open spec fn spec_render_distance(&self) -> i32 {
        self.render_distance
    }

    /// Every stored chunk is well formed, no two chunks share a grid
    /// coordinate, and the render distance is a sensible radius.
    pub open spec fn wf(&self) -> bool {
        &&& forall|n: int|
            0 <= n < self.chunks@.len() ==> (#[trigger] self.chunks@[n]).wf()
        &&& forall|n: int, m: int|
            0 <= n < m < self.chunks@.len() ==> !(#[trigger] self.chunks@[n]).same_coords(
                #[trigger] self.chunks@[m],
            )
        &&& self.render_distance >= 0
    }

    /// Whether chunk `c` falls inside the render cube around the chunk the
    /// eye is in: within `render_distance` chunks below or at, and strictly
    /// less than `render_distance` chunks above, on every axis.
    pub open spec fn within_render_distance(
        &self,
        c: Chunk,
        eye_x: i64,
        eye_y: i64,
        eye_z: i64,
    ) -> bool {
        let d = self.render_distance as int;
        &&& eye_x - d <= c.chunk_i < eye_x + d
        &&& eye_y - d <= c.chunk_j < eye_y + d
        &&& eye_z - d <= c.chunk_k < eye_z + d
    }

    /// Whether some stored chunk sits at grid coordinate `(x, y, z)`.
    pub open spec fn has_chunk_at(&self, x: i64, y: i64, z: i64) -> bool {
        exists|n: int|
            0 <= n < self.chunks@.len() && (#[trigger] self.chunks@[n]).at_coords(x, y, z)
    }

    /// Makes an empty world for the given seed.
    pub fn new(seed: i64) -> (w: World)
        ensures
            w.wf(),
            w.chunks_view() == Seq::<Chunk>::empty(),
            w.spec_seed() == seed,
            w.spec_render_distance() == 6,
    {
        World { chunks: Vec::new(), seed, render_distance: 6 }
    }

    /// How many chunks have been generated so far.
    pub fn chunk_count(&self) -> (n: usize)
        ensures
            n == self.chunks_view().len(),
    {
        self.chunks.len()
    }

    /// Looks up the position of the chunk at grid coordinate `(x, y, z)`,
    /// if one has been generated.
    pub fn chunk_index_at(&self, x: i64, y: i64, z: i64) -> (r: Option<usize>)
        ensures
            match r {
                Some(n) => n < self.chunks_view().len() && self.chunks_view()[n as int].at_coords(
                    x,
                    y,
                    z,
                ),
                None => !self.has_chunk_at(x, y, z),
            },
    {
        let mut n: usize = 0;
        while n < self.chunks.len()
            invariant
                n <= self.chunks@.len(),
                forall|m: int| 0 <= m < n ==> !(#[trigger] self.chunks@[m]).at_coords(x, y, z),
            decreases self.chunks@.len() - n,
        {
            if self.chunks[n].has_coords(x, y, z) {
                return Some(n);
            }
            n += 1;
        }
        None
    }

    /// A borrow of the chunk at position `n`.
    pub fn chunk_at_index(&self, n: usize) -> (c: &Chunk)
        requires
            n < self.chunks_view().len(),
        ensures
            *c == self.chunks_view()[n as int],
    {
        &self.chunks[n]
    }

    /// The positions of the chunks the renderer should draw for an eye in
    /// chunk `(eye_x, eye_y, eye_z)`: exactly the stored chunks within
    /// render distance, in storage order.
    pub fn chunks_in_render_distance(&self, eye_x: i64, eye_y: i64, eye_z: i64) -> (r: Vec<usize>)
        requires
            self.wf(),
            i64::MIN + self.spec_render_distance() as int <= eye_x as int,
            eye_x as int <= i64::MAX - self.spec_render_distance() as int,
            i64::MIN + self.spec_render_distance() as int <= eye_y as int,
            eye_y as int <= i64::MAX - self.spec_render_distance() as int,
            i64::MIN + self.spec_render_distance() as int <= eye_z as int,
            eye_z as int <= i64::MAX - self.spec_render_distance() as int,
        ensures
            forall|m: int|
                0 <= m < r@.len() ==> (#[trigger] r@[m]) < self.chunks_view().len()
                    && self.within_render_distance(
                    self.chunks_view()[r@[m] as int],
                    eye_x,
                    eye_y,
                    eye_z,
                ),
            forall|m1: int, m2: int| 0 <= m1 < m2 < r@.len() ==> r@[m1] < r@[m2],
            forall|n: int|
                0 <= n < self.chunks_view().len() && self.within_render_distance(
                    #[trigger] self.chunks_view()[n],
                    eye_x,
                    eye_y,
                    eye_z,
                ) ==> exists|m: int| 0 <= m < r@.len() && #[trigger] r@[m] == n,
    {
        let d = self.render_distance as i64;
        let mut r: Vec<usize> = Vec::new();
        let mut n: usize = 0;
        while n < self.chunks.len()
            invariant
                self.wf(),
                d == self.spec_render_distance() as i64,
                d >= 0,
                i64::MIN + d as int <= eye_x as int <= i64::MAX - d as int,
                i64::MIN + d as int <= eye_y as int <= i64::MAX - d as int,
                i64::MIN + d as int <= eye_z as int <= i64::MAX - d as int,
                n <= self.chunks@.len(),
                forall|m: int|
                    0 <= m < r@.len() ==> (#[trigger] r@[m]) < n && self.within_render_distance(
                        self.chunks_view()[r@[m] as int],
                        eye_x,
                        eye_y,
                        eye_z,
                    ),
                forall|m1: int, m2: int| 0 <= m1 < m2 < r@.len() ==> r@[m1] < r@[m2],
                forall|p: int|
                    0 <= p < n && self.within_render_distance(
                        #[trigger] self.chunks_view()[p],
                        eye_x,
                        eye_y,
                        eye_z,
                    ) ==> exists|m: int| 0 <= m < r@.len() && #[trigger] r@[m] == p,
            decreases self.chunks@.len() - n,
        {
            let c = &self.chunks[n];
            let in_x = eye_x - d <= c.chunk_i && c.chunk_i < eye_x + d;
            let in_y = eye_y - d <= c.chunk_j && c.chunk_j < eye_y + d;
            let in_z = eye_z - d <= c.chunk_k && c.chunk_k < eye_z + d;
            if in_x && in_y && in_z {
                let ghost r0 = r@;
                r.push(n);
                proof {
                    assert forall|p: int|
                        0 <= p <= n && self.within_render_distance(
                            #[trigger] self.chunks_view()[p],
                            eye_x,
                            eye_y,
                            eye_z,
                        ) implies exists|m: int| 0 <= m < r@.len() && #[trigger] r@[m] == p by {
                        if p == n {
                            assert(r@[r@.len() - 1] == p);
                        } else {
                            let m0 = choose|m: int| 0 <= m < r0.len() && #[trigger] r0[m] == p;
                            assert(r@[m0] == p);
                        }
                    }
                }
            }
            n += 1;
        }
        r
    }

    /// Generates the chunk at grid coordinate `(x, y, z)` and stores it,
    /// unless one is already there. Returns the position of the chunk for
    /// that coordinate.
    pub fn generate_chunk(&mut self, x: i64, y: i64, z: i64) -> (n: usize)
        requires
            old(self).wf(),
        ensures
            final(self).wf(),
            final(self).spec_seed() == old(self).spec_seed(),
            final(self).spec_render_distance() == old(self).spec_render_distance(),
            n < final(self).chunks_view().len(),
            final(self).chunks_view()[n as int].at_coords(x, y, z),
            old(self).has_chunk_at(x, y, z) ==> final(self).chunks_view() == old(
                self,
            ).chunks_view(),
            !old(self).has_chunk_at(x, y, z) ==> {
                &&& n == old(self).chunks_view().len()
                &&& final(self).chunks_view().len() == old(self).chunks_view().len() + 1
                &&& forall|m: int|
                    0 <= m < old(self).chunks_view().len() ==> final(self).chunks_view()[m] == old(
                        self,
                    ).chunks_view()[m]
                &&& final(self).chunks_view()[n as int].is_generated(x, y, z)
            },
    {
        let existing = self.chunk_index_at(x, y, z);
        match existing {
            Some(n) => n,
            None => {
                let c = Chunk::generate(x, y, z);
                let n = self.chunks.len();
                self.chunks.push(c);
                n
            },
        }
    }
}

} // verus!
