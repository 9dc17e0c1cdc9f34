//! Shape producers: polymorphic sources of flat vertex-component
//! streams, ready for the indexed geometry builder.
//!
//! Every shape emits 2-dimensional position-only vertices, two scalar
//! components per vertex, as one flat stream in draw order.  A square is
//! two triangles over its corners, a triangle is its three points, and a
//! circle approximation is a fan of triangles around the center through
//! a ring of precomputed arc points.

use crate::math::vector::Numeric;
use crate::math::vector::Vector;
use vstd::prelude::*;

verus! {

use vstd::arithmetic::div_mod::lemma_mod_self_0;
use vstd::arithmetic::div_mod::lemma_small_mod;

/// A producer of a flat vertex-component stream.
pub trait Shape<T>: Sized {
    /// The flat component stream the shape stands for.
    spec fn arrays_spec(&self) -> Seq<T>;

    /// When the scalar type can produce the stream on this machine
    /// (every componentwise operation stays representable).
    spec fn arrays_ok(&self) -> bool;

    /// How many consecutive components form one vertex of the stream:
    /// the chunk size to hand to the geometry builder.
    spec fn components_spec(&self) -> usize;

    /// Emits the flat vertex-component stream, in draw order.
    fn get_arrays(&self) -> (r: Vec<T>)
        requires
            self.arrays_ok(),
        ensures
            r@ == self.arrays_spec(),
    ;

    /// The number of components per vertex, never zero.
    fn components_per_vertex(&self) -> (r: usize)
        ensures
            r == self.components_spec(),
            0 < r,
    ;
}

/// An axis-aligned rectangle, drawn as two triangles.
pub struct Square<T> {
    /// The corner the rectangle grows from.
    pub pos: Vector<T, 2>,
    /// The extent along each axis.
    pub size: Vector<T, 2>,
}

impl<T> Square<T> {
    /// A rectangle from `pos` to `pos + size`.
    pub fn new(pos: Vector<T, 2>, size: Vector<T, 2>) -> (r: Self)
        ensures
            r.pos == pos,
            r.size == size,
    {
        Square { pos, size }
    }
}

impl<T: Numeric> Shape<T> for Square<T> {
    /// Two triangles covering the rectangle, six vertices with a
    /// consistent winding: the far corner row uses `pos + size`.
    open spec fn arrays_spec(&self) -> Seq<T> {
        let px = self.pos@[0];
        let py = self.pos@[1];
        let fx = self.pos@[0].add_spec(self.size@[0]);
        let fy = self.pos@[1].add_spec(self.size@[1]);
        seq![px, py, fx, py, px, fy, fx, py, fx, fy, px, fy]
    }

    open spec fn arrays_ok(&self) -> bool {
        self.pos@[0].add_ok(self.size@[0]) && self.pos@[1].add_ok(self.size@[1])
    }

    open spec fn components_spec(&self) -> usize {
        2
    }

    fn get_arrays(&self) -> (r: Vec<T>) {
        let px = self.pos.get(0);
        let py = self.pos.get(1);
        let fx = px.add(self.size.get(0));
        let fy = py.add(self.size.get(1));
        let mut out: Vec<T> = Vec::new();
        out.push(px);
        out.push(py);
        out.push(fx);
        out.push(py);
        out.push(px);
        out.push(fy);
        out.push(fx);
        out.push(py);
        out.push(fx);
        out.push(fy);
        out.push(px);
        out.push(fy);
        proof {
            assert(out@ =~= self.arrays_spec());
        }
        out
    }

    fn components_per_vertex(&self) -> usize {
        2
    }
}

/// A triangle over three given points, emitted in the given order.
pub struct Triangle<T> {
    /// The first point.
    pub pos1: Vector<T, 2>,
    /// The second point.
    pub pos2: Vector<T, 2>,
    /// The third point.
    pub pos3: Vector<T, 2>,
}

impl<T> Triangle<T> {
    /// A triangle over exactly these points; winding is the caller's
    /// responsibility.
    pub fn new(pos1: Vector<T, 2>, pos2: Vector<T, 2>, pos3: Vector<T, 2>) -> (r: Self)
        ensures
            r.pos1 == pos1,
            r.pos2 == pos2,
            r.pos3 == pos3,
    {
        Triangle { pos1, pos2, pos3 }
    }
}

impl<T: Copy> Shape<T> for Triangle<T> {
    /// The three points, flattened in order.
    open spec fn arrays_spec(&self) -> Seq<T> {
        seq![
            self.pos1@[0],
            self.pos1@[1],
            self.pos2@[0],
            self.pos2@[1],
            self.pos3@[0],
            self.pos3@[1],
        ]
    }

    open spec fn arrays_ok(&self) -> bool {
        true
    }

    open spec fn components_spec(&self) -> usize {
        2
    }

    fn get_arrays(&self) -> (r: Vec<T>) {
        let mut out: Vec<T> = Vec::new();
        out.push(self.pos1.get(0));
        out.push(self.pos1.get(1));
        out.push(self.pos2.get(0));
        out.push(self.pos2.get(1));
        out.push(self.pos3.get(0));
        out.push(self.pos3.get(1));
        proof {
            assert(out@ =~= self.arrays_spec());
        }
        out
    }

    fn components_per_vertex(&self) -> usize {
        2
    }
}

/// The fan stream of the first `n` triangles of a circle approximation:
/// triangle `t` is (center, arc point `t`, arc point `t+1` wrapping
/// around to close the fan), each point two components.
pub open spec fn circle_stream<T>(center: Seq<T>, arc: Seq<Seq<T>>, n: nat) -> Seq<T>
    decreases n,
{
    if n == 0 {
        Seq::empty()
    } else {
        circle_stream(center, arc, (n - 1) as nat) + seq![
            center[0],
            center[1],
            arc[n - 1][0],
            arc[n - 1][1],
            arc[(n % arc.len()) as int][0],
            arc[(n % arc.len()) as int][1],
        ]
    }
}

/// The views of a ring of 2-dimensional points.
pub open spec fn point_views<T>(arc: Seq<Vector<T, 2>>) -> Seq<Seq<T>> {
    Seq::new(arc.len(), |i: int| arc[i]@)
}

/// A circle approximation: a closed fan of triangles from the center
/// through a ring of arc points.  The arc points are absolute positions
/// on the rim, precomputed by the caller (for a circle of radius `r`
/// around `pos`, point `i` of `R` sits at angle `i * 2pi / R` from the
/// first axis, at distance `r` from `pos`); computing them takes
/// trigonometry, which is no business of the stream layout itself.
pub struct Circle<T> {
    /// The center position.
    pub pos: Vector<T, 2>,
    /// The radius the arc points were sampled at.
    pub radius: T,
    /// The rim points, in angular order starting at angle zero.
    pub arc: Vec<Vector<T, 2>>,
}

impl<T> Circle<T> {
    /// A circle approximation around `pos` with the given rim samples.
    pub fn new(pos: Vector<T, 2>, radius: T, arc: Vec<Vector<T, 2>>) -> (r: Self)
        ensures
            r.pos == pos,
            r.radius == radius,
            r.arc == arc,
    {
        Circle { pos, radius, arc }
    }

    /// How many triangles the fan holds: one per rim sample.
    pub fn resolution(&self) -> (r: usize)
        ensures
            r == self.arc@.len(),
    {
        self.arc.len()
    }
}

impl<T: Copy> Shape<T> for Circle<T> {
    /// One triangle per rim point: (center, point, next point), closed
    /// around the ring.
    open spec fn arrays_spec(&self) -> Seq<T> {
        circle_stream(self.pos@, point_views(self.arc@), self.arc@.len())
    }

    open spec fn arrays_ok(&self) -> bool {
        true
    }

    open spec fn components_spec(&self) -> usize {
        2
    }

    fn get_arrays(&self) -> (r: Vec<T>) {
        let count = self.arc.len();
        let mut out: Vec<T> = Vec::new();
        let mut i: usize = 0;
        while i < count
            invariant
                i <= count,
                count == self.arc@.len(),
                out@ == circle_stream(self.pos@, point_views(self.arc@), i as nat),
            decreases count - i,
        {
            out.push(self.pos.get(0));
            out.push(self.pos.get(1));
            out.push(self.arc[i].get(0));
            out.push(self.arc[i].get(1));
            let j = if i + 1 == count {
                0
            } else {
                i + 1
            };
            out.push(self.arc[j].get(0));
            out.push(self.arc[j].get(1));
            proof {
                if i + 1 == count {
                    lemma_mod_self_0(count as int);
                } else {
                    lemma_small_mod((i + 1) as nat, count as nat);
                }
                assert(out@ =~= circle_stream(
                    self.pos@,
                    point_views(self.arc@),
                    (i + 1) as nat,
                ));
            }
            i = i + 1;
        }
        out
    }

    fn components_per_vertex(&self) -> usize {
        2
    }
}

/// The circle fan's shape law: the stream holds six components (three
/// 2-dimensional vertices) per triangle; every triangle starts at the
/// center; each triangle's closing arc point is the next triangle's
/// opening one, wrapping around so the fan is closed.
pub proof fn lemma_circle_fan<T>(center: Seq<T>, arc: Seq<Seq<T>>, n: nat)
    requires
        n == arc.len(),
    ensures
        circle_stream(center, arc, n).len() == 6 * n,
        forall|t: int|
            0 <= t < n ==> #[trigger] circle_stream(center, arc, n)[6 * t] == center[0]
                && circle_stream(center, arc, n)[6 * t + 1] == center[1],
        forall|t: int|
            0 <= t < n ==> #[trigger] circle_stream(center, arc, n)[6 * t + 2] == arc[t][0]
                && circle_stream(center, arc, n)[6 * t + 3] == arc[t][1],
        forall|t: int|
            0 <= t < n - 1 ==> #[trigger] circle_stream(center, arc, n)[6 * t + 4] == arc[t + 1][0]
                && circle_stream(center, arc, n)[6 * t + 5] == arc[t + 1][1],
        n > 0 ==> circle_stream(center, arc, n)[6 * (n - 1) + 4] == arc[0][0]
            && circle_stream(center, arc, n)[6 * (n - 1) + 5] == arc[0][1],
{
    lemma_circle_stream_index(center, arc, n, arc.len());
    if n > 0 {
        lemma_mod_self_0(n as int);
        assert forall|t: int| 0 <= t < n - 1 implies #[trigger] circle_stream(center, arc, n)[6
            * t + 4] == arc[t + 1][0] && circle_stream(center, arc, n)[6 * t + 5] == arc[t
            + 1][1] by {
            lemma_small_mod((t + 1) as nat, n);
        }
    }
}

/// Elementwise layout of the first `n` fan triangles, by induction over
/// the stream's recursive build.
proof fn lemma_circle_stream_index<T>(center: Seq<T>, arc: Seq<Seq<T>>, n: nat, len: nat)
    requires
        n <= len,
        len == arc.len(),
    ensures
        circle_stream(center, arc, n).len() == 6 * n,
        forall|t: int|
            #![trigger circle_stream(center, arc, n)[6 * t]]
            #![trigger circle_stream(center, arc, n)[6 * t + 2]]
            #![trigger circle_stream(center, arc, n)[6 * t + 4]]
            0 <= t < n ==> circle_stream(center, arc, n)[6 * t] == center[0]
                && circle_stream(center, arc, n)[6 * t + 1] == center[1]
                && circle_stream(center, arc, n)[6 * t + 2] == arc[t][0]
                && circle_stream(center, arc, n)[6 * t + 3] == arc[t][1]
                && circle_stream(center, arc, n)[6 * t + 4] == arc[((t + 1) % (len as int))][0]
                && circle_stream(center, arc, n)[6 * t + 5] == arc[((t + 1) % (len as int))][1],
    decreases n,
{
    if n > 0 {
        lemma_circle_stream_index(center, arc, (n - 1) as nat, len);
        let prev = circle_stream(center, arc, (n - 1) as nat);
        let cur = circle_stream(center, arc, n);
        assert forall|t: int|
            #![trigger cur[6 * t]]
            #![trigger cur[6 * t + 2]]
            #![trigger cur[6 * t + 4]]
            0 <= t < n implies cur[6 * t] == center[0] && cur[6 * t
            + 1] == center[1] && cur[6 * t + 2] == arc[t][0] && cur[6 * t + 3] == arc[t][1]
            && cur[6 * t + 4] == arc[((t + 1) % (len as int))][0] && cur[6 * t + 5] == arc[((t
            + 1) % (len as int))][1] by {
            if t < n - 1 {
                assert(cur[6 * t] == prev[6 * t]);
                assert(cur[6 * t + 1] == prev[6 * t + 1]);
                assert(cur[6 * t + 2] == prev[6 * t + 2]);
                assert(cur[6 * t + 3] == prev[6 * t + 3]);
                assert(cur[6 * t + 4] == prev[6 * t + 4]);
                assert(cur[6 * t + 5] == prev[6 * t + 5]);
            } else {
                assert(cur[6 * t] == center[0]);
                assert(cur[6 * t + 1] == center[1]);
                assert(cur[6 * t + 2] == arc[n - 1][0]);
                assert(cur[6 * t + 3] == arc[n - 1][1]);
                assert(cur[6 * t + 4] == arc[(n % len) as int][0]);
                assert(cur[6 * t + 5] == arc[(n % len) as int][1]);
            }
        }
    }
}

} // verus!
