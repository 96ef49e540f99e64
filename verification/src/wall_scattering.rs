//! Bookkeeping of the wall polygons in the x-y plane: which vertex follows which,
//! the orientation of a polygon's vertex lists, and whether a point belongs to the
//! simulation domain given where it lies with respect to each polygon.
use vstd::prelude::*;

verus! {

/// Index of a polygon of the wall. Keeps polygon and edge indices apart in calls.
#[derive(Debug, Clone, Copy, PartialEq, Eq, Structural)]
pub struct PolygonIndex(pub usize);

/// Index of an edge of a wall polygon: edge `i` runs from point `i` to point `i + 1`,
/// the last one back to point 0.
#[derive(Debug, Clone, Copy, PartialEq, Eq, Structural)]
pub struct EdgeIndex(pub usize);

/// The index of the vertex after vertex `i` in a closed polygon of `n` vertices.
pub fn next_index(i: usize, n: usize) -> (j: usize)
    requires
        i < n,
    ensures
        j == (i + 1) % (n as int),
        j < n,
{
    if i + 1 == n {
        proof {
            vstd::arithmetic::div_mod::lemma_mod_self_0(n as int);
        }
        0
    } else {
        proof {
            vstd::arithmetic::div_mod::lemma_small_mod((i + 1) as nat, n as nat);
        }
        i + 1
    }
}

/// The index of the vertex before vertex `i` in a closed polygon of `n` vertices.
pub fn previous_index(i: usize, n: usize) -> (j: usize)
    requires
        i < n,
    ensures
        j == (i + n - 1) % (n as int),
        j < n,
{
    if i == 0 {
        proof {
            vstd::arithmetic::div_mod::lemma_small_mod((n - 1) as nat, n as nat);
        }
        n - 1
    } else {
        proof {
            vstd::arithmetic::div_mod::lemma_mod_add_multiples_vanish((i - 1) as int, n as int);
            vstd::arithmetic::div_mod::lemma_small_mod((i - 1) as nat, n as nat);
        }
        i - 1
    }
}

/// Stepping forward then back returns to the same vertex of a closed polygon.
pub proof fn lemma_previous_undoes_next(i: int, n: int)
    requires
        0 <= i < n,
    ensures
        ((i + 1) % n + n - 1) % n == i,
{
    if i + 1 == n {
        assert((i + 1) % n == 0) by {
            vstd::arithmetic::div_mod::lemma_mod_self_0(n);
        }
        vstd::arithmetic::div_mod::lemma_small_mod((n - 1) as nat, n as nat);
    } else {
        vstd::arithmetic::div_mod::lemma_small_mod((i + 1) as nat, n as nat);
        assert(i + 1 + n - 1 == i + n);
        vstd::arithmetic::div_mod::lemma_mod_add_multiples_vanish(i, n);
        vstd::arithmetic::div_mod::lemma_small_mod(i as nat, n as nat);
    }
}

/// The points of a closed polygon shifted by one: entry `i` is the end point of edge `i`.
pub fn rolled<T: Copy>(points: &Vec<T>) -> (ends: Vec<T>)
    ensures
        ends.len() == points.len(),
        forall|i: int| 0 <= i < points.len() ==> ends[i] == points[(i + 1) % (points.len() as int)],
{
    let n = points.len();
    let mut ends: Vec<T> = Vec::new();
    let mut i: usize = 0;
    while i < n
        invariant
            n == points.len(),
            i <= n,
            ends.len() == i,
            forall|k: int| 0 <= k < i ==> ends[k] == points[(k + 1) % (n as int)],
        decreases n - i,
    {
        let next = next_index(i, n);
        ends.push(points[next]);
        i += 1;
    }
    ends
}

/// The entries of `v` in reverse order.
pub fn reversed<T>(v: Vec<T>) -> (r: Vec<T>)
    ensures
        r@ == v@.reverse(),
{
    let mut v = v;
    let ghost initial = v@;
    let mut r: Vec<T> = Vec::new();
    while v.len() > 0
        invariant
            v@ == initial.take(v.len() as int),
            r@ == initial.skip(v.len() as int).reverse(),
            v.len() <= initial.len(),
        decreases v.len(),
    {
        let ghost k = v.len() as int;
        let x = v.pop().unwrap();
        r.push(x);
        proof {
            assert(initial.skip(k - 1) == seq![initial[k - 1]] + initial.skip(k));
            assert(r@ =~= initial.skip(k - 1).reverse()) by {
                assert forall|j: int| 0 <= j < r@.len() implies r@[j] == initial.skip(k
                    - 1).reverse()[j] by {}
            }
            assert(v@ =~= initial.take(k - 1));
        }
    }
    assert(initial.skip(0) == initial);
    r
}

/// The vertex lists of a wall polygon, with per-edge bridge flags and circle radii.
pub struct PolygonVertices<P, R> {
    pub points: Vec<P>,
    pub is_bridge: Vec<bool>,
    pub circle_radius: Vec<R>,
}

/// Position in the original list of the edge that lands at position `j` when the
/// vertex order of a closed polygon of `n` vertices is reversed: edge `j` of the
/// reversed polygon joins the same two vertices as edge `(2n - 2 - j) mod n` before.
pub open spec fn reversed_edge(j: int, n: int) -> int {
    (2 * n - 2 - j) % n
}

proof fn lemma_reversed_edge(j: int, n: int)
    requires
        0 <= j < n,
    ensures
        j <= n - 2 ==> reversed_edge(j, n) == n - 2 - j,
        j == n - 1 ==> reversed_edge(j, n) == n - 1,
        0 <= reversed_edge(j, n) < n,
{
    if j <= n - 2 {
        vstd::arithmetic::div_mod::lemma_mod_add_multiples_vanish(n - 2 - j, n);
        vstd::arithmetic::div_mod::lemma_small_mod((n - 2 - j) as nat, n as nat);
    } else {
        vstd::arithmetic::div_mod::lemma_mod_add_multiples_vanish(n - 1, n);
        vstd::arithmetic::div_mod::lemma_small_mod((n - 1) as nat, n as nat);
    }
}

/// Per-edge values of a closed polygon re-indexed for its reversed vertex order: entry
/// `j` is the value of edge `(2n - 2 - j) mod n`, the edge that joins the same two
/// vertices as edge `j` after the reversal.
pub fn reversed_edges<T: Copy>(values: &Vec<T>) -> (moved: Vec<T>)
    ensures
        moved.len() == values.len(),
        forall|j: int|
            0 <= j < values.len() ==> moved[j] == values[reversed_edge(j, values.len() as int)],
{
    let n = values.len();
    let mut moved: Vec<T> = Vec::new();
    let mut j: usize = 0;
    while j < n
        invariant
            n == values.len(),
            j <= n,
            moved.len() == j,
            forall|k: int| 0 <= k < j ==> moved[k] == values[reversed_edge(k, n as int)],
        decreases n - j,
    {
        proof {
            lemma_reversed_edge(j as int, n as int);
        }
        let source = if j < n - 1 {
            n - 2 - j
        } else {
            n - 1
        };
        moved.push(values[source]);
        j += 1;
    }
    moved
}

impl<P, R: Copy> PolygonVertices<P, R> {
    /// Makes the vertex order counter-clockwise: where the polygon's signed area is
    /// negative (`clockwise`), the points are reversed, and the bridge flags and the
    /// circle radii, which belong to edges, move with their edges, so that flag and
    /// radius `j` belong to the edge from point `j` to point `j + 1` of the new order;
    /// otherwise all three stay as they are.
    pub fn orient_counter_clockwise(self, clockwise: bool) -> (oriented: Self)
        ensures
            clockwise ==> {
                &&& oriented.points@ == self.points@.reverse()
                &&& oriented.is_bridge.len() == self.is_bridge.len()
                &&& oriented.circle_radius.len() == self.circle_radius.len()
                &&& forall|j: int|
                    0 <= j < self.is_bridge.len() ==> oriented.is_bridge[j]
                        == self.is_bridge[reversed_edge(j, self.is_bridge.len() as int)]
                &&& forall|j: int|
                    0 <= j < self.circle_radius.len() ==> oriented.circle_radius[j]
                        == self.circle_radius[reversed_edge(j, self.circle_radius.len() as int)]
            },
            !clockwise ==> oriented.points@ == self.points@ && oriented.is_bridge@
                == self.is_bridge@ && oriented.circle_radius@ == self.circle_radius@,
            // each edge keeps its flag and radius: edge `j` of the result joins the
            // points that edge `k` joined before and carries edge `k`'s flag and radius
            clockwise && self.is_bridge.len() == self.points.len() && self.circle_radius.len()
                == self.points.len() ==> forall|j: int|
                #![trigger oriented.is_bridge[j]]
                0 <= j < self.points.len() ==> {
                    let n = self.points.len() as int;
                    let k = reversed_edge(j, n);
                    &&& oriented.points[j] == self.points[(k + 1) % n]
                    &&& oriented.points[(j + 1) % n] == self.points[k]
                    &&& oriented.is_bridge[j] == self.is_bridge[k]
                    &&& oriented.circle_radius[j] == self.circle_radius[k]
                },
    {
        if clockwise {
            let is_bridge = reversed_edges(&self.is_bridge);
            let circle_radius = reversed_edges(&self.circle_radius);
            let ghost before = self.points@;
            let points = reversed(self.points);
            proof {
                assert forall|j: int| #![trigger points@[j]] 0 <= j < before.len() implies {
                    let n = before.len() as int;
                    let k = reversed_edge(j, n);
                    &&& points@[j] == before[(k + 1) % n]
                    &&& points@[(j + 1) % n] == before[k]
                } by {
                    lemma_reversed_edge_joins_same_points(before, j);
                }
            }
            PolygonVertices { points, is_bridge, circle_radius }
        } else {
            self
        }
    }
}

/// After a reversal of the vertex order, the edge at position `j` joins the same two
/// points as the edge at position `reversed_edge(j, n)` did before, so a per-edge value
/// moved to `j` from there stays with its edge.
pub proof fn lemma_reversed_edge_joins_same_points<P>(points: Seq<P>, j: int)
    requires
        0 <= j < points.len(),
    ensures
        ({
            let n = points.len() as int;
            let k = reversed_edge(j, n);
            &&& points.reverse()[j] == points[(k + 1) % n]
            &&& points.reverse()[(j + 1) % n] == points[k]
        }),
{
    let n = points.len() as int;
    lemma_reversed_edge(j, n);
    if j <= n - 2 {
        vstd::arithmetic::div_mod::lemma_small_mod((n - 1 - j) as nat, n as nat);
        vstd::arithmetic::div_mod::lemma_small_mod((j + 1) as nat, n as nat);
    } else {
        vstd::arithmetic::div_mod::lemma_mod_self_0(n);
    }
}

/// Whether a point lies in the simulation domain: for every polygon, the point is
/// inside it exactly when the polygon is the outer wall, so inside the outer wall and
/// outside every inner wall (hole).
pub open spec fn in_domain(inside: Seq<bool>, is_outer_wall: Seq<bool>) -> bool {
    forall|i: int| 0 <= i < inside.len() ==> inside[i] == is_outer_wall[i]
}

/// A point is in the domain exactly when it lies inside every outer wall and outside
/// every hole; in particular, a point outside an outer wall, or inside a hole, is not.
pub proof fn lemma_domain_is_inside_outer_and_outside_holes(
    inside: Seq<bool>,
    is_outer_wall: Seq<bool>,
)
    requires
        inside.len() == is_outer_wall.len(),
    ensures
        in_domain(inside, is_outer_wall) <==> (forall|i: int|
            0 <= i < inside.len() ==> (is_outer_wall[i] ==> inside[i]) && (!is_outer_wall[i]
                ==> !inside[i])),
        (exists|i: int| 0 <= i < inside.len() && is_outer_wall[i] && !inside[i]) ==> !in_domain(
            inside,
            is_outer_wall,
        ),
        (exists|i: int| 0 <= i < inside.len() && !is_outer_wall[i] && inside[i]) ==> !in_domain(
            inside,
            is_outer_wall,
        ),
{
}

/// Decides domain membership from where the point lies with respect to each polygon:
/// `inside[i]` tells whether it is inside polygon `i`, `is_outer_wall[i]` whether that
/// polygon is the outer wall.
pub fn is_inside_domain(inside: &Vec<bool>, is_outer_wall: &Vec<bool>) -> (contained: bool)
    requires
        inside.len() == is_outer_wall.len(),
    ensures
        contained == in_domain(inside@, is_outer_wall@),
        contained <==> forall|i: int|
            0 <= i < inside.len() ==> #[trigger] inside[i] == is_outer_wall[i],
        (exists|i: int| 0 <= i < inside.len() && is_outer_wall[i] && !inside[i]) ==> !contained,
        (exists|i: int| 0 <= i < inside.len() && !is_outer_wall[i] && inside[i]) ==> !contained,
{
    let mut i: usize = 0;
    while i < inside.len()
        invariant
            i <= inside.len(),
            inside.len() == is_outer_wall.len(),
            forall|k: int| 0 <= k < i ==> inside[k] == is_outer_wall[k],
        decreases inside.len() - i,
    {
        if inside[i] != is_outer_wall[i] {
            return false;
        }
        i += 1;
    }
    true
}

} // verus!
