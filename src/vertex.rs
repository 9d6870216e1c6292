use vstd::prelude::*;

verus! {

/// Number of figures in the catalog; ordinals run over `0..FIGURE_COUNT`.
pub const FIGURE_COUNT: u8 = 6;

/// Segment count of the circle that the catalog offers.
pub const CATALOG_CIRCLE_SEGMENTS: u32 = 64;

/// Largest circle segment count whose fan can still be addressed with `u16`
/// indices (the closing rim vertex has index `segments + 1`).
pub const MAX_CIRCLE_SEGMENTS: u32 = 65534;

/// A geometric figure that can be rendered.
#[derive(Clone, Copy, Debug, PartialEq, Eq, Structural)]
pub enum Figure {
    Triangle,
    Pentagon,
    Rectangle,
    Trapezoid,
    Parallelogram,
    /// A circle approximated by a fan of the given number of segments.
    Circle(u32),
}

/// The figure that the catalog lists at ordinal `i`; unknown ordinals fall
/// back to the triangle.
pub open spec fn figure_at(i: u8) -> Figure {
    if i == 0 {
        Figure::Triangle
    } else if i == 1 {
        Figure::Pentagon
    } else if i == 2 {
        Figure::Rectangle
    } else if i == 3 {
        Figure::Trapezoid
    } else if i == 4 {
        Figure::Parallelogram
    } else if i == 5 {
        Figure::Circle(CATALOG_CIRCLE_SEGMENTS)
    } else {
        Figure::Triangle
    }
}

/// Where the renderer takes one vertex of a mesh from.
///
/// Positions and colours are floating point and belong to the renderer; the
/// mesh only records, for each vertex slot, which table entry or which point
/// of the circle it is.
#[derive(Clone, Copy, Debug, PartialEq, Eq, Structural)]
pub enum VertexSource {
    /// Entry `k` of the fixed polygon's constant vertex table.
    Corner(u8),
    /// The centre of a circle: position `(0, 0, 0)`, mid-gray.
    Center,
    /// The rim point at angle `step * 2π / segments`, radius 0.5, coloured
    /// by the phase-shifted sines of that angle.
    Rim { step: u32, segments: u32 },
}

/// Number of corners of a fixed polygon (zero for a circle).
pub open spec fn corner_count(f: Figure) -> nat {
    match f {
        Figure::Triangle => 3,
        Figure::Pentagon => 5,
        Figure::Rectangle => 4,
        Figure::Trapezoid => 4,
        Figure::Parallelogram => 4,
        Figure::Circle(_) => 0,
    }
}

/// The vertex slots of a figure's mesh.
///
/// A fixed polygon lists its table entries in order. A circle of `n >= 1`
/// segments has its centre first and then `n + 1` rim points for steps
/// `0..=n`, the last one closing the fan at the starting angle; a circle of
/// no segments is its centre alone.
pub open spec fn layout_of(f: Figure) -> Seq<VertexSource> {
    match f {
        Figure::Circle(n) => if n == 0 {
            seq![VertexSource::Center]
        } else {
            Seq::new(
                (n + 2) as nat,
                |k: int|
                    if k == 0 {
                        VertexSource::Center
                    } else {
                        VertexSource::Rim { step: (k - 1) as u32, segments: n }
                    },
            )
        },
        _ => Seq::new(corner_count(f), |k: int| VertexSource::Corner(k as u8)),
    }
}

/// Entry `k` of a circle's index list: triangle `t = k / 3` is
/// `(0, t + 1, t + 2)`.
pub open spec fn fan_index(k: int) -> int {
    if k % 3 == 0 {
        0
    } else {
        k / 3 + k % 3
    }
}

/// The triangle list of a figure's mesh, three indices per triangle, each
/// counter-clockwise.
///
/// The triangle is `(0, 1, 2)`. The rectangle, trapezoid and parallelogram
/// are split by a fan from corner 0 into `(0, 1, 2)` and `(0, 2, 3)`. The
/// pentagon is `(0, 1, 4)`, `(1, 2, 4)`, `(2, 3, 4)`. A circle of `n`
/// segments is the fan `(0, t + 1, t + 2)` for `t` in `0..n`.
pub open spec fn indices_of(f: Figure) -> Seq<u16> {
    match f {
        Figure::Triangle => seq![0u16, 1, 2],
        Figure::Pentagon => seq![0u16, 1, 4, 1, 2, 4, 2, 3, 4],
        Figure::Circle(n) => Seq::new((3 * n) as nat, |k: int| fan_index(k) as u16),
        _ => seq![0u16, 1, 2, 0, 2, 3],
    }
}

/// Every index names a vertex of a mesh with `count` vertices.
pub open spec fn indices_within(indices: Seq<u16>, count: nat) -> bool {
    forall|k: int| 0 <= k < indices.len() ==> (#[trigger] indices[k] as nat) < count
}

/// A mesh: an ordered list of vertex slots and a triangle list over them.
pub trait Mesh {
    /// The vertex slots, in order.
    spec fn vertex_layout(&self) -> Seq<VertexSource>;

    /// The triangle list.
    spec fn triangle_indices(&self) -> Seq<u16>;

    /// The mesh can be built with `u16` indices.
    spec fn drawable(&self) -> bool;

    /// Returns the vertex slots that make up the mesh.
    fn get_vertices(&self) -> (r: Vec<VertexSource>)
        requires
            self.drawable(),
        ensures
            r@ == self.vertex_layout(),
    ;

    /// Returns the indices, three per triangle, into the vertex slots.
    fn get_indices(&self) -> (r: Vec<u16>)
        requires
            self.drawable(),
        ensures
            r@ == self.triangle_indices(),
            r@.len() % 3 == 0,
            indices_within(r@, self.vertex_layout().len()),
    ;
}

impl Default for Figure {
    fn default() -> (r: Figure)
        ensures
            r == Figure::Triangle,
    {
        Figure::Triangle
    }
}

impl Figure {
    /// A circle needs `u16` indices up to `segments + 1`.
    pub open spec fn is_drawable(self) -> bool {
        match self {
            Figure::Circle(n) => n <= MAX_CIRCLE_SEGMENTS,
            _ => true,
        }
    }

    /// Tells whether the figure's mesh can be built: a circle's indices go
    /// up to `segments + 1` and must fit in `u16`.
    pub fn fits_u16_indices(&self) -> (r: bool)
        ensures
            r == self.is_drawable(),
    {
        match self {
            Figure::Circle(n) => *n <= MAX_CIRCLE_SEGMENTS,
            _ => true,
        }
    }

    /// Returns the vertex slots and the indices of the figure's mesh.
    pub fn get_vertices_and_indices(&self) -> (r: (Vec<VertexSource>, Vec<u16>))
        requires
            self.is_drawable(),
        ensures
            r.0@ == layout_of(*self),
            r.1@ == indices_of(*self),
            indices_within(r.1@, r.0@.len()),
    {
        (self.get_vertices(), self.get_indices())
    }

    /// Returns the figure at the given catalog ordinal.
    ///
    /// Ordinals outside `0..FIGURE_COUNT` give the default figure (the
    /// triangle).
    pub fn get_figure(i: u8) -> (r: Figure)
        ensures
            r == figure_at(i),
    {
        match i {
            0 => Figure::Triangle,
            1 => Figure::Pentagon,
            2 => Figure::Rectangle,
            3 => Figure::Trapezoid,
            4 => Figure::Parallelogram,
            5 => Figure::Circle(CATALOG_CIRCLE_SEGMENTS),
            _ => Figure::Triangle,
        }
    }
}

/// Indices of every fixed polygon name vertices of that polygon.
pub proof fn lemma_fixed_indices_within(f: Figure)
    requires
        !(f is Circle),
    ensures
        indices_within(indices_of(f), layout_of(f).len()),
{
}

/// A circle of `n >= 1` segments has `n + 2` vertices and `3 * n` indices.
pub proof fn lemma_circle_counts(n: u32)
    requires
        1 <= n,
    ensures
        layout_of(Figure::Circle(n)).len() == n + 2,
        indices_of(Figure::Circle(n)).len() == 3 * n,
{
}

/// A circle's first vertex is its centre; rim vertex `i` (for `1 <= i <= n + 1`)
/// lies at step `i - 1` of `n`; and the closing rim vertex `n + 1` is at a
/// whole turn, the same angle as rim vertex 1.
pub proof fn lemma_circle_rim(n: u32)
    requires
        1 <= n,
    ensures
        layout_of(Figure::Circle(n))[0] == VertexSource::Center,
        forall|i: int|
            1 <= i <= n + 1 ==> #[trigger] layout_of(Figure::Circle(n))[i] == (VertexSource::Rim {
                step: (i - 1) as u32,
                segments: n,
            }),
        layout_of(Figure::Circle(n))[n + 1]->Rim_step % n == layout_of(
            Figure::Circle(n),
        )[1]->Rim_step % n,
{
    assert(layout_of(Figure::Circle(n))[n + 1] == VertexSource::Rim { step: n, segments: n });
    assert(layout_of(Figure::Circle(n))[1] == VertexSource::Rim { step: 0, segments: n });
    assert(n % n == 0 && 0int % (n as int) == 0) by (nonlinear_arith)
        requires
            1 <= n,
    ;
}

/// Looking up the same figure twice gives identical vertex and index lists.
pub proof fn lemma_lookup_deterministic(f: Figure, g: Figure)
    requires
        f == g,
    ensures
        layout_of(f) == layout_of(g),
        indices_of(f) == indices_of(g),
{
}

/// Proves that a circle's index list stays within its vertices.
proof fn lemma_circle_indices_within(n: u32)
    requires
        n <= MAX_CIRCLE_SEGMENTS,
    ensures
        indices_within(indices_of(Figure::Circle(n)), layout_of(Figure::Circle(n)).len()),
        indices_of(Figure::Circle(n)).len() % 3 == 0,
{
    let s = indices_of(Figure::Circle(n));
    assert forall|k: int| 0 <= k < s.len() implies (#[trigger] s[k] as nat) < layout_of(
        Figure::Circle(n),
    ).len() by {
        assert(k / 3 < n) by (nonlinear_arith)
            requires
                0 <= k < 3 * n,
        ;
        assert(0 <= k % 3 < 3);
    }
    assert((3 * n) % 3 == 0) by (nonlinear_arith);
}

/// Builds the fan of `segments` triangles `(0, t + 1, t + 2)`.
fn circle_indices(segments: u32) -> (r: Vec<u16>)
    requires
        segments <= MAX_CIRCLE_SEGMENTS,
    ensures
        r@ == indices_of(Figure::Circle(segments)),
{
    let n: u16 = segments as u16;
    let mut r: Vec<u16> = Vec::new();
    let mut i: u16 = 1;
    while i <= n
        invariant
            n == segments,
            n <= MAX_CIRCLE_SEGMENTS,
            1 <= i <= n + 1,
            r@.len() == 3 * (i - 1),
            forall|k: int| 0 <= k < r@.len() ==> #[trigger] r@[k] == fan_index(k) as u16,
        decreases n + 1 - i,
    {
        let ghost t: int = i - 1;
        proof {
            assert((3 * t) / 3 == t && (3 * t) % 3 == 0) by (nonlinear_arith);
            assert((3 * t + 1) / 3 == t && (3 * t + 1) % 3 == 1) by (nonlinear_arith);
            assert((3 * t + 2) / 3 == t && (3 * t + 2) % 3 == 2) by (nonlinear_arith);
        }
        r.push(0);
        r.push(i);
        r.push(i + 1);
        i = i + 1;
    }
    assert(r@ =~= indices_of(Figure::Circle(segments)));
    r
}

/// Lists the vertex slots of a circle: its centre, then rim steps `0..=segments`.
fn circle_layout(segments: u32) -> (r: Vec<VertexSource>)
    requires
        segments <= MAX_CIRCLE_SEGMENTS,
    ensures
        r@ == layout_of(Figure::Circle(segments)),
{
    let mut r: Vec<VertexSource> = Vec::new();
    r.push(VertexSource::Center);
    if segments == 0 {
        assert(r@ =~= layout_of(Figure::Circle(segments)));
        return r;
    }
    let mut step: u32 = 0;
    while step <= segments
        invariant
            segments <= MAX_CIRCLE_SEGMENTS,
            step <= segments + 1,
            r@.len() == step + 1,
            r@[0] == VertexSource::Center,
            forall|k: int|
                1 <= k < r@.len() ==> #[trigger] r@[k] == (VertexSource::Rim {
                    step: (k - 1) as u32,
                    segments,
                }),
        decreases segments + 1 - step,
    {
        r.push(VertexSource::Rim { step, segments });
        step = step + 1;
    }
    assert(r@ =~= layout_of(Figure::Circle(segments)));
    r
}

/// Lists the table entries `0..count` of a fixed polygon.
fn corner_layout(count: u8) -> (r: Vec<VertexSource>)
    ensures
        r@ == Seq::new(count as nat, |k: int| VertexSource::Corner(k as u8)),
{
    let mut r: Vec<VertexSource> = Vec::new();
    let mut k: u8 = 0;
    while k < count
        invariant
            k <= count,
            r@ == Seq::new(k as nat, |j: int| VertexSource::Corner(j as u8)),
        decreases count - k,
    {
        r.push(VertexSource::Corner(k));
        k = k + 1;
        assert(r@ =~= Seq::new(k as nat, |j: int| VertexSource::Corner(j as u8)));
    }
    r
}

impl Mesh for Figure {
    open spec fn vertex_layout(&self) -> Seq<VertexSource> {
        layout_of(*self)
    }

    open spec fn triangle_indices(&self) -> Seq<u16> {
        indices_of(*self)
    }

    open spec fn drawable(&self) -> bool {
        self.is_drawable()
    }

    fn get_vertices(&self) -> (r: Vec<VertexSource>) {
        match self {
            Figure::Triangle => corner_layout(3),
            Figure::Pentagon => corner_layout(5),
            Figure::Rectangle => corner_layout(4),
            Figure::Trapezoid => corner_layout(4),
            Figure::Parallelogram => corner_layout(4),
            Figure::Circle(n) => circle_layout(*n),
        }
    }

    fn get_indices(&self) -> (r: Vec<u16>) {
        let r = match self {
            Figure::Triangle => vec![0, 1, 2],
            Figure::Pentagon => vec![0, 1, 4, 1, 2, 4, 2, 3, 4],
            Figure::Rectangle => vec![0, 1, 2, 0, 2, 3],
            Figure::Trapezoid => vec![0, 1, 2, 0, 2, 3],
            Figure::Parallelogram => vec![0, 1, 2, 0, 2, 3],
            Figure::Circle(n) => circle_indices(*n),
        };
        proof {
            if let Figure::Circle(n) = *self {
                lemma_circle_indices_within(n);
            }
        }
        r
    }
}

} // verus!
