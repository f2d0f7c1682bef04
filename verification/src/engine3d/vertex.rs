//! Vertex submission and polygon assembly: face culling, clipping and the
//! move of a finished polygon into the vertex and polygon lists.
use vstd::prelude::*;
use super::clip::{cc, clip_both, clip_ok};
use super::engine::Engine3D;
use super::fixed::{FixedPoint, Vec4, column, dot, dot_fits, fits_i32, fits_i64, from_mul_spec, vec4_raw};
use super::geometry::{Polygon, Vertex};
use super::lighting::{floor_div, tex_transform_ok, tex_transformed};
use super::registers::{
    PolygonAttributes,
    TexCoordTransformationMode,
    VertexPrimitive,
    Viewport,
    screen_x_of,
    screen_x_ok,
    screen_y_of,
    screen_y_ok,
};
use vstd::array::group_array_axioms;
use crate::math::{trunc_div, trunc_div_rem, lemma_trunc_div_bound};

verus! {

broadcast use group_array_axioms;

/// The two edge vectors from vertex 1 (x, y and w only).
pub open spec fn edge_a(v: Seq<Vertex>) -> Seq<int> {
    seq![cc(v[0], 0) - cc(v[1], 0), cc(v[0], 1) - cc(v[1], 1), cc(v[0], 3) - cc(v[1], 3)]
}

/// The second edge vector from vertex 1.
pub open spec fn edge_b(v: Seq<Vertex>) -> Seq<int> {
    seq![cc(v[2], 0) - cc(v[1], 0), cc(v[2], 1) - cc(v[1], 1), cc(v[2], 3) - cc(v[1], 3)]
}

/// The cross product of the edge vectors: the polygon's normal.
pub open spec fn face_normal(v: Seq<Vertex>) -> (int, int, int) {
    let a = edge_a(v);
    let b = edge_b(v);
    (a[1] * b[2] - a[2] * b[1], a[2] * b[0] - a[0] * b[2], a[0] * b[1] - a[1] * b[0])
}

/// Whether the normal still has to be shifted down: its x and y parts are
/// compared, bit 31 upwards, against the sign of y, its z part against its
/// own sign.
pub open spec fn shrink_needed(n: (int, int, int)) -> bool {
    let s1: int = if n.1 < 0 {
        -1
    } else {
        0
    };
    let s2: int = if n.2 < 0 {
        -1
    } else {
        0
    };
    n.0 / 0x8000_0000 != s1 || n.1 / 0x8000_0000 != s1 || n.2 / 0x8000_0000 != s2
}

/// The normal shifted right by four bits at a time while it is too large
/// (at most `fuel` times).
pub open spec fn shrink(n: (int, int, int), fuel: nat) -> (int, int, int)
    decreases fuel,
{
    if fuel == 0 || !shrink_needed(n) {
        n
    } else {
        shrink((n.0 / 16, n.1 / 16, n.2 / 16), (fuel - 1) as nat)
    }
}

/// The shrunk normal.
pub open spec fn cull_normal(v: Seq<Vertex>) -> (int, int, int) {
    shrink(face_normal(v), 8)
}

/// The normal dotted with the first vertex's (x, y, w): negative for a
/// front face, positive for a back face, zero for an edge-on one.
pub open spec fn face_dot(v: Seq<Vertex>) -> int {
    let n = cull_normal(v);
    n.0 * cc(v[0], 0) + n.1 * cc(v[0], 1) + n.2 * cc(v[0], 3)
}

/// Whether face culling can run on `v`: the edges fit in 32 bits, the
/// shrinking ends (the normal's x and y parts have the same sign; when
/// they do not, the shifting never stops), and the dot product fits in
/// 64 bits.
pub open spec fn cull_ok(v: Seq<Vertex>) -> bool {
    let n = face_normal(v);
    let s = cull_normal(v);
    &&& v.len() >= 3
    &&& forall|i: int| 0 <= i < 3 ==> fits_i32(#[trigger] edge_a(v)[i]) && fits_i32(edge_b(v)[i])
    &&& (n.0 < 0) == (n.1 < 0)
    &&& fits_i64(s.0 * cc(v[0], 0) + s.1 * cc(v[0], 1))
    &&& fits_i64(face_dot(v))
}

/// Whether the polygon faces the viewer.
pub open spec fn is_front(v: Seq<Vertex>) -> bool {
    face_dot(v) <= 0
}

/// Whether the polygon is drawn: an edge-on polygon never is, a front or
/// back face when the attributes ask for it.
pub open spec fn should_render(v: Seq<Vertex>, attrs: PolygonAttributes) -> bool {
    if face_dot(v) == 0 {
        false
    } else if face_dot(v) < 0 {
        attrs.render_front
    } else {
        attrs.render_back
    }
}

/// The polygon clipped against z, then y, then x.
pub open spec fn clipped(v: Seq<Vertex>) -> Seq<Vertex> {
    clip_both(clip_both(clip_both(v, 2), 1), 0)
}

/// Whether the three clipping steps can run.
pub open spec fn clipping_ok(v: Seq<Vertex>) -> bool {
    &&& clip_ok(v, 2)
    &&& clip_ok(clip_both(v, 2), 1)
    &&& clip_ok(clip_both(clip_both(v, 2), 1), 0)
}

/// The 24-bit depth of a vertex: `z / w` scaled to 0..0xFFFFFF.
pub open spec fn depth_of(v: Vertex) -> u32 {
    let z = cc(v, 2);
    let w = cc(v, 3);
    (((trunc_div(z * 0x4000, w) + 0x3FFF) * 0x200) % 0x100_0000) as u32
}

/// A clipped vertex with its screen coordinates and depth filled in.
pub open spec fn finalized(vp: Viewport, v: Vertex) -> Vertex {
    Vertex {
        screen_coords: [screen_x_of(vp, v.clip_coords), screen_y_of(vp, v.clip_coords)],
        z_depth: depth_of(v),
        ..v
    }
}

/// Whether every clipped vertex can be projected.
pub open spec fn finalize_ok(vp: Viewport, v: Seq<Vertex>) -> bool {
    forall|i: int|
        0 <= i < v.len() ==> {
            &&& cc(#[trigger] v[i], 3) != 0
            &&& screen_x_ok(vp, v[i].clip_coords)
            &&& screen_y_ok(vp, v[i].clip_coords)
        }
}

/// Whether the polygon `v` can be submitted in state `e`.
pub open spec fn polygon_ok(v: Seq<Vertex>, e: Engine3D) -> bool {
    &&& cull_ok(v)
    &&& should_render(v, e.polygon_attrs_latch) ==> {
        &&& clipping_ok(v)
        &&& finalize_ok(e.viewport, clipped(v))
        &&& e.vertices@.len() + clipped(v).len() <= usize::MAX
    }
}

/// Whether submitting `v` adds a polygon: it is drawn and something of it
/// is left after clipping.
pub open spec fn adds_polygon(v: Seq<Vertex>, e: Engine3D) -> bool {
    should_render(v, e.polygon_attrs_latch) && clipped(v).len() > 0
}

/// The polygon record submitting `v` adds.
pub open spec fn new_polygon(v: Seq<Vertex>, e: Engine3D) -> Polygon {
    Polygon {
        start_vert: e.vertices@.len() as usize,
        end_vert: (e.vertices@.len() + clipped(v).len()) as usize,
        attrs: e.polygon_attrs_latch,
        tex_params: e.tex_params,
        palette_base: e.palette_base,
        is_front: is_front(v),
    }
}

/// The vertex list after submitting `v`.
pub open spec fn vertices_after(v: Seq<Vertex>, e: Engine3D) -> Seq<Vertex> {
    if adds_polygon(v, e) {
        e.vertices@ + clipped(v).map_values(|u: Vertex| finalized(e.viewport, u))
    } else {
        e.vertices@
    }
}

/// The polygon list after submitting `v`.
pub open spec fn polygons_after(v: Seq<Vertex>, e: Engine3D) -> Seq<Polygon> {
    if adds_polygon(v, e) {
        e.polygons@.push(new_polygon(v, e))
    } else {
        e.polygons@
    }
}

/// The bound `2^(63 - 4k)` on the normal after `k` shifts.
pub open spec fn shrink_bound(k: nat) -> int {
    if k == 0 {
        0x8000_0000_0000_0000
    } else if k == 1 {
        0x800_0000_0000_0000
    } else if k == 2 {
        0x80_0000_0000_0000
    } else if k == 3 {
        0x8_0000_0000_0000
    } else if k == 4 {
        0x8000_0000_0000
    } else if k == 5 {
        0x800_0000_0000
    } else if k == 6 {
        0x80_0000_0000
    } else if k == 7 {
        0x8_0000_0000
    } else {
        0x8000_0000
    }
}

proof fn lemma_product_fits(a: int, b: int)
    by (nonlinear_arith)
    requires
        fits_i32(a),
        fits_i32(b),
    ensures
        -0x4000_0000_0000_0000 + 0x8000_0000 <= a * b <= 0x4000_0000_0000_0000,
{
}

/// The face normal of `v`, shrunk until it fits in 32 bits.
fn cull_normal_exec(v: &Vec<Vertex>) -> (r: (i64, i64, i64))
    requires
        cull_ok(v@),
    ensures
        (r.0 as int, r.1 as int, r.2 as int) == cull_normal(v@),
        -0x8000_0000 <= r.0 < 0x8000_0000,
        -0x8000_0000 <= r.1 < 0x8000_0000,
        -0x8000_0000 <= r.2 < 0x8000_0000,
{
    let ghost a = edge_a(v@);
    let ghost b = edge_b(v@);
    assert(fits_i32(a[0]) && fits_i32(a[1]) && fits_i32(a[2]));
    assert(fits_i32(b[0]) && fits_i32(b[1]) && fits_i32(b[2]));
    let v0 = v[0].clip_coords.elems;
    let v1 = v[1].clip_coords.elems;
    let v2 = v[2].clip_coords.elems;
    let a0 = (v0[0].0 - v1[0].0) as i64;
    let a1 = (v0[1].0 - v1[1].0) as i64;
    let a2 = (v0[3].0 - v1[3].0) as i64;
    let b0 = (v2[0].0 - v1[0].0) as i64;
    let b1 = (v2[1].0 - v1[1].0) as i64;
    let b2 = (v2[3].0 - v1[3].0) as i64;
    proof {
        lemma_product_fits(a1 as int, b2 as int);
        lemma_product_fits(a2 as int, b1 as int);
        lemma_product_fits(a2 as int, b0 as int);
        lemma_product_fits(a0 as int, b2 as int);
        lemma_product_fits(a0 as int, b1 as int);
        lemma_product_fits(a1 as int, b0 as int);
    }
    let mut n0: i64 = a1 * b2 - a2 * b1;
    let mut n1: i64 = a2 * b0 - a0 * b2;
    let mut n2: i64 = a0 * b1 - a1 * b0;
    let ghost orig = (n0 as int, n1 as int, n2 as int);
    assert(orig == face_normal(v@));
    let mut k: usize = 0;
    loop
        invariant_except_break
            k <= 8,
            n0 > i64::MIN && n1 > i64::MIN && n2 > i64::MIN,
            -shrink_bound(k as nat) <= n0 < shrink_bound(k as nat),
            -shrink_bound(k as nat) <= n1 < shrink_bound(k as nat),
            -shrink_bound(k as nat) <= n2 < shrink_bound(k as nat),
            (n0 < 0) == (n1 < 0),
            shrink((n0 as int, n1 as int, n2 as int), (8 - k) as nat) == shrink(orig, 8),
        ensures
            (n0 as int, n1 as int, n2 as int) == shrink(orig, 8),
            -0x8000_0000 <= n0 < 0x8000_0000,
            -0x8000_0000 <= n1 < 0x8000_0000,
            -0x8000_0000 <= n2 < 0x8000_0000,
        decreases 8 - k,
    {
        let s1: i64 = if n1 < 0 { -1 } else { 0 };
        let s2: i64 = if n2 < 0 { -1 } else { 0 };
        let needed = floor_div(n0, 0x8000_0000) != s1 || floor_div(n1, 0x8000_0000) != s1
            || floor_div(n2, 0x8000_0000) != s2;
        assert(needed == shrink_needed((n0 as int, n1 as int, n2 as int)));
        if !needed {
            break;
        }
        assert(k < 8);
        n0 = floor_div(n0, 16);
        n1 = floor_div(n1, 16);
        n2 = floor_div(n2, 16);
        k = k + 1;
    }
    (n0, n1, n2)
}

impl Engine3D {
    /// Culls, clips and submits the current polygon: an edge-on polygon,
    /// or a face the attributes do not draw, is dropped; otherwise the
    /// polygon is clipped against z, y and x and, if anything is left, its
    /// vertices are projected onto the screen and appended with a polygon
    /// record. The current polygon is left empty.
    #[verifier::spinoff_prover]
    #[verifier::rlimit(80)]
    pub fn submit_polygon(&mut self)
        requires
            polygon_ok(old(self).cur_poly_verts@, *old(self)),
        ensures
            final(self).cur_poly_verts@ == Seq::<Vertex>::empty(),
            final(self).vertices@ == vertices_after(old(self).cur_poly_verts@, *old(self)),
            final(self).polygons@ == polygons_after(old(self).cur_poly_verts@, *old(self)),
            *final(self) == (Engine3D {
                cur_poly_verts: final(self).cur_poly_verts,
                vertices: final(self).vertices,
                polygons: final(self).polygons,
                ..*old(self)
            }),
    {
        let ghost e0 = *old(self);
        let ghost v = self.cur_poly_verts@;
        let n = cull_normal_exec(&self.cur_poly_verts);
        let p = self.cur_poly_verts[0].clip_coords.elems;
        let x0 = p[0].0 as i64;
        let y0 = p[1].0 as i64;
        let w0 = p[3].0 as i64;
        proof {
            lemma_product_fits(n.0 as int, x0 as int);
            lemma_product_fits(n.1 as int, y0 as int);
            lemma_product_fits(n.2 as int, w0 as int);
        }
        let dot = n.0 * x0 + n.1 * y0 + n.2 * w0;
        assert(dot == face_dot(v));
        let front = dot <= 0;
        let render = if dot == 0 {
            false
        } else if dot < 0 {
            self.polygon_attrs_latch.render_front
        } else {
            self.polygon_attrs_latch.render_back
        };
        if !render {
            self.cur_poly_verts.clear();
            return;
        }
        self.clip_plane(2);
        self.clip_plane(1);
        self.clip_plane(0);
        let count = self.cur_poly_verts.len();
        if count == 0 {
            return;
        }
        proof {
            assert(self.cur_poly_verts@ == clipped(v));
        }
        self.push_polygon(front);
    }

    /// Appends the polygon record for the (clipped, nonempty) current
    /// polygon and its projected vertices, and empties the current polygon.
    fn push_polygon(&mut self, front: bool)
        requires
            old(self).cur_poly_verts@.len() > 0,
            finalize_ok(old(self).viewport, old(self).cur_poly_verts@),
            old(self).vertices@.len() + old(self).cur_poly_verts@.len() <= usize::MAX,
        ensures
            final(self).cur_poly_verts@ == Seq::<Vertex>::empty(),
            final(self).vertices@ == old(self).vertices@ + old(self).cur_poly_verts@.map_values(
                |u: Vertex| finalized(old(self).viewport, u),
            ),
            final(self).polygons@ == old(self).polygons@.push(
                Polygon {
                    start_vert: old(self).vertices@.len() as usize,
                    end_vert: (old(self).vertices@.len() + old(self).cur_poly_verts@.len()) as usize,
                    attrs: old(self).polygon_attrs_latch,
                    tex_params: old(self).tex_params,
                    palette_base: old(self).palette_base,
                    is_front: front,
                },
            ),
            *final(self) == (Engine3D {
                cur_poly_verts: final(self).cur_poly_verts,
                vertices: final(self).vertices,
                polygons: final(self).polygons,
                ..*old(self)
            }),
    {
        let count = self.cur_poly_verts.len();
        let start = self.vertices.len();
        self.polygons.push(
            Polygon {
                start_vert: start,
                end_vert: start + count,
                attrs: self.polygon_attrs_latch,
                tex_params: self.tex_params,
                palette_base: self.palette_base,
                is_front: front,
            },
        );
        let ghost cv = self.cur_poly_verts@;
        let ghost vp = self.viewport;
        let ghost v0 = old(self).vertices@;
        let ghost pre = *self;
        let mut i: usize = 0;
        while i < count
            invariant
                i <= count,
                count == cv.len(),
                cv == self.cur_poly_verts@,
                vp == self.viewport,
                finalize_ok(vp, cv),
                self.vertices@ == v0 + cv.subrange(0, i as int).map_values(
                    |u: Vertex| finalized(vp, u),
                ),
                *self == (Engine3D { vertices: self.vertices, ..pre }),
            decreases count - i,
        {
            let vert = self.cur_poly_verts[i];
            let f = self.finalize_vertex(&vert);
            self.vertices.push(f);
            proof {
                let m1 = cv.subrange(0, i as int).map_values(|u: Vertex| finalized(vp, u));
                let m2 = cv.subrange(0, i + 1).map_values(|u: Vertex| finalized(vp, u));
                assert(m2 =~= m1.push(finalized(vp, vert)));
            }
            i = i + 1;
        }
        assert(cv.subrange(0, count as int) =~= cv);
        self.cur_poly_verts.clear();
    }

    /// A clipped vertex with its screen coordinates and 24-bit depth.
    fn finalize_vertex(&self, vert: &Vertex) -> (r: Vertex)
        requires
            cc(*vert, 3) != 0,
            screen_x_ok(self.viewport, vert.clip_coords),
            screen_y_ok(self.viewport, vert.clip_coords),
        ensures
            r == finalized(self.viewport, *vert),
    {
        let z = vert.clip_coords.elems[2].raw() as i64;
        let w = vert.clip_coords.elems[3].raw() as i64;
        proof {
            lemma_trunc_div_bound(z * 0x4000, w as int);
        }
        let q = trunc_div_rem(z * 0x4000, w).0;
        let d = (q + 0x3FFF) * 0x200;
        let m = d - 0x100_0000 * floor_div(d, 0x100_0000);
        let sx = self.viewport.screen_x(&vert.clip_coords);
        let sy = self.viewport.screen_y(&vert.clip_coords);
        let r = Vertex { screen_coords: [sx, sy], z_depth: m as u32, ..*vert };
        assert(r.screen_coords =~= finalized(self.viewport, *vert).screen_coords);
        r
    }
}

/// The position `(x, y, z, 1)` of a submitted vertex.
pub open spec fn vertex_pos(x: FixedPoint, y: FixedPoint, z: FixedPoint) -> Vec4 {
    Vec4 { elems: [x, y, z, FixedPoint(0x1000)] }
}

/// Component `c` of the clip coordinates of a vertex at `p`.
pub open spec fn clip_component(e: Engine3D, p: Vec4, c: int) -> FixedPoint {
    from_mul_spec(dot(column(e.mats.clip_mat.elems@, c), vec4_raw(p), 4) as i64)
}

/// The clip coordinates of a vertex at `p`: the clip matrix times `p`.
pub open spec fn clip_of(e: Engine3D, p: Vec4) -> Vec4 {
    Vec4 {
        elems: [
            clip_component(e, p, 0),
            clip_component(e, p, 1),
            clip_component(e, p, 2),
            clip_component(e, p, 3),
        ],
    }
}

/// The state with `prev_pos` set to the new vertex's position.
pub open spec fn with_pos(e: Engine3D, x: FixedPoint, y: FixedPoint, z: FixedPoint) -> Engine3D {
    Engine3D { prev_pos: [x, y, z], ..e }
}

/// The zero vector passed to texture transformations without a normal.
pub open spec fn zero3() -> Seq<FixedPoint> {
    seq![FixedPoint(0), FixedPoint(0), FixedPoint(0)]
}

/// The texture coordinates of a new vertex at `(x, y, z)`.
pub open spec fn vertex_tex(e: Engine3D, x: FixedPoint, y: FixedPoint, z: FixedPoint) -> Seq<i16> {
    tex_transformed(with_pos(e, x, y, z), TexCoordTransformationMode::Vertex, zero3())
}

/// The vertex that `(x, y, z)` adds to the current polygon.
pub open spec fn new_vertex(e: Engine3D, x: FixedPoint, y: FixedPoint, z: FixedPoint) -> Vertex {
    let t = vertex_tex(e, x, y, z);
    Vertex {
        clip_coords: clip_of(e, vertex_pos(x, y, z)),
        screen_coords: [0, 0],
        z_depth: 0,
        color: e.color,
        tex_coord: [t[0], t[1]],
    }
}

/// The current polygon with the new vertex.
pub open spec fn verts_with(e: Engine3D, x: FixedPoint, y: FixedPoint, z: FixedPoint) -> Seq<Vertex> {
    e.cur_poly_verts@.push(new_vertex(e, x, y, z))
}

/// Whether the new vertex completes a polygon of the current primitive.
pub open spec fn completes(e: Engine3D, n: nat) -> bool {
    match e.vertex_primitive {
        VertexPrimitive::Triangles | VertexPrimitive::TriangleStrips => n == 3,
        VertexPrimitive::Quad | VertexPrimitive::QuadStrips => n == 4,
    }
}

/// The polygon a completed primitive submits: strips alternate the
/// winding of their triangles, and a quad strip's last two vertices are
/// swapped into polygon order.
pub open spec fn primitive_polygon(e: Engine3D, v: Seq<Vertex>) -> Seq<Vertex> {
    match e.vertex_primitive {
        VertexPrimitive::TriangleStrips => if e.swap_verts {
            seq![v[0], v[2], v[1]]
        } else {
            v
        },
        VertexPrimitive::QuadStrips => seq![v[0], v[1], v[3], v[2]],
        _ => v,
    }
}

/// The current polygon after a completed primitive: strips keep their
/// last two vertices.
pub open spec fn primitive_rest(e: Engine3D, v: Seq<Vertex>) -> Seq<Vertex> {
    match e.vertex_primitive {
        VertexPrimitive::TriangleStrips => seq![v[1], v[2]],
        VertexPrimitive::QuadStrips => seq![v[2], v[3]],
        _ => Seq::empty(),
    }
}

/// Whether the primitive is a strip.
pub open spec fn is_strip(p: VertexPrimitive) -> bool {
    p == VertexPrimitive::TriangleStrips || p == VertexPrimitive::QuadStrips
}

/// Whether `(x, y, z)` can be submitted: the clip coordinates and the
/// texture transformation fit, and a polygon it completes can be
/// submitted.
pub open spec fn vertex_ok(e: Engine3D, x: FixedPoint, y: FixedPoint, z: FixedPoint) -> bool {
    let v = verts_with(e, x, y, z);
    &&& forall|c: int| 0 <= c < 4 ==> dot_fits(#[trigger] column(e.mats.clip_mat.elems@, c), vec4_raw(vertex_pos(x, y, z)), 4)
    &&& tex_transform_ok(with_pos(e, x, y, z), TexCoordTransformationMode::Vertex, zero3())
    &&& completes(e, v.len()) ==> polygon_ok(primitive_polygon(e, v), e)
}

/// The state after submitting a vertex at `(x, y, z)` in state `e`.
pub open spec fn vertex_effect(e: Engine3D, f: Engine3D, x: FixedPoint, y: FixedPoint, z: FixedPoint) -> bool {
    let v = verts_with(e, x, y, z);
    &&& f.prev_pos@ == seq![x, y, z]
    &&& f.tex_coord@ == vertex_tex(e, x, y, z)
    &&& if completes(e, v.len()) {
        &&& f.cur_poly_verts@ == primitive_rest(e, v)
        &&& f.vertices@ == vertices_after(primitive_polygon(e, v), e)
        &&& f.polygons@ == polygons_after(primitive_polygon(e, v), e)
        &&& f.swap_verts == (e.swap_verts != is_strip(e.vertex_primitive))
    } else {
        &&& f.cur_poly_verts@ == v
        &&& f.vertices == e.vertices
        &&& f.polygons == e.polygons
        &&& f.swap_verts == e.swap_verts
    }
    &&& f == (Engine3D {
        prev_pos: f.prev_pos,
        tex_coord: f.tex_coord,
        cur_poly_verts: f.cur_poly_verts,
        vertices: f.vertices,
        polygons: f.polygons,
        swap_verts: f.swap_verts,
        ..e
    })
}

impl Engine3D {
    /// Submits a vertex at `(x, y, z)`: it becomes the last position, is
    /// taken through the clip matrix, gets the current colour and texture
    /// coordinates, and joins the current polygon; a completed triangle or
    /// quad is submitted (strips keep their last two vertices and flip
    /// the winding flag).
    pub fn submit_vertex(&mut self, x: FixedPoint, y: FixedPoint, z: FixedPoint)
        requires
            vertex_ok(*old(self), x, y, z),
        ensures
            vertex_effect(*old(self), *final(self), x, y, z),
    {
        self.push_vertex(x, y, z);
        self.complete_primitive();
    }

    /// Sets the last position and appends the new vertex to the current
    /// polygon.
    fn push_vertex(&mut self, x: FixedPoint, y: FixedPoint, z: FixedPoint)
        requires
            forall|c: int|
                0 <= c < 4 ==> dot_fits(
                    #[trigger] column(old(self).mats.clip_mat.elems@, c),
                    vec4_raw(vertex_pos(x, y, z)),
                    4,
                ),
            tex_transform_ok(with_pos(*old(self), x, y, z), TexCoordTransformationMode::Vertex, zero3()),
        ensures
            final(self).prev_pos@ == seq![x, y, z],
            final(self).tex_coord@ == vertex_tex(*old(self), x, y, z),
            final(self).cur_poly_verts@ == verts_with(*old(self), x, y, z),
            *final(self) == (Engine3D {
                prev_pos: final(self).prev_pos,
                tex_coord: final(self).tex_coord,
                cur_poly_verts: final(self).cur_poly_verts,
                ..*old(self)
            }),
    {
        let ghost e = *old(self);
        self.prev_pos = [x, y, z];
        assert(*self == with_pos(e, x, y, z));
        let pos = Vec4::new(x, y, z, FixedPoint::one());
        assert(pos.elems =~= vertex_pos(x, y, z).elems);
        let clip_coords = self.mats.clip_mat.mul_vec4(pos);
        assert(clip_coords.elems =~= clip_of(e, vertex_pos(x, y, z)).elems);
        self.transform_tex_coord(TexCoordTransformationMode::Vertex, None);
        let vert = Vertex {
            clip_coords,
            screen_coords: [0, 0],
            z_depth: 0,
            color: self.color,
            tex_coord: self.tex_coord,
        };
        assert(vert.tex_coord =~= new_vertex(e, x, y, z).tex_coord);
        assert(vert.screen_coords =~= new_vertex(e, x, y, z).screen_coords);
        assert(vert == new_vertex(e, x, y, z));
        self.cur_poly_verts.push(vert);
    }

    /// Submits the current polygon if it completes the primitive.
    #[verifier::spinoff_prover]
    #[verifier::rlimit(40)]
    fn complete_primitive(&mut self)
        requires
            completes(*old(self), old(self).cur_poly_verts@.len()) ==> polygon_ok(
                primitive_polygon(*old(self), old(self).cur_poly_verts@),
                *old(self),
            ),
        ensures
            ({
                let e = *old(self);
                let v = e.cur_poly_verts@;
                if completes(e, v.len()) {
                    &&& final(self).cur_poly_verts@ == primitive_rest(e, v)
                    &&& final(self).vertices@ == vertices_after(primitive_polygon(e, v), e)
                    &&& final(self).polygons@ == polygons_after(primitive_polygon(e, v), e)
                    &&& final(self).swap_verts == (e.swap_verts != is_strip(e.vertex_primitive))
                } else {
                    *final(self) == e
                }
            }),
            *final(self) == (Engine3D {
                cur_poly_verts: final(self).cur_poly_verts,
                vertices: final(self).vertices,
                polygons: final(self).polygons,
                swap_verts: final(self).swap_verts,
                ..*old(self)
            }),
    {
        let len = self.cur_poly_verts.len();
        match self.vertex_primitive {
            VertexPrimitive::Triangles => {
                if len == 3 {
                    self.submit_polygon();
                }
            },
            VertexPrimitive::Quad => {
                if len == 4 {
                    self.submit_polygon();
                }
            },
            VertexPrimitive::TriangleStrips => {
                if len == 3 {
                    self.submit_strip(1);
                }
            },
            VertexPrimitive::QuadStrips => {
                if len == 4 {
                    self.submit_strip(2);
                }
            },
        }
    }

    /// Submits a completed strip polygon (`first` is the index of the
    /// first vertex kept: 1 for triangle strips, 2 for quad strips) and
    /// keeps its last two vertices.
    fn submit_strip(&mut self, first: usize)
        requires
            first == 1 && old(self).vertex_primitive == VertexPrimitive::TriangleStrips
                && old(self).cur_poly_verts@.len() == 3 || first == 2 && old(self).vertex_primitive
                == VertexPrimitive::QuadStrips && old(self).cur_poly_verts@.len() == 4,
            polygon_ok(primitive_polygon(*old(self), old(self).cur_poly_verts@), *old(self)),
        ensures
            ({
                let e = *old(self);
                let v = e.cur_poly_verts@;
                &&& final(self).cur_poly_verts@ == primitive_rest(e, v)
                &&& final(self).vertices@ == vertices_after(primitive_polygon(e, v), e)
                &&& final(self).polygons@ == polygons_after(primitive_polygon(e, v), e)
                &&& final(self).swap_verts == !e.swap_verts
            }),
            *final(self) == (Engine3D {
                cur_poly_verts: final(self).cur_poly_verts,
                vertices: final(self).vertices,
                polygons: final(self).polygons,
                swap_verts: final(self).swap_verts,
                ..*old(self)
            }),
    {
        let ghost e = *old(self);
        let ghost v = self.cur_poly_verts@;
        let new_vert0 = self.cur_poly_verts[first];
        let new_vert1 = self.cur_poly_verts[first + 1];
        if first == 2 || self.swap_verts {
            self.cur_poly_verts.set(first, new_vert1);
            self.cur_poly_verts.set(first + 1, new_vert0);
        }
        assert(self.cur_poly_verts@ =~= primitive_polygon(e, v));
        self.submit_polygon();
        self.cur_poly_verts.push(new_vert0);
        self.cur_poly_verts.push(new_vert1);
        self.swap_verts = !self.swap_verts;
        assert(self.cur_poly_verts@ =~= primitive_rest(e, v));
    }
}

} // verus!
