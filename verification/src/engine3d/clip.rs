//! Clipping the current polygon against the view volume, one plane pair at
//! a time: first against `c <= w`, then against `c >= -w`.
use vstd::prelude::*;
use super::engine::Engine3D;
use super::fixed::{FixedPoint, Vec4, fits_i64};
use vstd::array::group_array_axioms;
use super::geometry::{Color, Vertex};
use crate::math::{trunc_div, trunc_div_rem, lemma_trunc_div_bound, abs};

verus! {

broadcast use group_array_axioms;

/// Clip coordinate `i` of `v` as a raw value.
pub open spec fn cc(v: Vertex, i: int) -> int {
    v.clip_coords.elems@[i].0 as int
}

/// How far `v` is inside the plane `coord = ±w`: `w ∓ coord`.
pub open spec fn plane_dist(v: Vertex, coord: int, positive: bool) -> int {
    if positive {
        cc(v, 3) - cc(v, coord)
    } else {
        cc(v, 3) + cc(v, coord)
    }
}

/// Whether `v` is on the inner side of the plane.
pub open spec fn inside(v: Vertex, coord: int, positive: bool) -> bool {
    plane_dist(v, coord, positive) >= 0
}

/// `a` moved toward `b` by the fraction `numer / denom`, rounded toward
/// zero as the 64-bit division does.
pub open spec fn lerp(a: int, b: int, numer: int, denom: int) -> int {
    a + trunc_div((b - a) * numer, denom)
}

/// The vertex where the edge from `inn` (inside) to `out` (outside)
/// crosses the plane: every attribute is interpolated, and the clipped
/// coordinate is set to `±w` exactly.
pub open spec fn intersection(coord: int, positive: bool, inn: Vertex, out: Vertex) -> Vertex {
    let numer = plane_dist(inn, coord, positive);
    let denom = numer - plane_dist(out, coord, positive);
    let w = lerp(cc(inn, 3), cc(out, 3), numer, denom) as i32;
    let c = |i: int|
        if i == coord {
            (if positive {
                w as int
            } else {
                -(w as int)
            }) as i32
        } else {
            lerp(cc(inn, i), cc(out, i), numer, denom) as i32
        };
    Vertex {
        clip_coords: Vec4 { elems: [FixedPoint(c(0)), FixedPoint(c(1)), FixedPoint(c(2)), FixedPoint(w)] },
        screen_coords: [0, 0],
        z_depth: 0,
        color: Color {
            r: lerp(inn.color.r as int, out.color.r as int, numer, denom) as u8,
            g: lerp(inn.color.g as int, out.color.g as int, numer, denom) as u8,
            b: lerp(inn.color.b as int, out.color.b as int, numer, denom) as u8,
        },
        tex_coord: [
            lerp(inn.tex_coord@[0] as int, out.tex_coord@[0] as int, numer, denom) as i16,
            lerp(inn.tex_coord@[1] as int, out.tex_coord@[1] as int, numer, denom) as i16,
        ],
    }
}

/// Whether the interpolations of the clip coordinates for the crossing
/// from `inn` to `out` stay within 64 bits.
pub open spec fn intersection_ok(coord: int, positive: bool, inn: Vertex, out: Vertex) -> bool {
    let numer = plane_dist(inn, coord, positive);
    forall|i: int| 0 <= i < 4 && i != coord ==> fits_i64((#[trigger] cc(out, i) - cc(inn, i)) * numer)
}

/// The vertex before `i` in the polygon `vs`, wrapping around.
pub open spec fn prev_index(vs: Seq<Vertex>, i: int) -> int {
    if i == 0 {
        vs.len() - 1
    } else {
        i - 1
    }
}

/// The output of a clipping pass over the first `k` vertices of `vs`: a
/// vertex inside the plane is kept, preceded by the crossing from its
/// predecessor when that is outside; an outside vertex after an inside one
/// contributes the crossing.
pub open spec fn pass_prefix(vs: Seq<Vertex>, coord: int, positive: bool, k: nat) -> Seq<Vertex>
    decreases k,
{
    if k == 0 {
        Seq::empty()
    } else {
        let out = pass_prefix(vs, coord, positive, (k - 1) as nat);
        let i = k - 1;
        let cur = vs[i];
        let prev = vs[prev_index(vs, i)];
        if inside(cur, coord, positive) {
            if !inside(prev, coord, positive) {
                out.push(intersection(coord, positive, cur, prev)).push(cur)
            } else {
                out.push(cur)
            }
        } else if inside(prev, coord, positive) {
            out.push(intersection(coord, positive, prev, cur))
        } else {
            out
        }
    }
}

/// A whole clipping pass.
pub open spec fn clip_pass(vs: Seq<Vertex>, coord: int, positive: bool) -> Seq<Vertex> {
    pass_prefix(vs, coord, positive, vs.len())
}

/// Whether step `i` of a pass can run: the negative plane negates both
/// vertices' `w`, and a crossing must interpolate within 64 bits.
pub open spec fn step_ok(vs: Seq<Vertex>, coord: int, positive: bool, i: int) -> bool {
    let cur = vs[i];
    let prev = vs[prev_index(vs, i)];
    &&& !positive ==> cc(cur, 3) != i32::MIN && cc(prev, 3) != i32::MIN
    &&& inside(cur, coord, positive) && !inside(prev, coord, positive) ==> intersection_ok(
        coord,
        positive,
        cur,
        prev,
    )
    &&& !inside(cur, coord, positive) && inside(prev, coord, positive) ==> intersection_ok(
        coord,
        positive,
        prev,
        cur,
    )
}

/// Whether a whole pass can run.
pub open spec fn pass_ok(vs: Seq<Vertex>, coord: int, positive: bool) -> bool {
    forall|i: int| 0 <= i < vs.len() ==> #[trigger] step_ok(vs, coord, positive, i)
}

/// The polygon clipped against both planes of coordinate `coord`.
pub open spec fn clip_both(vs: Seq<Vertex>, coord: int) -> Seq<Vertex> {
    clip_pass(clip_pass(vs, coord, true), coord, false)
}

/// Whether clipping against coordinate `coord` can run: both passes can,
/// and the first leaves at most ten vertices.
pub open spec fn clip_ok(vs: Seq<Vertex>, coord: int) -> bool {
    &&& pass_ok(vs, coord, true)
    &&& clip_pass(vs, coord, true).len() <= 10
    &&& pass_ok(clip_pass(vs, coord, true), coord, false)
}

proof fn lemma_pass_len_mono(vs: Seq<Vertex>, coord: int, positive: bool, k: nat, n: nat)
    requires
        k <= n,
    ensures
        pass_prefix(vs, coord, positive, k).len() <= pass_prefix(vs, coord, positive, n).len(),
    decreases n - k,
{
    if k < n {
        lemma_pass_len_mono(vs, coord, positive, k, (n - 1) as nat);
    }
}

/// `a` moved toward `b` by `numer / denom`.
fn lerp_exec(a: i64, b: i64, numer: i64, denom: i64) -> (r: i64)
    requires
        0 <= numer < denom,
        -0x8000_0000 <= a <= 0xFFFF_FFFF,
        -0x8000_0000 <= b <= 0xFFFF_FFFF,
        fits_i64((b - a) * numer),
    ensures
        r == lerp(a as int, b as int, numer as int, denom as int),
        a <= b ==> a <= r <= b,
        b <= a ==> b <= r <= a,
{
    let x = (b - a) * numer;
    proof {
        lemma_lerp_between(a as int, b as int, numer as int, denom as int);
    }
    let q = trunc_div_rem(x, denom).0;
    a + q
}

proof fn lemma_lerp_between(a: int, b: int, numer: int, denom: int)
    requires
        0 <= numer < denom,
    ensures
        a <= b ==> a <= lerp(a, b, numer, denom) <= b,
        b <= a ==> b <= lerp(a, b, numer, denom) <= a,
{
    let x = (b - a) * numer;
    let d = b - a;
    if d >= 0 {
        assert(0 <= d * numer <= d * denom) by (nonlinear_arith)
            requires
                d >= 0,
                0 <= numer < denom;
        assert((d * numer) / denom <= d) by (nonlinear_arith)
            requires
                d >= 0,
                0 <= d * numer <= d * denom,
                denom > 0;
        assert(abs(x) == x && abs(denom) == denom);
        assert(0 <= (d * numer) / denom) by (nonlinear_arith)
            requires
                d * numer >= 0,
                denom > 0;
    } else {
        let e = -d;
        assert(0 <= e * numer <= e * denom) by (nonlinear_arith)
            requires
                e > 0,
                0 <= numer < denom;
        assert((e * numer) / denom <= e) by (nonlinear_arith)
            requires
                e > 0,
                0 <= e * numer <= e * denom,
                denom > 0;
        assert(0 <= (e * numer) / denom) by (nonlinear_arith)
            requires
                e * numer >= 0,
                denom > 0;
        assert(x == -(e * numer)) by (nonlinear_arith)
            requires
                x == d * numer,
                e == -d;
        assert(abs(x) == e * numer);
    }
}

/// The vertex where the edge from `inn` to `out` crosses the plane
/// `coord = ±w`.
pub fn find_intersection(coord_i: usize, positive: bool, inn: &Vertex, out: &Vertex) -> (r: Vertex)
    requires
        coord_i < 3,
        inside(*inn, coord_i as int, positive),
        !inside(*out, coord_i as int, positive),
        intersection_ok(coord_i as int, positive, *inn, *out),
    ensures
        r == intersection(coord_i as int, positive, *inn, *out),
{
    let ic = inn.clip_coords.elems[coord_i].raw() as i64;
    let oc = out.clip_coords.elems[coord_i].raw() as i64;
    let numer: i64 = inn.clip_coords.elems[3].raw() as i64 - if positive { ic } else { -ic };
    let denom: i64 = numer - (out.clip_coords.elems[3].raw() as i64 - if positive { oc } else { -oc });
    let ghost ci = coord_i as int;
    assert(numer == plane_dist(*inn, ci, positive));
    assert(fits_i64((cc(*out, 3) - cc(*inn, 3)) * numer));
    let w = lerp_exec(
        inn.clip_coords.elems[3].raw() as i64,
        out.clip_coords.elems[3].raw() as i64,
        numer,
        denom,
    ) as i32;
    let mut c: [FixedPoint; 3] = [FixedPoint(0), FixedPoint(0), FixedPoint(0)];
    let mut i: usize = 0;
    while i < 3
        invariant
            i <= 3,
            coord_i < 3,
            ci == coord_i,
            numer == plane_dist(*inn, ci, positive),
            denom == numer - plane_dist(*out, ci, positive),
            0 <= numer < denom,
            w == lerp(cc(*inn, 3), cc(*out, 3), numer as int, denom as int) as i32,
            intersection_ok(ci, positive, *inn, *out),
            forall|k: int| 0 <= k < i ==> #[trigger] c@[k] == FixedPoint(
                if k == ci {
                    (if positive {
                w as int
            } else {
                -(w as int)
            }) as i32
                } else {
                    lerp(cc(*inn, k), cc(*out, k), numer as int, denom as int) as i32
                },
            ),
        decreases 3 - i,
    {
        if i == coord_i {
            c[i] = FixedPoint::from_frac12((if positive { w as i64 } else { -(w as i64) }) as i32);
        } else {
            assert(fits_i64((cc(*out, i as int) - cc(*inn, i as int)) * numer));
            let v = lerp_exec(
                inn.clip_coords.elems[i].raw() as i64,
                out.clip_coords.elems[i].raw() as i64,
                numer,
                denom,
            );
            c[i] = FixedPoint::from_frac12(v as i32);
        }
        i = i + 1;
    }
    proof {
        assert(0 <= (out.color.r as int - inn.color.r as int) * numer <= 0x100 * 0x2_0000_0000
            || -0x100 * 0x2_0000_0000 <= (out.color.r as int - inn.color.r as int) * numer <= 0)
            by (nonlinear_arith)
            requires
                0 <= numer < 0x2_0000_0000,
                -0x100 <= out.color.r as int - inn.color.r as int <= 0x100;
        assert(0 <= (out.color.g as int - inn.color.g as int) * numer <= 0x100 * 0x2_0000_0000
            || -0x100 * 0x2_0000_0000 <= (out.color.g as int - inn.color.g as int) * numer <= 0)
            by (nonlinear_arith)
            requires
                0 <= numer < 0x2_0000_0000,
                -0x100 <= out.color.g as int - inn.color.g as int <= 0x100;
        assert(0 <= (out.color.b as int - inn.color.b as int) * numer <= 0x100 * 0x2_0000_0000
            || -0x100 * 0x2_0000_0000 <= (out.color.b as int - inn.color.b as int) * numer <= 0)
            by (nonlinear_arith)
            requires
                0 <= numer < 0x2_0000_0000,
                -0x100 <= out.color.b as int - inn.color.b as int <= 0x100;
        assert(0 <= (out.tex_coord@[0] as int - inn.tex_coord@[0] as int) * numer <= 0x1_0000
            * 0x2_0000_0000 || -0x1_0000 * 0x2_0000_0000 <= (out.tex_coord@[0] as int
            - inn.tex_coord@[0] as int) * numer <= 0) by (nonlinear_arith)
            requires
                0 <= numer < 0x2_0000_0000,
                -0x1_0000 <= out.tex_coord@[0] as int - inn.tex_coord@[0] as int <= 0x1_0000;
        assert(0 <= (out.tex_coord@[1] as int - inn.tex_coord@[1] as int) * numer <= 0x1_0000
            * 0x2_0000_0000 || -0x1_0000 * 0x2_0000_0000 <= (out.tex_coord@[1] as int
            - inn.tex_coord@[1] as int) * numer <= 0) by (nonlinear_arith)
            requires
                0 <= numer < 0x2_0000_0000,
                -0x1_0000 <= out.tex_coord@[1] as int - inn.tex_coord@[1] as int <= 0x1_0000;
    }
    let r8 = lerp_exec(inn.color.r as i64, out.color.r as i64, numer, denom) as u8;
    let g8 = lerp_exec(inn.color.g as i64, out.color.g as i64, numer, denom) as u8;
    let b8 = lerp_exec(inn.color.b as i64, out.color.b as i64, numer, denom) as u8;
    let t0 = lerp_exec(inn.tex_coord[0] as i64, out.tex_coord[0] as i64, numer, denom) as i16;
    let t1 = lerp_exec(inn.tex_coord[1] as i64, out.tex_coord[1] as i64, numer, denom) as i16;
    let r = Vertex {
        clip_coords: Vec4::new(c[0], c[1], c[2], FixedPoint::from_frac12(w)),
        screen_coords: [0, 0],
        z_depth: 0,
        color: Color::new8(r8, g8, b8),
        tex_coord: [t0, t1],
    };
    let ghost expect = intersection(ci, positive, *inn, *out);
    assert(r.clip_coords.elems =~= expect.clip_coords.elems);
    assert(r.screen_coords =~= expect.screen_coords);
    assert(r.tex_coord =~= expect.tex_coord);
    r
}

impl Engine3D {
    /// Clips the current polygon against the planes `coord = w` and
    /// `coord = -w`.
    pub fn clip_plane(&mut self, coord_i: usize)
        requires
            coord_i < 3,
            clip_ok(old(self).cur_poly_verts@, coord_i as int),
        ensures
            final(self).cur_poly_verts@ == clip_both(old(self).cur_poly_verts@, coord_i as int),
            *final(self) == (Engine3D { cur_poly_verts: final(self).cur_poly_verts, ..*old(self) }),
    {
        let ghost c = coord_i as int;
        let ghost vs = self.cur_poly_verts@;
        let z = Vertex::new();
        let mut new_verts: [Vertex; 10] = [z, z, z, z, z, z, z, z, z, z];
        let mut nvi: usize = 0;
        let n = self.cur_poly_verts.len();
        let mut i: usize = 0;
        while i < n
            invariant
                n == vs.len(),
                i <= n,
                coord_i < 3,
                c == coord_i,
                vs == self.cur_poly_verts@,
                *self == *old(self),
                clip_ok(vs, c),
                nvi == pass_prefix(vs, c, true, i as nat).len(),
                nvi <= 10,
                new_verts@.subrange(0, nvi as int) == pass_prefix(vs, c, true, i as nat),
            decreases n - i,
        {
            proof {
                lemma_pass_len_mono(vs, c, true, (i + 1) as nat, n as nat);
                assert(step_ok(vs, c, true, i as int));
            }
            let ghost before = new_verts@;
            let cur = self.cur_poly_verts[i];
            let pi = if i == 0 { n - 1 } else { i - 1 };
            let prev = self.cur_poly_verts[pi];
            if cur.clip_coords.elems[coord_i].0 <= cur.clip_coords.elems[3].0 {
                if prev.clip_coords.elems[coord_i].0 > prev.clip_coords.elems[3].0 {
                    new_verts[nvi] = find_intersection(coord_i, true, &cur, &prev);
                    nvi = nvi + 1;
                }
                new_verts[nvi] = cur;
                nvi = nvi + 1;
            } else if prev.clip_coords.elems[coord_i].0 <= prev.clip_coords.elems[3].0 {
                new_verts[nvi] = find_intersection(coord_i, true, &prev, &cur);
                nvi = nvi + 1;
            }
            assert(new_verts@.subrange(0, nvi as int) =~= pass_prefix(vs, c, true, (i + 1) as nat));
            i = i + 1;
        }
        let ghost p1 = new_verts@.subrange(0, nvi as int);
        assert(p1 == clip_pass(vs, c, true));
        self.cur_poly_verts.clear();
        let mut j: usize = 0;
        while j < nvi
            invariant
                j <= nvi,
                nvi <= 10,
                coord_i < 3,
                c == coord_i,
                p1 == new_verts@.subrange(0, nvi as int),
                p1 == clip_pass(vs, c, true),
                clip_ok(vs, c),
                *self == (Engine3D { cur_poly_verts: self.cur_poly_verts, ..*old(self) }),
                self.cur_poly_verts@ == pass_prefix(p1, c, false, j as nat),
            decreases nvi - j,
        {
            proof {
                assert(step_ok(p1, c, false, j as int));
            }
            let cur = new_verts[j];
            let pj = if j == 0 { nvi - 1 } else { j - 1 };
            let prev = new_verts[pj];
            assert(cur == p1[j as int] && prev == p1[prev_index(p1, j as int)]);
            if cur.clip_coords.elems[coord_i].0 >= -cur.clip_coords.elems[3].0 {
                if prev.clip_coords.elems[coord_i].0 < -prev.clip_coords.elems[3].0 {
                    let v = find_intersection(coord_i, false, &cur, &prev);
                    self.cur_poly_verts.push(v);
                }
                self.cur_poly_verts.push(cur);
            } else if prev.clip_coords.elems[coord_i].0 >= -prev.clip_coords.elems[3].0 {
                let v = find_intersection(coord_i, false, &prev, &cur);
                self.cur_poly_verts.push(v);
            }
            j = j + 1;
        }
    }
}

} // verus!
