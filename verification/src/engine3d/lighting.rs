//! Vertex lighting and texture coordinate transformation.
use vstd::prelude::*;
use super::engine::Engine3D;
use super::fixed::{
    FixedPoint,
    column,
    dot,
    dot_fits,
    fits_i32,
    fits_i64,
    from_mul_spec,
    mat_vec3,
    mul_vec3_ok,
    vec3_raw,
};
use super::geometry::{Color, Light, Material, widen5, widen6};
use super::registers::TexCoordTransformationMode;
use crate::bits::lemma_i64_shr24_bounds;

verus! {

/// `x / d` rounded down, for a positive `d`.
pub(crate) fn floor_div(x: i64, d: i64) -> (r: i64)
    requires
        d > 0,
        x > i64::MIN,
    ensures
        r == x / d,
{
    if x >= 0 {
        ((x as u64) / (d as u64)) as i64
    } else {
        let m: u64 = (-x) as u64;
        let q: u64 = (m + (d as u64 - 1)) / (d as u64);
        proof {
            lemma_floor_of_negative(x as int, d as int);
        }
        -(q as i64)
    }
}

proof fn lemma_floor_of_negative(x: int, d: int)
    by (nonlinear_arith)
    requires
        d > 0,
        x < 0,
    ensures
        x / d == -((-x + d - 1) / d),
        (-x + d - 1) / d <= -x,
{
    let q = x / d;
    let r = x % d;
    assert(x == q * d + r && 0 <= r < d);
    assert(-x + d - 1 == (-q) * d + (d - 1 - r));
    assert((-x + d - 1) / d == -q);
}

/// `x / 2` rounded toward zero.
pub open spec fn half_toward_zero(x: int) -> int {
    if x >= 0 {
        x / 2
    } else {
        -((-x) / 2)
    }
}

/// The raw values of a light's direction.
pub open spec fn dir_raw(l: Light) -> Seq<int> {
    vec3_raw(l.direction@)
}

/// The raw half-way vector between the light's direction and the line of
/// sight `(0, 0, -1)`, each component halved toward zero.
pub open spec fn half_vector(l: Light) -> Seq<int> {
    seq![
        half_toward_zero(l.direction@[0].0 as int),
        half_toward_zero(l.direction@[1].0 as int),
        half_toward_zero(l.direction@[2].0 - 0x1000),
    ]
}

/// Minus the fixed-point dot product of `a` and the normal `n`, with an
/// 8-bit fraction.
pub open spec fn neg_level(a: Seq<int>, n: Seq<int>) -> int {
    (-(from_mul_spec(dot(a, n, 3) as i64).0 as int)) / 16
}

/// The diffuse level of a light, clamped to `0..=0xFF`.
pub open spec fn diffuse_level(l: Light, n: Seq<int>) -> int {
    let d = neg_level(dir_raw(l), n);
    if d < 0 {
        0
    } else if d > 0xFF {
        0xFF
    } else {
        d
    }
}

/// The specular level of a light before the shininess table: the half-way
/// level (values above 0xFF mirrored), squared, less one.
pub open spec fn shine_level(l: Light, n: Seq<int>) -> int {
    let s = neg_level(half_vector(l), n);
    let s = if s < 0 {
        0
    } else if s > 0xFF {
        (0x100 - s) % 0x100
    } else {
        s
    };
    let s = (2 * s * s) / 0x100 - 0x100;
    if s < 0 {
        0
    } else {
        s
    }
}

/// The specular level, looked up in the shininess table if it is in use.
pub open spec fn specular_level(l: Light, n: Seq<int>, m: Material) -> int {
    let s = shine_level(l, n);
    if m.use_shininess_table {
        m.shininess@[s / 2] as int
    } else {
        s
    }
}

/// The colour accumulated so far, `fc`, with one light's specular, diffuse
/// and ambient terms added.
pub open spec fn with_light(fc: Seq<int>, l: Light, n: Seq<int>, m: Material) -> Seq<int> {
    let d = diffuse_level(l, n);
    let s = specular_level(l, n, m);
    Seq::new(
        3,
        |i: int|
            fc[i] + (m.specular@[i] * l.color@[i] * s) / 0x2000 + (m.diffuse@[i] * l.color@[i] * d)
                / 0x2000 + (m.ambient@[i] * l.color@[i]) / 0x20,
    )
}

/// The colour after the first `k` lights (the enabled ones among them),
/// starting from the material's emission.
pub open spec fn lit_color(e: Engine3D, n: Seq<int>, k: nat) -> Seq<int>
    decreases k,
{
    if k == 0 {
        seq![
            e.material.emission@[0] as int,
            e.material.emission@[1] as int,
            e.material.emission@[2] as int,
        ]
    } else {
        let prev = lit_color(e, n, (k - 1) as nat);
        if e.polygon_attrs_latch.lights_enabled@[k - 1] {
            with_light(prev, e.lights@[k - 1], n, e.material)
        } else {
            prev
        }
    }
}

/// A colour component capped at 0x1F, as the byte handed to `new5`.
pub open spec fn capped5(v: int) -> u8 {
    (if v > 0x1F {
        0x1F
    } else {
        v
    }) as u8
}

/// The material and light colours are 5-bit values, as the commands that
/// set them leave them.
pub open spec fn lighting_wf(e: Engine3D) -> bool {
    &&& forall|i: int| 0 <= i < 3 ==> 0 <= #[trigger] e.material.diffuse@[i] < 32
    &&& forall|i: int| 0 <= i < 3 ==> 0 <= #[trigger] e.material.ambient@[i] < 32
    &&& forall|i: int| 0 <= i < 3 ==> 0 <= #[trigger] e.material.specular@[i] < 32
    &&& forall|i: int| 0 <= i < 3 ==> 0 <= #[trigger] e.material.emission@[i] < 32
    &&& forall|j: int, i: int| 0 <= j < 4 && 0 <= i < 3 ==> 0 <= #[trigger] e.lights@[j].color@[i] < 32
}

/// Whether a light's levels against the normal `n` can be computed
/// without overflow.
pub open spec fn light_ok(l: Light, n: Seq<int>) -> bool {
    &&& dot_fits(dir_raw(l), n, 3)
    &&& from_mul_spec(dot(dir_raw(l), n, 3) as i64).0 != i32::MIN
    &&& fits_i32(l.direction@[2].0 - 0x1000)
    &&& dot_fits(half_vector(l), n, 3)
    &&& from_mul_spec(dot(half_vector(l), n, 3) as i64).0 != i32::MIN
}

/// Whether the texture coordinate transformation of `mode`, with normal
/// `n`, can be computed without overflow.
pub open spec fn tex_transform_ok(e: Engine3D, mode: TexCoordTransformationMode, n: Seq<FixedPoint>) -> bool {
    let m = e.mats.cur_tex.elems@;
    let s = e.raw_tex_coord@[0] as int;
    let t = e.raw_tex_coord@[1] as int;
    e.tex_params.coord_transformation_mode == mode ==> match mode {
        TexCoordTransformationMode::TexCoord => texcoord_ok(s, t, m, 0) && texcoord_ok(s, t, m, 1),
        TexCoordTransformationMode::Normal => dot_fits(vec3_raw(n), column(m, 0), 3) && dot_fits(
            vec3_raw(n),
            column(m, 1),
            3,
        ),
        TexCoordTransformationMode::Vertex => dot_fits(vec3_raw(e.prev_pos@), column(m, 0), 3)
            && dot_fits(vec3_raw(e.prev_pos@), column(m, 1), 3),
        TexCoordTransformationMode::Untransformed => true,
    }
}

/// Component `c` of a texture coordinate transformed with the texture
/// matrix `m` from a source vector `v` (normal or vertex) and offset `base`.
pub open spec fn vector_tex(v: Seq<FixedPoint>, m: Seq<FixedPoint>, c: int, base: int) -> i16 {
    ((((dot(vec3_raw(v), column(m, c), 3) as i64) >> 24u64) as int) + base) as i16
}

/// The texture coordinates after the transformation of `mode` (which
/// applies only when the texture parameters select that mode).
pub open spec fn tex_transformed(e: Engine3D, mode: TexCoordTransformationMode, n: Seq<FixedPoint>) -> Seq<i16> {
    let m = e.mats.cur_tex.elems@;
    let s = e.raw_tex_coord@[0] as int;
    let t = e.raw_tex_coord@[1] as int;
    if e.tex_params.coord_transformation_mode != mode {
        e.tex_coord@
    } else {
        match mode {
            TexCoordTransformationMode::Untransformed => e.raw_tex_coord@,
            TexCoordTransformationMode::TexCoord => Seq::new(
                2,
                |c: int|
                    (((s * m[c].0 + t * m[4 + c].0 + m[8 + c].0 + m[12 + c].0) as i32) >> 12u32) as i16,
            ),
            TexCoordTransformationMode::Normal => Seq::new(
                2,
                |c: int| vector_tex(n, m, c, e.raw_tex_coord@[c] as int),
            ),
            TexCoordTransformationMode::Vertex => Seq::new(
                2,
                |c: int| vector_tex(e.prev_pos@, m, c, e.raw_tex_coord@[c] as int),
            ),
        }
    }
}

/// The first three entries of column `c` of `m` dotted with `v`, from
/// left to right.
fn column_dot3(v: [FixedPoint; 3], m: &[FixedPoint; 16], c: usize) -> (r: i64)
    requires
        c < 4,
        dot_fits(vec3_raw(v@), column(m@, c as int), 3),
    ensures
        r == dot(vec3_raw(v@), column(m@, c as int), 3),
{
    let ghost va = vec3_raw(v@);
    let ghost vb = column(m@, c as int);
    let p0 = v[0].times(m[c]);
    let p1 = v[1].times(m[4 + c]);
    let p2 = v[2].times(m[8 + c]);
    assert(dot(va, vb, 0) == 0);
    assert(dot(va, vb, 1) == p0);
    assert(dot(va, vb, 2) == p0 + p1);
    assert(dot(va, vb, 3) == p0 + p1 + p2);
    assert(fits_i64(dot(va, vb, 2)));
    p0 + p1 + p2
}

/// Whether component `c` of the texture-coordinate-source transformation
/// fits in an `i32` at every step.
pub open spec fn texcoord_ok(s: int, t: int, m: Seq<FixedPoint>, c: int) -> bool {
    &&& fits_i32(s * m[c].0)
    &&& fits_i32(t * m[4 + c].0)
    &&& fits_i32(s * m[c].0 + t * m[4 + c].0)
    &&& fits_i32(s * m[c].0 + t * m[4 + c].0 + m[8 + c].0)
    &&& fits_i32(s * m[c].0 + t * m[4 + c].0 + m[8 + c].0 + m[12 + c].0)
}

impl Engine3D {
    /// Transforms the texture coordinates if the texture parameters select
    /// `mode`: unchanged, by the texture matrix (texture coordinate source),
    /// or offset by the normal or the last vertex position through the
    /// texture matrix.
    pub fn transform_tex_coord(&mut self, mode: TexCoordTransformationMode, normal: Option<[FixedPoint; 3]>)
        requires
            tex_transform_ok(
                *old(self),
                mode,
                match normal {
                    Some(n) => n@,
                    None => seq![FixedPoint(0), FixedPoint(0), FixedPoint(0)],
                },
            ),
        ensures
            final(self).tex_coord@ == tex_transformed(
                *old(self),
                mode,
                match normal {
                    Some(n) => n@,
                    None => seq![FixedPoint(0), FixedPoint(0), FixedPoint(0)],
                },
            ),
            *final(self) == (Engine3D { tex_coord: final(self).tex_coord, ..*old(self) }),
    {
        if self.tex_params.coord_transformation_mode != mode {
            return;
        }
        let s = self.raw_tex_coord[0] as i32;
        let t = self.raw_tex_coord[1] as i32;
        let z = FixedPoint::zero();
        let n = match normal {
            Some(n) => n,
            None => [z, z, z],
        };
        let ghost nv = match normal {
            Some(n) => n@,
            None => seq![FixedPoint(0), FixedPoint(0), FixedPoint(0)],
        };
        assert(n@ =~= nv);
        let m = self.mats.cur_tex.elems;
        match mode {
            TexCoordTransformationMode::Untransformed => {
                self.tex_coord = self.raw_tex_coord;
            },
            TexCoordTransformationMode::TexCoord => {
                let a = ((s * m[0].raw() + t * m[4].raw() + m[8].raw() + m[12].raw()) >> 12u32) as i16;
                let b = ((s * m[1].raw() + t * m[5].raw() + m[9].raw() + m[13].raw()) >> 12u32) as i16;
                self.tex_coord = [a, b];
            },
            TexCoordTransformationMode::Normal => {
                proof {
                    lemma_i64_shr24_bounds();
                }
                let d0 = column_dot3(n, &m, 0);
                let d1 = column_dot3(n, &m, 1);
                self.tex_coord = [((d0 >> 24u64) + s as i64) as i16, ((d1 >> 24u64) + t as i64) as i16];
            },
            TexCoordTransformationMode::Vertex => {
                let p = self.prev_pos;
                proof {
                    lemma_i64_shr24_bounds();
                }
                let d0 = column_dot3(p, &m, 0);
                let d1 = column_dot3(p, &m, 1);
                self.tex_coord = [((d0 >> 24u64) + s as i64) as i16, ((d1 >> 24u64) + t as i64) as i16];
            },
        }
        assert(self.tex_coord@ =~= tex_transformed(*old(self), mode, nv));
    }
}

/// `a . b` for two 3-vectors, from left to right.
fn vec_dot3(a: [FixedPoint; 3], b: [FixedPoint; 3]) -> (r: i64)
    requires
        dot_fits(vec3_raw(a@), vec3_raw(b@), 3),
    ensures
        r == dot(vec3_raw(a@), vec3_raw(b@), 3),
{
    let ghost va = vec3_raw(a@);
    let ghost vb = vec3_raw(b@);
    let p0 = a[0].times(b[0]);
    let p1 = a[1].times(b[1]);
    let p2 = a[2].times(b[2]);
    assert(dot(va, vb, 0) == 0);
    assert(dot(va, vb, 1) == p0);
    assert(dot(va, vb, 2) == p0 + p1);
    assert(dot(va, vb, 3) == p0 + p1 + p2);
    assert(fits_i64(dot(va, vb, 2)));
    p0 + p1 + p2
}

/// Minus the fixed-point dot product of `a` and `n`, with an 8-bit
/// fraction.
fn neg_level_exec(a: [FixedPoint; 3], n: [FixedPoint; 3]) -> (r: i64)
    requires
        dot_fits(vec3_raw(a@), vec3_raw(n@), 3),
        from_mul_spec(dot(vec3_raw(a@), vec3_raw(n@), 3) as i64).0 != i32::MIN,
    ensures
        r == neg_level(vec3_raw(a@), vec3_raw(n@)),
        -0x800_0000 <= r <= 0x800_0000,
{
    let raw = FixedPoint::from_mul(vec_dot3(a, n)).raw();
    let neg: i64 = -(raw as i64);
    proof {
        if neg < 0 {
            lemma_floor_of_negative(neg as int, 16);
        }
    }
    floor_div(neg, 16)
}

/// `x` halved toward zero.
fn half_toward_zero_exec(x: i32) -> (r: i32)
    ensures
        r == half_toward_zero(x as int),
{
    if x >= 0 {
        (x as u32 / 2) as i32
    } else {
        let m: u64 = (-(x as i64)) as u64;
        -((m / 2) as i64) as i32
    }
}

/// `x` modulo 0x100, in `0..0x100`.
fn floor_mod256(x: i64) -> (r: i64)
    requires
        x > i64::MIN,
    ensures
        r == x % 0x100,
{
    let q = floor_div(x, 0x100);
    x - 0x100 * q
}

/// Whether every enabled light's levels against `n` can be computed.
pub open spec fn lights_ok(e: Engine3D, n: Seq<int>) -> bool {
    forall|j: int| 0 <= j < 4 && e.polygon_attrs_latch.lights_enabled@[j] ==> light_ok(#[trigger] e.lights@[j], n)
}

/// The normal transformed by the direction matrix.
pub open spec fn lit_normal(e: Engine3D, x: FixedPoint, y: FixedPoint, z: FixedPoint) -> Seq<FixedPoint> {
    mat_vec3(e.mats.cur_vec.elems@, seq![x, y, z])
}

/// Whether `NORMAL` with `(x, y, z)` can be handled: the transformations
/// do not overflow and the lit colour, capped at 0x1F, is a 5-bit value.
pub open spec fn lighting_ok(e: Engine3D, x: FixedPoint, y: FixedPoint, z: FixedPoint) -> bool {
    &&& lighting_wf(e)
    &&& tex_transform_ok(e, TexCoordTransformationMode::Normal, seq![x, y, z])
    &&& mul_vec3_ok(e.mats.cur_vec.elems@, seq![x, y, z])
    &&& lights_ok(e, vec3_raw(lit_normal(e, x, y, z)))
    &&& forall|i: int| 0 <= i < 3 ==> #[trigger] capped5(lit_color(e, vec3_raw(lit_normal(e, x, y, z)), 4)[i]) < 32
}

proof fn lemma_term_bounds(a: int, b: int, c: int)
    by (nonlinear_arith)
    requires
        0 <= a < 32,
        0 <= b < 32,
        -128 <= c <= 255,
    ensures
        -0x2_0000 <= a * b * c <= 0x4_0000,
        -16 <= (a * b * c) / 0x2000 <= 32,
        0 <= (a * b) / 0x20 <= 32,
{
}

impl Engine3D {
    /// `NORMAL`: transforms the texture coordinates if they follow the
    /// normal, transforms the normal by the direction matrix, and lights
    /// the vertex colour: the material's emission plus, for each enabled
    /// light, its specular, diffuse and ambient terms, capped at 0x1F.
    pub fn calc_lighting(&mut self, x: FixedPoint, y: FixedPoint, z: FixedPoint)
        requires
            lighting_ok(*old(self), x, y, z),
        ensures
            ({
                let fc = lit_color(*old(self), vec3_raw(lit_normal(*old(self), x, y, z)), 4);
                &&& final(self).tex_coord@ == tex_transformed(
                    *old(self),
                    TexCoordTransformationMode::Normal,
                    seq![x, y, z],
                )
                &&& final(self).color == (Color {
                    r: widen6(widen5(capped5(fc[0]))),
                    g: widen6(widen5(capped5(fc[1]))),
                    b: widen6(widen5(capped5(fc[2]))),
                })
            }),
            *final(self) == (Engine3D {
                tex_coord: final(self).tex_coord,
                color: final(self).color,
                ..*old(self)
            }),
    {
        self.transform_tex_coord(TexCoordTransformationMode::Normal, Some([x, y, z]));
        assert([x, y, z]@ =~= seq![x, y, z]);
        let normal = self.mats.cur_vec.mul_vec3([x, y, z]);
        let ghost nv = vec3_raw(normal@);
        let ghost e0 = *old(self);
        assert(nv == vec3_raw(lit_normal(e0, x, y, z)));
        let mut fc: [i32; 3] = self.material.emission;
        let mut j: usize = 0;
        while j < 4
            invariant
                j <= 4,
                e0 == *old(self),
                lighting_ok(e0, x, y, z),
                nv == vec3_raw(normal@),
                nv == vec3_raw(lit_normal(e0, x, y, z)),
                self.lights == e0.lights,
                self.material == e0.material,
                self.polygon_attrs_latch == e0.polygon_attrs_latch,
                forall|i: int| 0 <= i < 3 ==> fc@[i] as int == #[trigger] lit_color(e0, nv, j as nat)[i],
                forall|i: int| 0 <= i < 3 ==> -100 * j <= #[trigger] fc@[i] <= 31 + 100 * j,
                lit_color(e0, nv, j as nat).len() == 3,
            decreases 4 - j,
        {
            if self.polygon_attrs_latch.lights_enabled[j] {
                let light = self.lights[j];
                assert(light_ok(light, nv));
                let d = neg_level_exec(light.direction, normal);
                let d = if d < 0 {
                    0
                } else if d > 0xFF {
                    0xFF
                } else {
                    d
                };
                let z0 = FixedPoint::zero();
                let los2 = FixedPoint(-0x1000);
                let h = [
                    FixedPoint::from_frac12(half_toward_zero_exec(light.direction[0].plus(z0).raw())),
                    FixedPoint::from_frac12(half_toward_zero_exec(light.direction[1].plus(z0).raw())),
                    FixedPoint::from_frac12(half_toward_zero_exec(light.direction[2].plus(los2).raw())),
                ];
                assert(vec3_raw(h@) =~= half_vector(light));
                let s = neg_level_exec(h, normal);
                let s = if s < 0 {
                    0
                } else if s > 0xFF {
                    floor_mod256(0x100 - s)
                } else {
                    s
                };
                assert(0 <= 2 * s * s <= 2 * 255 * 255) by (nonlinear_arith)
                    requires
                        0 <= s <= 255;
                let s2: i64 = ((2 * s * s) as u64 / 0x100) as i64 - 0x100;
                assert(s2 <= 252);
                let s2 = if s2 < 0 { 0 } else { s2 };
                assert(s2 == shine_level(light, nv));
                let sl: i64 = if self.material.use_shininess_table {
                    self.material.shininess[(s2 / 2) as usize] as i64
                } else {
                    s2
                };
                assert(sl == specular_level(light, nv, self.material));
                assert(d == diffuse_level(light, nv));
                let ghost prev = lit_color(e0, nv, j as nat);
                let mut i: usize = 0;
                while i < 3
                    invariant
                        i <= 3,
                        j < 4,
                        lighting_wf(e0),
                        self.material == e0.material,
                        self.lights == e0.lights,
                        light == e0.lights@[j as int],
                        -128 <= sl <= 255,
                        0 <= d <= 255,
                        sl == specular_level(light, nv, e0.material),
                        d == diffuse_level(light, nv),
                        forall|k: int| 0 <= k < 3 ==> -100 * j <= #[trigger] prev[k] <= 31 + 100 * j,
                        forall|k: int| 0 <= k < i ==> #[trigger] fc@[k] as int == with_light(prev, light, nv, e0.material)[k],
                        forall|k: int| i <= k < 3 ==> #[trigger] fc@[k] as int == prev[k],
                        forall|k: int| 0 <= k < i ==> -100 * (j + 1) <= #[trigger] fc@[k] <= 31 + 100 * (j + 1),
                        prev.len() == 3,
                    decreases 3 - i,
                {
                    let sp = self.material.specular[i] as i64;
                    let df = self.material.diffuse[i] as i64;
                    let am = self.material.ambient[i] as i64;
                    let col = light.color[i] as i64;
                    proof {
                        assert(0 <= e0.lights@[j as int].color@[i as int] < 32);
                        lemma_term_bounds(sp as int, col as int, sl as int);
                        lemma_term_bounds(df as int, col as int, d as int);
                        lemma_term_bounds(am as int, col as int, 0);
                    }
                    let t1 = floor_div(sp * col * sl, 0x2000);
                    let t2 = floor_div(df * col * d, 0x2000);
                    let t3 = floor_div(am * col, 0x20);
                    fc[i] = (fc[i] as i64 + t1 + t2 + t3) as i32;
                    i = i + 1;
                }
                assert(lit_color(e0, nv, (j + 1) as nat) == with_light(prev, light, nv, e0.material));
            } else {
                assert(lit_color(e0, nv, (j + 1) as nat) == lit_color(e0, nv, j as nat));
            }
            j = j + 1;
        }
        let ghost fcs = lit_color(e0, nv, 4);
        assert(capped5(fcs[0]) < 32 && capped5(fcs[1]) < 32 && capped5(fcs[2]) < 32);
        assert(fc@[0] as int == fcs[0] && fc@[1] as int == fcs[1] && fc@[2] as int == fcs[2]);
        let r = if fc[0] > 0x1F { 0x1F } else { fc[0] } as u8;
        let g = if fc[1] > 0x1F { 0x1F } else { fc[1] } as u8;
        let b = if fc[2] > 0x1F { 0x1F } else { fc[2] } as u8;
        self.color = Color::new5(r, g, b);
    }
}

} // verus!
