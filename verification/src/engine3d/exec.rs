//! Executing geometry commands taken from the FIFO.
use vstd::prelude::*;
use super::commands::{
    Matrices,
    apply_effect,
    cur_mat_ok,
    index_ok,
    pop_effect,
    pop_ok,
    push_effect,
    push_ok,
    restore_effect,
    stacks_wf,
    store_effect,
};
use super::engine::{Engine3D, FIFO_LEN, fifo_irq_condition};
use crate::interrupts::{InterruptRequest, GEOMETRY_COMMAND_FIFO};
use super::fixed::{FixedPoint, MatrixOp, fits_i32, mat_vec3, mul_vec3_ok, vec3_raw};
use super::geometry::{
    Color,
    GeometryCommand,
    GeometryCommandEntry,
    Light,
    Material,
    MatrixMode,
    num_params_spec,
    rgb5_at,
    rgb5_exec,
    widen5,
    widen6,
};
use super::lighting::{
    capped5,
    lighting_ok,
    lighting_wf,
    lit_color,
    lit_normal,
    tex_transform_ok,
    tex_transformed,
};
use super::registers::{
    FrameParams,
    GXSTAT,
    TexCoordTransformationMode,
    VertexPrimitive,
    attrs_decoded,
    tex_params_decoded,
    viewport_decoded,
    viewport_ok,
};
use super::vertex::{vertex_effect, vertex_ok, zero3};
use crate::bits::{bit32, lemma_mask_bounds};

verus! {

/// The parameters a command runs with: those gathered so far and the
/// entry's own.
pub open spec fn params_with(e: Engine3D, param: u32) -> Seq<u32> {
    e.params@.push(param)
}

/// Whether the entry completes its command's parameters.
pub open spec fn completes_params(e: Engine3D, entry: GeometryCommandEntry) -> bool {
    params_with(e, entry.param).len() >= num_params_spec(entry.command)
}

/// A 16-bit coordinate with a 12-bit fraction from the low half of `w`.
pub open spec fn low12(w: u32) -> FixedPoint {
    FixedPoint(w as u16 as i16 as i32)
}

/// A 16-bit coordinate with a 12-bit fraction from the high half of `w`.
pub open spec fn high12(w: u32) -> FixedPoint {
    FixedPoint((w >> 16u32) as u16 as i16 as i32)
}

/// The 10-bit field of `w` at `shift`.
pub open spec fn field10(w: u32, shift: u32) -> u16 {
    ((w >> shift) & 0x3FF) as u16
}

/// A 10-bit signed number with a 9-bit fraction.
pub open spec fn frac9(val: u16) -> FixedPoint {
    FixedPoint((((if (val >> 9u16) & 1 != 0 { 0xFC00u16 } else { 0u16 }) | val) as i16) as i32)
}

/// A 10-bit number with a 6-bit fraction.
pub open spec fn frac6(val: u16) -> FixedPoint {
    FixedPoint((val as i32) << 6u32)
}

/// A 10-bit signed offset with a 12-bit fraction, sign-extended.
pub open spec fn diff10(w: u32, shift: u32) -> FixedPoint {
    FixedPoint(((((((w >> shift) & 0x3FF) << 6u32) as u16) as i16) >> 6u32) as i32)
}

/// The three 10-bit fields of `w` as a normal or light direction.
pub open spec fn dir10(w: u32) -> Seq<FixedPoint> {
    seq![frac9(field10(w, 0)), frac9(field10(w, 10)), frac9(field10(w, 20))]
}

/// Whether a vertex command's offsets from the last position fit.
pub open spec fn diff_ok(e: Engine3D, w: u32) -> bool {
    &&& fits_i32(e.prev_pos@[0].0 + diff10(w, 0).0)
    &&& fits_i32(e.prev_pos@[1].0 + diff10(w, 10).0)
    &&& fits_i32(e.prev_pos@[2].0 + diff10(w, 20).0)
}

/// The position a vertex command gives, from its parameters `p` and the
/// last position.
pub open spec fn vertex_of(e: Engine3D, c: GeometryCommand, p: Seq<u32>) -> (FixedPoint, FixedPoint, FixedPoint) {
    let w = p[0];
    match c {
        GeometryCommand::Vtx16 => (low12(w), high12(w), low12(p[1])),
        GeometryCommand::Vtx10 => (frac6(field10(w, 0)), frac6(field10(w, 10)), frac6(field10(w, 20))),
        GeometryCommand::VtxXY => (low12(w), high12(w), e.prev_pos@[2]),
        GeometryCommand::VtxXZ => (low12(w), e.prev_pos@[1], high12(w)),
        GeometryCommand::VtxYZ => (e.prev_pos@[0], low12(w), high12(w)),
        _ => {
            let d = p[p.len() - 1];
            (
                FixedPoint((e.prev_pos@[0].0 + diff10(d, 0).0) as i32),
                FixedPoint((e.prev_pos@[1].0 + diff10(d, 10).0) as i32),
                FixedPoint((e.prev_pos@[2].0 + diff10(d, 20).0) as i32),
            )
        },
    }
}

/// Whether a command is one of the vertex commands.
pub open spec fn is_vertex_command(c: GeometryCommand) -> bool {
    c == GeometryCommand::Vtx16 || c == GeometryCommand::Vtx10 || c == GeometryCommand::VtxXY || c
        == GeometryCommand::VtxXZ || c == GeometryCommand::VtxYZ || c == GeometryCommand::VtxDiff
}

/// The matrix operation of a matrix command, and whether it also applies
/// to the direction matrix.
pub open spec fn matrix_op_of(c: GeometryCommand) -> (MatrixOp, bool) {
    match c {
        GeometryCommand::MtxIdentity => (MatrixOp::Identity, true),
        GeometryCommand::MtxLoad4x4 => (MatrixOp::Load4x4, true),
        GeometryCommand::MtxLoad4x3 => (MatrixOp::Load4x3, true),
        GeometryCommand::MtxMult4x4 => (MatrixOp::Mult4x4, true),
        GeometryCommand::MtxMult4x3 => (MatrixOp::Mult4x3, true),
        GeometryCommand::MtxMult3x3 => (MatrixOp::Mult3x3, true),
        GeometryCommand::MtxScale => (MatrixOp::Scale, false),
        _ => (MatrixOp::Translate, true),
    }
}

/// Whether a command is one of the matrix operations.
pub open spec fn is_matrix_op(c: GeometryCommand) -> bool {
    c == GeometryCommand::MtxIdentity || c == GeometryCommand::MtxLoad4x4 || c
        == GeometryCommand::MtxLoad4x3 || c == GeometryCommand::MtxMult4x4 || c
        == GeometryCommand::MtxMult4x3 || c == GeometryCommand::MtxMult3x3 || c
        == GeometryCommand::MtxScale || c == GeometryCommand::MtxTrans
}

/// The state after `TEXCOORD` has stored its raw coordinates.
pub open spec fn with_tex_coord(e: Engine3D, w: u32) -> Engine3D {
    Engine3D {
        raw_tex_coord: [w as u16 as i16, (w >> 16u32) as u16 as i16],
        tex_coord: [w as u16 as i16, (w >> 16u32) as u16 as i16],
        ..e
    }
}

/// Whether command `c` can run in state `e` with parameters `p`.
pub open spec fn command_ok(e: Engine3D, c: GeometryCommand, p: Seq<u32>) -> bool {
    let w = p[p.len() - 1];
    match c {
        GeometryCommand::MtxPush => push_ok(e.mats) && stacks_wf(e.mats),
        GeometryCommand::MtxPop => pop_ok(e.mats, w) && stacks_wf(e.mats),
        GeometryCommand::MtxStore => index_ok(e.mats, w, false),
        GeometryCommand::MtxRestore => index_ok(e.mats, w, true),
        GeometryCommand::Normal => {
            let n = dir10(w);
            lighting_ok(e, n[0], n[1], n[2])
        },
        GeometryCommand::TexCoord => tex_transform_ok(
            with_tex_coord(e, p[0]),
            TexCoordTransformationMode::TexCoord,
            zero3(),
        ),
        GeometryCommand::LightVector => mul_vec3_ok(e.mats.cur_vec.elems@, dir10(w)),
        GeometryCommand::Viewport => viewport_ok(w),
        GeometryCommand::Shininess => p.len() <= 32,
        _ => {
            &&& is_matrix_op(c) ==> cur_mat_ok(e.mats, p, matrix_op_of(c).0, matrix_op_of(c).1)
            &&& c == GeometryCommand::VtxDiff ==> diff_ok(e, w)
            &&& is_vertex_command(c) ==> {
                let v = vertex_of(e, c, p);
                vertex_ok(e, v.0, v.1, v.2)
            }
        },
    }
}

/// The status register after `MTX_STORE` or `MTX_RESTORE` with `w`: naming
/// slot 31 sets the stack error flag.
pub open spec fn stack_error(g: GXSTAT, w: u32) -> GXSTAT {
    GXSTAT { mat_stack_error: g.mat_stack_error || w & 0x3F == 31, ..g }
}

/// The colour of a 15-bit BGR value.
pub open spec fn color15(v: u16) -> Color {
    Color {
        r: widen6(widen5((v & 0x1F) as u8)),
        g: widen6(widen5(((v >> 5u16) & 0x1F) as u8)),
        b: widen6(widen5(((v >> 10u16) & 0x1F) as u8)),
    }
}

/// The shininess table `SHININESS` loads from its 32 parameter words:
/// four signed bytes per word, low byte first.
pub open spec fn shininess_of(p: Seq<u32>) -> Seq<i8> {
    Seq::new(128, |k: int| ((p[k / 4] >> (8 * (k % 4)) as u32) as u8) as i8)
}

/// The effect of command `c` with parameters `p`, run in state `a`,
/// giving state `b`; the parameter list itself is left to the caller.
pub open spec fn command_effect(a: Engine3D, b: Engine3D, c: GeometryCommand, p: Seq<u32>) -> bool {
    effect_of(a, Engine3D { params: a.params, ..b }, c, p)
}

/// The effect of command `c` with parameters `p` (the last one is `w`),
/// run in state `a`, giving state `b` with the same parameter list.
pub open spec fn effect_of(a: Engine3D, b: Engine3D, c: GeometryCommand, p: Seq<u32>) -> bool {
    let w = p[p.len() - 1];
    match c {
        GeometryCommand::MtxMode => {
            &&& b.mats.mtx_mode.code() == (w as u8) & 3
            &&& b == Engine3D {
                mats: Matrices { mtx_mode: b.mats.mtx_mode, ..a.mats },
                ..a
            }
        },
        GeometryCommand::MtxPush => {
            &&& push_effect(a.mats, b.mats)
            &&& b == Engine3D { mats: b.mats, ..a }
        },
        GeometryCommand::MtxPop => {
            &&& pop_effect(a.mats, b.mats, w)
            &&& b == Engine3D { mats: b.mats, ..a }
        },
        GeometryCommand::MtxStore => {
            &&& store_effect(a.mats, b.mats, w)
            &&& b == Engine3D {
                mats: b.mats,
                gxstat: stack_error(a.gxstat, w),
                ..a
            }
        },
        GeometryCommand::MtxRestore => {
            &&& restore_effect(a.mats, b.mats, w)
            &&& b == Engine3D {
                mats: b.mats,
                gxstat: stack_error(a.gxstat, w),
                ..a
            }
        },
        GeometryCommand::Color => b == Engine3D { color: color15(w as u16), ..a },
        GeometryCommand::Normal => {
            let n = dir10(w);
            let fc = lit_color(a, vec3_raw(lit_normal(a, n[0], n[1], n[2])), 4);
            &&& b.tex_coord@ == tex_transformed(a, TexCoordTransformationMode::Normal, n)
            &&& b == Engine3D {
                tex_coord: b.tex_coord,
                color: Color {
                    r: widen6(widen5(capped5(fc[0]))),
                    g: widen6(widen5(capped5(fc[1]))),
                    b: widen6(widen5(capped5(fc[2]))),
                },
                ..a
            }
        },
        GeometryCommand::TexCoord => {
            let t = with_tex_coord(a, p[0]);
            &&& b.tex_coord@ == tex_transformed(t, TexCoordTransformationMode::TexCoord, zero3())
            &&& b == Engine3D { tex_coord: b.tex_coord, ..t }
        },
        GeometryCommand::PolygonAttr => {
            &&& attrs_decoded(b.polygon_attrs, w)
            &&& b == Engine3D { polygon_attrs: b.polygon_attrs, ..a }
        },
        GeometryCommand::TexImageParam => {
            &&& tex_params_decoded(b.tex_params, w)
            &&& b == Engine3D { tex_params: b.tex_params, ..a }
        },
        GeometryCommand::PlttBase => b == Engine3D {
            palette_base: ((p[0] & 0xFFF) * 16) as usize,
            ..a
        },
        GeometryCommand::DifAmb => {
            &&& b.material.diffuse@ == rgb5_at(w, 0)
            &&& b.material.ambient@ == rgb5_at(w, 16)
            &&& b.material == Material {
                diffuse: b.material.diffuse,
                ambient: b.material.ambient,
                ..a.material
            }
            &&& b == Engine3D {
                material: b.material,
                color: if w & 0x8000 != 0 {
                    Color {
                        r: widen6(widen5(rgb5_at(w, 0)[0] as u8)),
                        g: widen6(widen5(rgb5_at(w, 0)[1] as u8)),
                        b: widen6(widen5(rgb5_at(w, 0)[2] as u8)),
                    }
                } else {
                    a.color
                },
                ..a
            }
        },
        GeometryCommand::SpeEmi => {
            &&& b.material.specular@ == rgb5_at(w, 0)
            &&& b.material.emission@ == rgb5_at(w, 16)
            &&& b.material == Material {
                specular: b.material.specular,
                emission: b.material.emission,
                use_shininess_table: w & 0x8000 != 0,
                ..a.material
            }
            &&& b == Engine3D { material: b.material, ..a }
        },
        GeometryCommand::LightVector => {
            let i = ((w >> 30u32) & 3) as int;
            &&& b.lights@[i].direction@ == mat_vec3(a.mats.cur_vec.elems@, dir10(w))
            &&& b.lights@ == a.lights@.update(
                i,
                Light { direction: b.lights@[i].direction, color: a.lights@[i].color },
            )
            &&& b == Engine3D { lights: b.lights, ..a }
        },
        GeometryCommand::LightColor => {
            let i = ((w >> 30u32) & 3) as int;
            &&& b.lights@[i].color@ == rgb5_at(w, 0)
            &&& b.lights@ == a.lights@.update(
                i,
                Light { direction: a.lights@[i].direction, color: b.lights@[i].color },
            )
            &&& b == Engine3D { lights: b.lights, ..a }
        },
        GeometryCommand::Shininess => {
            &&& b.material.shininess@ == shininess_of(p)
            &&& b.material == Material { shininess: b.material.shininess, ..a.material }
            &&& b == Engine3D { material: b.material, ..a }
        },
        GeometryCommand::BeginVtxs => {
            &&& b.cur_poly_verts@.len() == 0
            &&& b.vertex_primitive.code() == w & 3
            &&& b == Engine3D {
                cur_poly_verts: b.cur_poly_verts,
                swap_verts: false,
                polygon_attrs_latch: a.polygon_attrs,
                vertex_primitive: b.vertex_primitive,
                ..a
            }
        },
        GeometryCommand::SwapBuffers => b == Engine3D {
            next_frame_params: FrameParams { manual_sort_translucent: bit32(w, 0), w_buffer: bit32(w, 1) },
            polygons_submitted: true,
            gxstat: GXSTAT { geometry_engine_busy: true, ..a.gxstat },
            ..a
        },
        GeometryCommand::Viewport => {
            &&& viewport_decoded(b.viewport, w)
            &&& b == Engine3D { viewport: b.viewport, ..a }
        },
        _ => if is_matrix_op(c) {
            &&& apply_effect(a.mats, b.mats, matrix_op_of(c).0, matrix_op_of(c).1, p)
            &&& b == Engine3D { mats: b.mats, ..a }
        } else if is_vertex_command(c) {
            let v = vertex_of(a, c, p);
            vertex_effect(a, b, v.0, v.1, v.2)
        } else {
            b == a
        },
    }
}

/// The state a command starts in: the busy and bus stall flags are
/// cleared.
pub open spec fn started(e: Engine3D) -> Engine3D {
    Engine3D {
        gxstat: GXSTAT { geometry_engine_busy: false, ..e.gxstat },
        bus_stalled: false,
        ..e
    }
}

/// The matrix operation of a matrix command, and whether it also applies
/// to the direction matrix.
fn matrix_op(c: GeometryCommand) -> (r: (MatrixOp, bool))
    ensures
        r == matrix_op_of(c),
{
    match c {
        GeometryCommand::MtxIdentity => (MatrixOp::Identity, true),
        GeometryCommand::MtxLoad4x4 => (MatrixOp::Load4x4, true),
        GeometryCommand::MtxLoad4x3 => (MatrixOp::Load4x3, true),
        GeometryCommand::MtxMult4x4 => (MatrixOp::Mult4x4, true),
        GeometryCommand::MtxMult4x3 => (MatrixOp::Mult4x3, true),
        GeometryCommand::MtxMult3x3 => (MatrixOp::Mult3x3, true),
        GeometryCommand::MtxScale => (MatrixOp::Scale, false),
        _ => (MatrixOp::Translate, true),
    }
}

impl Engine3D {
    /// Runs a matrix command.
    fn exec_matrix(&mut self, c: GeometryCommand, params: &Vec<u32>)
        requires
            params@.len() >= 1,
            c == GeometryCommand::MtxMode || c == GeometryCommand::MtxPush || c
                == GeometryCommand::MtxPop || c == GeometryCommand::MtxStore || c
                == GeometryCommand::MtxRestore || is_matrix_op(c),
            command_ok(*old(self), c, params@),
        ensures
            command_effect(*old(self), *final(self), c, params@),
            final(self).params == old(self).params,
            final(self).gxfifo == old(self).gxfifo,
    {
        let param = params[params.len() - 1];
        proof {
            lemma_mask_bounds();
        }
        match c {
            GeometryCommand::MtxMode => {
                self.mats.mtx_mode = MatrixMode::from_bits((param as u8) & 0x3);
            },
            GeometryCommand::MtxPush => self.mats.push(),
            GeometryCommand::MtxPop => self.mats.pop(param),
            GeometryCommand::MtxStore => {
                if param & 0x3F == 31 {
                    self.gxstat.mat_stack_error = true;
                }
                self.mats.store(param);
            },
            GeometryCommand::MtxRestore => {
                if param & 0x3F == 31 {
                    self.gxstat.mat_stack_error = true;
                }
                self.mats.restore(param);
            },
            _ => {
                let (op, also_to_vec) = matrix_op(c);
                self.mats.apply_cur_mat(op, params, also_to_vec);
            },
        }
    }
}

/// Whether a command is one that sets lighting state or the vertex colour.
pub open spec fn is_lighting_command(c: GeometryCommand) -> bool {
    c == GeometryCommand::Color || c == GeometryCommand::Normal || c == GeometryCommand::DifAmb || c
        == GeometryCommand::SpeEmi || c == GeometryCommand::LightVector || c
        == GeometryCommand::LightColor || c == GeometryCommand::Shininess
}

/// The coordinate with a 12-bit fraction in the low half of `w`.
fn low12_exec(w: u32) -> (r: FixedPoint)
    ensures
        r == low12(w),
{
    FixedPoint::from_frac12(w as u16 as i16 as i32)
}

/// The coordinate with a 12-bit fraction in the high half of `w`.
fn high12_exec(w: u32) -> (r: FixedPoint)
    ensures
        r == high12(w),
{
    FixedPoint::from_frac12((w >> 16u32) as u16 as i16 as i32)
}

/// The 10-bit field of `w` at `shift`.
fn field10_exec(w: u32, shift: u32) -> (r: u16)
    requires
        shift < 32,
    ensures
        r == field10(w, shift),
        r < 0x400,
{
    proof {
        lemma_mask_bounds();
    }
    ((w >> shift) & 0x3FF) as u16
}

/// The 10-bit signed offset with a 12-bit fraction at `shift` of `w`.
fn diff10_exec(w: u32, shift: u32) -> (r: FixedPoint)
    requires
        shift < 32,
    ensures
        r == diff10(w, shift),
{
    FixedPoint::from_frac12((((((w >> shift) & 0x3FF) << 6u32) as u16 as i16) >> 6u32) as i32)
}

impl Engine3D {
    /// Runs a vertex command: the position comes from the parameters, and
    /// from the last position for the coordinates a command leaves out.
    fn exec_vertex(&mut self, c: GeometryCommand, params: &Vec<u32>)
        requires
            is_vertex_command(c),
            params@.len() >= 1,
            params@.len() >= num_params_spec(c),
            command_ok(*old(self), c, params@),
        ensures
            command_effect(*old(self), *final(self), c, params@),
            final(self).params == old(self).params,
            final(self).gxfifo == old(self).gxfifo,
    {
        let p0 = params[0];
        let w = params[params.len() - 1];
        let ghost e = *self;
        let ghost v = vertex_of(e, c, params@);
        let x: FixedPoint;
        let y: FixedPoint;
        let z: FixedPoint;
        match c {
            GeometryCommand::Vtx16 => {
                x = low12_exec(p0);
                y = high12_exec(p0);
                z = low12_exec(params[1]);
            },
            GeometryCommand::Vtx10 => {
                x = FixedPoint::from_frac6(field10_exec(p0, 0));
                y = FixedPoint::from_frac6(field10_exec(p0, 10));
                z = FixedPoint::from_frac6(field10_exec(p0, 20));
            },
            GeometryCommand::VtxXY => {
                x = low12_exec(p0);
                y = high12_exec(p0);
                z = self.prev_pos[2];
            },
            GeometryCommand::VtxXZ => {
                x = low12_exec(p0);
                y = self.prev_pos[1];
                z = high12_exec(p0);
            },
            GeometryCommand::VtxYZ => {
                x = self.prev_pos[0];
                y = low12_exec(p0);
                z = high12_exec(p0);
            },
            _ => {
                x = self.prev_pos[0].plus(diff10_exec(w, 0));
                y = self.prev_pos[1].plus(diff10_exec(w, 10));
                z = self.prev_pos[2].plus(diff10_exec(w, 20));
            },
        }
        assert(x == v.0 && y == v.1 && z == v.2);
        self.submit_vertex(x, y, z);
    }

    /// Runs a command that sets the vertex colour, the material or a light.
    fn exec_lighting(&mut self, c: GeometryCommand, params: &Vec<u32>)
        requires
            is_lighting_command(c),
            params@.len() >= 1,
            params@.len() >= num_params_spec(c),
            command_ok(*old(self), c, params@),
        ensures
            command_effect(*old(self), *final(self), c, params@),
            final(self).params == old(self).params,
            lighting_wf(*old(self)) ==> lighting_wf(*final(self)),
            final(self).gxfifo == old(self).gxfifo,
    {
        match c {
            GeometryCommand::Color => self.cmd_color(params),
            GeometryCommand::Normal => self.cmd_normal(params),
            GeometryCommand::DifAmb => self.cmd_dif_amb(params),
            GeometryCommand::SpeEmi => self.cmd_spe_emi(params),
            GeometryCommand::LightVector => self.cmd_light_vector(params),
            GeometryCommand::LightColor => self.cmd_light_color(params),
            _ => self.cmd_shininess(params),
        }
    }

    /// `COLOR`: the vertex colour.
    fn cmd_color(&mut self, params: &Vec<u32>)
        requires
            params@.len() >= 1,
            params@.len() >= num_params_spec(GeometryCommand::Color),
            command_ok(*old(self), GeometryCommand::Color, params@),
        ensures
            command_effect(*old(self), *final(self), GeometryCommand::Color, params@),
            final(self).params == old(self).params,
            lighting_wf(*old(self)) ==> lighting_wf(*final(self)),
    {
        let param = params[params.len() - 1];
        proof {
            lemma_mask_bounds();
        }
        self.set_color(param);
    }

    /// `NORMAL`: lights the vertex colour with the transformed normal, and
    /// transforms the texture coordinates if they follow the normal.
    fn cmd_normal(&mut self, params: &Vec<u32>)
        requires
            params@.len() >= 1,
            params@.len() >= num_params_spec(GeometryCommand::Normal),
            command_ok(*old(self), GeometryCommand::Normal, params@),
        ensures
            command_effect(*old(self), *final(self), GeometryCommand::Normal, params@),
            final(self).params == old(self).params,
            lighting_wf(*old(self)) ==> lighting_wf(*final(self)),
    {
        let param = params[params.len() - 1];
        proof {
            lemma_mask_bounds();
        }
        let x = FixedPoint::from_frac9(field10_exec(param, 0));
        let y = FixedPoint::from_frac9(field10_exec(param, 10));
        let z = FixedPoint::from_frac9(field10_exec(param, 20));
        assert(seq![x, y, z] == dir10(param));
        self.calc_lighting(x, y, z);
    }

    /// `DIF_AMB`: the diffuse and ambient colours, and the vertex colour too
    /// when bit 15 asks for it.
    fn cmd_dif_amb(&mut self, params: &Vec<u32>)
        requires
            params@.len() >= 1,
            params@.len() >= num_params_spec(GeometryCommand::DifAmb),
            command_ok(*old(self), GeometryCommand::DifAmb, params@),
        ensures
            command_effect(*old(self), *final(self), GeometryCommand::DifAmb, params@),
            final(self).params == old(self).params,
            lighting_wf(*old(self)) ==> lighting_wf(*final(self)),
    {
        let param = params[params.len() - 1];
        proof {
            lemma_mask_bounds();
        }
        let mut material = self.material;
        let set_color = material.set_dif_amb(param);
        assert(forall|i: int| 0 <= i < 3 ==> 0 <= #[trigger] material.diffuse@[i] < 32);
        assert(forall|i: int| 0 <= i < 3 ==> 0 <= #[trigger] material.ambient@[i] < 32);
        let color = if set_color {
            Color::new5(
                material.diffuse[0] as u8,
                material.diffuse[1] as u8,
                material.diffuse[2] as u8,
            )
        } else {
            self.color
        };
        self.material = material;
        self.color = color;
    }

    /// `SPE_EMI`: the specular and emission colours and the shininess table
    /// flag.
    fn cmd_spe_emi(&mut self, params: &Vec<u32>)
        requires
            params@.len() >= 1,
            params@.len() >= num_params_spec(GeometryCommand::SpeEmi),
            command_ok(*old(self), GeometryCommand::SpeEmi, params@),
        ensures
            command_effect(*old(self), *final(self), GeometryCommand::SpeEmi, params@),
            final(self).params == old(self).params,
            lighting_wf(*old(self)) ==> lighting_wf(*final(self)),
    {
        let param = params[params.len() - 1];
        proof {
            lemma_mask_bounds();
        }
        let mut material = self.material;
        material.set_spe_emi(param);
        self.material = material;
    }

    /// `LIGHT_VECTOR`.
    fn cmd_light_vector(&mut self, params: &Vec<u32>)
        requires
            params@.len() >= 1,
            params@.len() >= num_params_spec(GeometryCommand::LightVector),
            command_ok(*old(self), GeometryCommand::LightVector, params@),
        ensures
            command_effect(*old(self), *final(self), GeometryCommand::LightVector, params@),
            final(self).params == old(self).params,
            lighting_wf(*old(self)) ==> lighting_wf(*final(self)),
    {
        let param = params[params.len() - 1];
        proof {
            lemma_mask_bounds();
        }
        self.set_light_vector(param);
    }

    /// `LIGHT_COLOR`.
    fn cmd_light_color(&mut self, params: &Vec<u32>)
        requires
            params@.len() >= 1,
            params@.len() >= num_params_spec(GeometryCommand::LightColor),
            command_ok(*old(self), GeometryCommand::LightColor, params@),
        ensures
            command_effect(*old(self), *final(self), GeometryCommand::LightColor, params@),
            final(self).params == old(self).params,
            lighting_wf(*old(self)) ==> lighting_wf(*final(self)),
    {
        let param = params[params.len() - 1];
        proof {
            lemma_mask_bounds();
        }
        self.set_light_color(param);
    }

    /// `SHININESS`.
    fn cmd_shininess(&mut self, params: &Vec<u32>)
        requires
            params@.len() >= 1,
            params@.len() >= num_params_spec(GeometryCommand::Shininess),
            command_ok(*old(self), GeometryCommand::Shininess, params@),
        ensures
            command_effect(*old(self), *final(self), GeometryCommand::Shininess, params@),
            final(self).params == old(self).params,
            lighting_wf(*old(self)) ==> lighting_wf(*final(self)),
    {
        let param = params[params.len() - 1];
        proof {
            lemma_mask_bounds();
        }
        self.load_shininess(params);
    }

    /// `LIGHT_VECTOR`: the direction of light `param >> 30`, transformed
    /// by the direction matrix.
    fn set_light_vector(&mut self, param: u32)
        requires
            mul_vec3_ok(old(self).mats.cur_vec.elems@, dir10(param)),
        ensures
            ({
                let i = ((param >> 30u32) & 3) as int;
                &&& final(self).lights@[i].direction@ == mat_vec3(old(self).mats.cur_vec.elems@, dir10(param))
                &&& final(self).lights@ == old(self).lights@.update(
                    i,
                    Light { direction: final(self).lights@[i].direction, color: old(self).lights@[i].color },
                )
            }),
            *final(self) == (Engine3D { lights: final(self).lights, ..*old(self) }),
    {
        proof {
            lemma_mask_bounds();
        }
        let x = FixedPoint::from_frac9(field10_exec(param, 0));
        let y = FixedPoint::from_frac9(field10_exec(param, 10));
        let z = FixedPoint::from_frac9(field10_exec(param, 20));
        assert(seq![x, y, z] == dir10(param));
        let i = ((param >> 30u32) & 0x3) as usize;
        let mut lights = self.lights;
        let light = Light { direction: self.mats.cur_vec.mul_vec3([x, y, z]), color: lights[i].color };
        lights[i] = light;
        self.lights = lights;
    }

    /// `LIGHT_COLOR`: the colour of light `param >> 30`.
    fn set_light_color(&mut self, param: u32)
        ensures
            ({
                let i = ((param >> 30u32) & 3) as int;
                &&& final(self).lights@[i].color@ == rgb5_at(param, 0)
                &&& final(self).lights@ == old(self).lights@.update(
                    i,
                    Light { direction: old(self).lights@[i].direction, color: final(self).lights@[i].color },
                )
            }),
            *final(self) == (Engine3D { lights: final(self).lights, ..*old(self) }),
    {
        proof {
            lemma_mask_bounds();
        }
        let i = ((param >> 30u32) & 0x3) as usize;
        let mut lights = self.lights;
        let light = Light { direction: lights[i].direction, color: rgb5_exec(param, 0) };
        lights[i] = light;
        self.lights = lights;
    }

    /// `COLOR`: the vertex colour from a 15-bit BGR value.
    fn set_color(&mut self, param: u32)
        ensures
            *final(self) == (Engine3D { color: color15(param as u16), ..*old(self) }),
    {
        let col = Color::from_u16(param as u16);
        assert(col == color15(param as u16));
        self.color = col;
    }

    /// `SHININESS`: loads the shininess table from the parameters, four
    /// signed bytes per word, low byte first.
    fn load_shininess(&mut self, params: &Vec<u32>)
        requires
            params@.len() == 32,
        ensures
            final(self).material.shininess@ == shininess_of(params@),
            *final(self) == (Engine3D {
                material: Material { shininess: final(self).material.shininess, ..old(self).material },
                ..*old(self)
            }),
    {
        let mut table = self.material.shininess;
        let mut i: usize = 0;
        while i < 32
            invariant
                params@.len() == 32,
                0 <= i <= 32,
                forall|k: int| 0 <= k < 4 * i ==> #[trigger] table@[k] == shininess_of(params@)[k],
            decreases 32 - i,
        {
            let word = params[i];
            let mut byte: usize = 0;
            while byte < 4
                invariant
                    params@.len() == 32,
                    0 <= i < 32,
                    word == params@[i as int],
                    0 <= byte <= 4,
                    forall|k: int| 0 <= k < 4 * i + byte ==> #[trigger] table@[k] == shininess_of(params@)[k],
                decreases 4 - byte,
            {
                table[i * 4 + byte] = (word >> (8 * byte) as u32) as u8 as i8;
                proof {
                    let k = 4 * i + byte;
                    assert(k / 4 == i && k % 4 == byte);
                }
                byte = byte + 1;
            }
            i = i + 1;
        }
        assert(table@ =~= shininess_of(params@));
        self.material.shininess = table;
    }
}

impl Engine3D {
    /// `TEXCOORD`: the raw texture coordinates from the first parameter, then
    /// transformed if the texture parameters ask for it.
    fn cmd_tex_coord(&mut self, params: &Vec<u32>)
        requires
            params@.len() >= 1,
            command_ok(*old(self), GeometryCommand::TexCoord, params@),
        ensures
            command_effect(*old(self), *final(self), GeometryCommand::TexCoord, params@),
            final(self).params == old(self).params,
    {
        let param = params[params.len() - 1];
        proof {
            lemma_mask_bounds();
        }
        let p0 = params[0];
        let raw = [p0 as u16 as i16, (p0 >> 16u32) as u16 as i16];
        self.raw_tex_coord = raw;
        self.tex_coord = raw;
        assert(*self == with_tex_coord(*old(self), p0));
        self.transform_tex_coord(TexCoordTransformationMode::TexCoord, None);
    }

    /// `POLYGON_ATTR`: the polygon attributes for the next `BEGIN_VTXS`.
    fn cmd_polygon_attr(&mut self, params: &Vec<u32>)
        requires
            params@.len() >= 1,
            command_ok(*old(self), GeometryCommand::PolygonAttr, params@),
        ensures
            command_effect(*old(self), *final(self), GeometryCommand::PolygonAttr, params@),
            final(self).params == old(self).params,
    {
        let param = params[params.len() - 1];
        proof {
            lemma_mask_bounds();
        }
        let mut attrs = self.polygon_attrs;
        attrs.write(param);
        self.polygon_attrs = attrs;
    }

    /// `TEXIMAGE_PARAM`: the texture parameters.
    fn cmd_tex_image_param(&mut self, params: &Vec<u32>)
        requires
            params@.len() >= 1,
            command_ok(*old(self), GeometryCommand::TexImageParam, params@),
        ensures
            command_effect(*old(self), *final(self), GeometryCommand::TexImageParam, params@),
            final(self).params == old(self).params,
    {
        let param = params[params.len() - 1];
        proof {
            lemma_mask_bounds();
        }
        let mut tex_params = self.tex_params;
        tex_params.write(param);
        self.tex_params = tex_params;
    }

    /// `PLTT_BASE`: the palette base, in 16-byte units.
    fn cmd_pltt_base(&mut self, params: &Vec<u32>)
        requires
            params@.len() >= 1,
            command_ok(*old(self), GeometryCommand::PlttBase, params@),
        ensures
            command_effect(*old(self), *final(self), GeometryCommand::PlttBase, params@),
            final(self).params == old(self).params,
    {
        let param = params[params.len() - 1];
        proof {
            lemma_mask_bounds();
        }
        self.palette_base = ((params[0] & 0xFFF) as usize) * 16;
    }

    /// `BEGIN_VTXS`: starts a new primitive, latching the polygon attributes.
    fn cmd_begin_vtxs(&mut self, params: &Vec<u32>)
        requires
            params@.len() >= 1,
            command_ok(*old(self), GeometryCommand::BeginVtxs, params@),
        ensures
            command_effect(*old(self), *final(self), GeometryCommand::BeginVtxs, params@),
            final(self).params == old(self).params,
    {
        let param = params[params.len() - 1];
        proof {
            lemma_mask_bounds();
        }
        self.cur_poly_verts.clear();
        self.swap_verts = false;
        self.polygon_attrs_latch = self.polygon_attrs;
        self.vertex_primitive = VertexPrimitive::from_bits(param & 0x3);
    }

    /// `SWAP_BUFFERS`: the frame parameters for the next frame; the engine stays
    /// busy until the frame is rendered.
    fn cmd_swap_buffers(&mut self, params: &Vec<u32>)
        requires
            params@.len() >= 1,
            command_ok(*old(self), GeometryCommand::SwapBuffers, params@),
        ensures
            command_effect(*old(self), *final(self), GeometryCommand::SwapBuffers, params@),
            final(self).params == old(self).params,
    {
        let param = params[params.len() - 1];
        proof {
            lemma_mask_bounds();
        }
        let mut frame = self.frame_params;
        frame.write(param);
        self.next_frame_params = frame;
        self.polygons_submitted = true;
        self.gxstat = GXSTAT { geometry_engine_busy: true, ..self.gxstat };
    }

    /// `VIEWPORT`: the screen rectangle.
    fn cmd_viewport(&mut self, params: &Vec<u32>)
        requires
            params@.len() >= 1,
            command_ok(*old(self), GeometryCommand::Viewport, params@),
        ensures
            command_effect(*old(self), *final(self), GeometryCommand::Viewport, params@),
            final(self).params == old(self).params,
    {
        let param = params[params.len() - 1];
        proof {
            lemma_mask_bounds();
        }
        let mut viewport = self.viewport;
        viewport.write(param);
        self.viewport = viewport;
    }

    /// Runs a command that sets texture, polygon or frame state, or does
    /// nothing.
    fn exec_other(&mut self, c: GeometryCommand, params: &Vec<u32>)
        requires
            !is_lighting_command(c),
            !is_vertex_command(c),
            !is_matrix_op(c),
            c != GeometryCommand::MtxMode && c != GeometryCommand::MtxPush && c
                != GeometryCommand::MtxPop && c != GeometryCommand::MtxStore && c
                != GeometryCommand::MtxRestore,
            params@.len() >= 1,
            command_ok(*old(self), c, params@),
        ensures
            command_effect(*old(self), *final(self), c, params@),
            final(self).params == old(self).params,
            final(self).gxfifo == old(self).gxfifo,
    {
        match c {
            GeometryCommand::TexCoord => self.cmd_tex_coord(params),
            GeometryCommand::PolygonAttr => self.cmd_polygon_attr(params),
            GeometryCommand::TexImageParam => self.cmd_tex_image_param(params),
            GeometryCommand::PlttBase => self.cmd_pltt_base(params),
            GeometryCommand::BeginVtxs => self.cmd_begin_vtxs(params),
            GeometryCommand::SwapBuffers => self.cmd_swap_buffers(params),
            GeometryCommand::Viewport => self.cmd_viewport(params),
            _ => {},
        }
    }
}

/// Whether a command is one of `MTX_MODE`, `MTX_PUSH`, `MTX_POP`,
/// `MTX_STORE`, `MTX_RESTORE` or a matrix operation.
pub open spec fn is_matrix_command(c: GeometryCommand) -> bool {
    c == GeometryCommand::MtxMode || c == GeometryCommand::MtxPush || c == GeometryCommand::MtxPop
        || c == GeometryCommand::MtxStore || c == GeometryCommand::MtxRestore || is_matrix_op(c)
}

/// Whether `exec_command` can take `entry` in state `e` without panicking:
/// a command whose parameters are complete must be able to run, and a
/// parameter word that continues a command must belong to the same command.
pub open spec fn exec_ok(e: Engine3D, entry: GeometryCommandEntry) -> bool {
    let p = params_with(e, entry.param);
    if completes_params(e, entry) {
        command_ok(started(e), entry.command, p)
    } else {
        p.len() > 1 ==> e.prev_command == entry.command
    }
}

fn matrix_command(c: GeometryCommand) -> (r: bool)
    ensures
        r == is_matrix_command(c),
{
    matches!(c, GeometryCommand::MtxMode | GeometryCommand::MtxPush | GeometryCommand::MtxPop
        | GeometryCommand::MtxStore | GeometryCommand::MtxRestore | GeometryCommand::MtxIdentity
        | GeometryCommand::MtxLoad4x4 | GeometryCommand::MtxLoad4x3 | GeometryCommand::MtxMult4x4
        | GeometryCommand::MtxMult4x3 | GeometryCommand::MtxMult3x3 | GeometryCommand::MtxScale
        | GeometryCommand::MtxTrans)
}

fn vertex_command(c: GeometryCommand) -> (r: bool)
    ensures
        r == is_vertex_command(c),
{
    matches!(c, GeometryCommand::Vtx16 | GeometryCommand::Vtx10 | GeometryCommand::VtxXY
        | GeometryCommand::VtxXZ | GeometryCommand::VtxYZ | GeometryCommand::VtxDiff)
}

fn lighting_command(c: GeometryCommand) -> (r: bool)
    ensures
        r == is_lighting_command(c),
{
    matches!(c, GeometryCommand::Color | GeometryCommand::Normal | GeometryCommand::DifAmb
        | GeometryCommand::SpeEmi | GeometryCommand::LightVector | GeometryCommand::LightColor
        | GeometryCommand::Shininess)
}

/// The engine `b` after `a` takes the FIFO word `entry`: the parameter is
/// added, and once the command has all its parameters it runs with them
/// and the parameter list empties; lighting stays well formed and the FIFO
/// is not touched.
pub open spec fn exec_post(a: Engine3D, entry: GeometryCommandEntry, b: Engine3D) -> bool {
    &&& ({
                let p = params_with(a, entry.param);
                let c = entry.command;
                if completes_params(a, entry) {
                    &&& b.params@.len() == 0
                    &&& command_effect(started(a), b, c, p)
                } else {
                    &&& b.params@ == p
                    &&& b == (Engine3D {
                        params: b.params,
                        prev_command: c,
                        ..started(a)
                    })
                }
            })
    &&& lighting_wf(a) ==> lighting_wf(b)
    &&& b.gxfifo@ == a.gxfifo@
}

/// Whether `a` and `b` differ at most in their FIFOs.
pub open spec fn same_but_fifo(a: Engine3D, b: Engine3D) -> bool {
    a == Engine3D { gxfifo: a.gxfifo, ..b }
}

/// Whether draining the words `q`, starting from `e` (whatever its own
/// FIFO holds), runs every command it reaches on inputs it handles: it
/// stops once polygons are submitted or the words run out.
pub open spec fn drain_ok(e: Engine3D, q: Seq<GeometryCommandEntry>) -> bool
    decreases q.len(),
{
    if e.polygons_submitted || q.len() == 0 {
        true
    } else {
        &&& forall|p: Engine3D| #[trigger] same_but_fifo(p, e) ==> exec_ok(p, q[0])
        &&& forall|p: Engine3D, f: Engine3D|
            same_but_fifo(p, e) && #[trigger] exec_post(p, q[0], f) ==> drain_ok(f, q.drop_first())
    }
}

impl Engine3D {
    /// Runs command `c` with its parameters.
    fn run_command(&mut self, c: GeometryCommand, params: &Vec<u32>)
        requires
            params@.len() >= 1,
            params@.len() >= num_params_spec(c),
            command_ok(*old(self), c, params@),
        ensures
            command_effect(*old(self), *final(self), c, params@),
            final(self).params == old(self).params,
            lighting_wf(*old(self)) ==> lighting_wf(*final(self)),
            final(self).gxfifo == old(self).gxfifo,
    {
        if matrix_command(c) {
            self.exec_matrix(c, params);
        } else if vertex_command(c) {
            self.exec_vertex(c, params);
        } else if lighting_command(c) {
            self.exec_lighting(c, params);
        } else {
            self.exec_other(c, params);
        }
    }

    /// Takes one command word from the FIFO: clears the busy and stall
    /// flags, adds the parameter, and once the command has all its
    /// parameters runs it and clears the parameter list.
    #[verifier::spinoff_prover]
    #[verifier::rlimit(60)]
    pub fn exec_command(&mut self, command_entry: GeometryCommandEntry)
        requires
            exec_ok(*old(self), command_entry),
        ensures
            exec_post(*old(self), command_entry, *final(self)),
    {
        self.gxstat = GXSTAT { geometry_engine_busy: false, ..self.gxstat };
        self.bus_stalled = false;
        let c = command_entry.command;
        let n = self.params.len();
        if n < c.num_params() && n + 1 < c.num_params() {
            self.params.push(command_entry.param);
            self.prev_command = c;
            return;
        }
        let mut params = self.params.clone();
        assert(params@ =~= old(self).params@);
        params.push(command_entry.param);
        assert(*self == started(*old(self)));
        let ghost ran_from = *self;
        self.run_command(c, &params);
        let ghost ran_to = *self;
        self.params.clear();
        assert(Engine3D { params: ran_from.params, ..*self } == ran_to);
    }

    /// Runs the geometry engine: raises the FIFO interrupt if its
    /// condition holds, then, unless polygons wait to be rendered, takes
    /// and runs words from the FIFO until it is empty or a command submits
    /// the polygons. Returns whether the FIFO is less than half full
    /// afterwards (always false while polygons wait).
    pub fn clock(&mut self, interrupts: &mut InterruptRequest) -> (r: bool)
        requires
            drain_ok(*old(self), old(self).gxfifo@),
        ensures
            final(interrupts).bits == (if fifo_irq_condition(
                old(self).gxstat.command_fifo_irq,
                old(self).gxfifo@.len(),
            ) {
                old(interrupts).bits | GEOMETRY_COMMAND_FIFO
            } else {
                old(interrupts).bits
            }),
            old(self).polygons_submitted ==> !r && *final(self) == *old(self),
            !old(self).polygons_submitted ==> {
                &&& final(self).polygons_submitted || final(self).gxfifo@.len() == 0
                &&& final(self).gxfifo@.len() <= old(self).gxfifo@.len()
                &&& final(self).gxfifo@ == old(self).gxfifo@.subrange(
                    old(self).gxfifo@.len() - final(self).gxfifo@.len(),
                    old(self).gxfifo@.len() as int,
                )
                &&& r == (final(self).gxfifo@.len() < FIFO_LEN / 2)
            },
    {
        self.check_interrupts(interrupts);
        if self.polygons_submitted {
            return false;
        }
        let ghost q0 = self.gxfifo@;
        loop
            invariant_except_break
                !self.polygons_submitted,
                drain_ok(*self, self.gxfifo@),
            invariant
                self.gxfifo@.len() <= q0.len(),
                self.gxfifo@ == q0.subrange(q0.len() - self.gxfifo@.len(), q0.len() as int),
            ensures
                self.polygons_submitted || self.gxfifo@.len() == 0,
                self.gxfifo@.len() <= q0.len(),
                self.gxfifo@ == q0.subrange(q0.len() - self.gxfifo@.len(), q0.len() as int),
            decreases self.gxfifo@.len(),
        {
            let ghost before = *self;
            let ghost q = self.gxfifo@;
            match self.gxfifo.pop_front() {
                Some(entry) => {
                    proof {
                        assert(entry == q[0]);
                        assert(same_but_fifo(*self, before));
                        assert(self.gxfifo@ =~= q.drop_first());
                    }
                    let ghost popped = *self;
                    self.exec_command(entry);
                    proof {
                        assert(exec_post(popped, q[0], *self));
                        assert(drain_ok(*self, q.drop_first()));
                        assert(self.gxfifo@ =~= q0.subrange(q0.len() - self.gxfifo@.len(), q0.len() as int));
                    }
                    if self.polygons_submitted {
                        break;
                    }
                },
                None => {
                    break;
                },
            }
        }
        self.gxfifo.len() < FIFO_LEN / 2
    }
}

} // verus!
