//! The matrices of the geometry engine and the matrix commands on them:
//! the current matrices, the matrix stacks and the clip matrix.
use vstd::prelude::*;
use super::fixed::{Matrix, MatrixOp, mat_times, op_ok, op_result, times_ok, identity_entry};
use super::geometry::MatrixMode;
use crate::bits::lemma_mask_bounds;

verus! {

/// The matrix state: the mode that selects the current matrix, the four
/// current matrices, their stacks with stack pointers, and the clip matrix.
#[derive(Clone, Copy)]
pub struct Matrices {
    pub mtx_mode: MatrixMode,
    pub cur_proj: Matrix,
    pub cur_pos: Matrix,
    pub cur_vec: Matrix,
    pub cur_tex: Matrix,
    pub proj_stack_sp: u8,
    pub pos_vec_stack_sp: u8,
    pub tex_stack_sp: u8,
    pub proj_stack: [Matrix; 1],
    pub pos_stack: [Matrix; 31],
    pub vec_stack: [Matrix; 31],
    pub tex_stack: [Matrix; 1],
    pub clip_mat: Matrix,
}

/// Whether every entry of a matrix is the identity's.
pub open spec fn is_identity(m: Matrix) -> bool {
    forall|i: int| 0 <= i < 16 ==> #[trigger] m.elems@[i] == identity_entry(i)
}

/// The six-bit signed stack offset of `MTX_POP`.
pub open spec fn pop_offset(param: u32) -> int {
    let o = (param & 0x3F) as int;
    if o >= 0x20 {
        o - 0x40
    } else {
        o
    }
}

/// Whether applying `op` to the matrix the current mode selects can be
/// done without panicking, including the clip matrix recomputed after it.
pub open spec fn cur_mat_ok(m: Matrices, v: Seq<u32>, op: MatrixOp, also_to_vec: bool) -> bool {
    match m.mtx_mode {
        MatrixMode::Proj => op_ok(op, m.cur_proj.elems@, v) && times_ok(
            m.cur_pos.elems@,
            op_result(op, m.cur_proj.elems@, v),
        ),
        MatrixMode::Pos => op_ok(op, m.cur_pos.elems@, v) && times_ok(
            op_result(op, m.cur_pos.elems@, v),
            m.cur_proj.elems@,
        ),
        MatrixMode::PosVec => op_ok(op, m.cur_pos.elems@, v) && times_ok(
            op_result(op, m.cur_pos.elems@, v),
            m.cur_proj.elems@,
        ) && (also_to_vec ==> op_ok(op, m.cur_vec.elems@, v)),
        MatrixMode::Texture => op_ok(op, m.cur_tex.elems@, v),
    }
}

/// The clip matrix is the position matrix times the projection matrix.
pub open spec fn clip_is_product(m: Matrices) -> bool {
    m.clip_mat.elems@ == mat_times(m.cur_pos.elems@, m.cur_proj.elems@)
}

/// The matrices after applying `op` with parameters `v` to the matrix the
/// mode selects (and to the direction matrix in position-and-vector mode
/// when `also_to_vec`); the clip matrix follows the position and
/// projection matrices.
pub open spec fn apply_effect(a: Matrices, b: Matrices, op: MatrixOp, also_to_vec: bool, v: Seq<u32>) -> bool {
    match a.mtx_mode {
        MatrixMode::Proj => {
            &&& b.cur_proj.elems@ == op_result(op, a.cur_proj.elems@, v)
            &&& clip_is_product(b)
            &&& b == Matrices { cur_proj: b.cur_proj, clip_mat: b.clip_mat, ..a }
        },
        MatrixMode::Pos => {
            &&& b.cur_pos.elems@ == op_result(op, a.cur_pos.elems@, v)
            &&& clip_is_product(b)
            &&& b == Matrices { cur_pos: b.cur_pos, clip_mat: b.clip_mat, ..a }
        },
        MatrixMode::PosVec => {
            &&& b.cur_pos.elems@ == op_result(op, a.cur_pos.elems@, v)
            &&& (if also_to_vec {
                b.cur_vec.elems@ == op_result(op, a.cur_vec.elems@, v)
            } else {
                b.cur_vec == a.cur_vec
            })
            &&& clip_is_product(b)
            &&& b == Matrices { cur_pos: b.cur_pos, cur_vec: b.cur_vec, clip_mat: b.clip_mat, ..a }
        },
        MatrixMode::Texture => {
            &&& b.cur_tex.elems@ == op_result(op, a.cur_tex.elems@, v)
            &&& b == Matrices { cur_tex: b.cur_tex, ..a }
        },
    }
}

/// The stack pointers stay within their stacks: at most 1 for the
/// projection and texture stacks, at most 31 for the position stack.
pub open spec fn stacks_wf(m: Matrices) -> bool {
    m.proj_stack_sp <= 1 && m.pos_vec_stack_sp <= 31 && m.tex_stack_sp <= 1
}

/// Whether `MTX_PUSH` can run: the selected stack has room.
pub open spec fn push_ok(m: Matrices) -> bool {
    match m.mtx_mode {
        MatrixMode::Proj => m.proj_stack_sp == 0,
        MatrixMode::Pos | MatrixMode::PosVec => m.pos_vec_stack_sp < 31,
        MatrixMode::Texture => m.tex_stack_sp == 0,
    }
}

/// The matrices after `MTX_PUSH`: the selected matrix (position and
/// direction together) is saved at the stack pointer, which moves up.
pub open spec fn push_effect(a: Matrices, b: Matrices) -> bool {
    match a.mtx_mode {
        MatrixMode::Proj => {
            &&& b.proj_stack@ == a.proj_stack@.update(0, a.cur_proj)
            &&& b == Matrices { proj_stack: b.proj_stack, proj_stack_sp: 1, ..a }
        },
        MatrixMode::Pos | MatrixMode::PosVec => {
            let sp = a.pos_vec_stack_sp as int;
            &&& b.pos_stack@ == a.pos_stack@.update(sp, a.cur_pos)
            &&& b.vec_stack@ == a.vec_stack@.update(sp, a.cur_vec)
            &&& b.pos_vec_stack_sp == sp + 1
            &&& b == Matrices {
                pos_stack: b.pos_stack,
                vec_stack: b.vec_stack,
                pos_vec_stack_sp: b.pos_vec_stack_sp,
                ..a
            }
        },
        MatrixMode::Texture => {
            &&& b.tex_stack@ == a.tex_stack@.update(0, a.cur_tex)
            &&& b == Matrices { tex_stack: b.tex_stack, tex_stack_sp: 1, ..a }
        },
    }
}

/// Whether `MTX_POP` with `param` can run: the new stack pointer lands on
/// a stored matrix, and the clip matrix can be recomputed.
pub open spec fn pop_ok(m: Matrices, param: u32) -> bool {
    match m.mtx_mode {
        MatrixMode::Proj => m.proj_stack_sp == 1 && times_ok(
            m.cur_pos.elems@,
            m.proj_stack@[0].elems@,
        ),
        MatrixMode::Pos | MatrixMode::PosVec => {
            let sp = m.pos_vec_stack_sp - pop_offset(param);
            0 <= sp < 31 && times_ok(m.pos_stack@[sp].elems@, m.cur_proj.elems@)
        },
        MatrixMode::Texture => m.tex_stack_sp - pop_offset(param) == 0,
    }
}

/// The matrices after `MTX_POP` with `param`: the stack pointer moves down
/// (by the signed offset in `param` for the position and texture stacks)
/// and the selected matrix is reloaded from there.
pub open spec fn pop_effect(a: Matrices, b: Matrices, param: u32) -> bool {
    match a.mtx_mode {
        MatrixMode::Proj => {
            &&& clip_is_product(b)
            &&& b == Matrices {
                proj_stack_sp: 0,
                cur_proj: a.proj_stack@[0],
                clip_mat: b.clip_mat,
                ..a
            }
        },
        MatrixMode::Pos | MatrixMode::PosVec => {
            let sp = a.pos_vec_stack_sp - pop_offset(param);
            &&& b.pos_vec_stack_sp == sp
            &&& clip_is_product(b)
            &&& b == Matrices {
                pos_vec_stack_sp: b.pos_vec_stack_sp,
                cur_pos: a.pos_stack@[sp],
                cur_vec: a.vec_stack@[sp],
                clip_mat: b.clip_mat,
                ..a
            }
        },
        MatrixMode::Texture => b == Matrices { tex_stack_sp: 0, cur_tex: a.tex_stack@[0], ..a },
    }
}

/// Whether `MTX_STORE` or `MTX_RESTORE` with `param` can run: the index
/// names a slot of the selected stack (and, for a restore, the clip matrix
/// can be recomputed).
pub open spec fn index_ok(m: Matrices, param: u32, restore: bool) -> bool {
    let index = (param & 0x3F) as int;
    match m.mtx_mode {
        MatrixMode::Proj => index <= 1 && (restore ==> times_ok(
            m.cur_pos.elems@,
            m.proj_stack@[0].elems@,
        )),
        MatrixMode::Pos | MatrixMode::PosVec => index < 31 && (restore ==> times_ok(
            m.pos_stack@[index].elems@,
            m.cur_proj.elems@,
        )),
        MatrixMode::Texture => index == 0,
    }
}

/// The matrices after `MTX_STORE` with `param`: the selected matrix
/// (position and direction together) is saved into slot `param & 0x3F`
/// (slot 0 of the projection and texture stacks).
pub open spec fn store_effect(a: Matrices, b: Matrices, param: u32) -> bool {
    match a.mtx_mode {
        MatrixMode::Proj => {
            &&& b.proj_stack@ == a.proj_stack@.update(0, a.cur_proj)
            &&& b == Matrices { proj_stack: b.proj_stack, ..a }
        },
        MatrixMode::Pos | MatrixMode::PosVec => {
            let i = (param & 0x3F) as int;
            &&& b.pos_stack@ == a.pos_stack@.update(i, a.cur_pos)
            &&& b.vec_stack@ == a.vec_stack@.update(i, a.cur_vec)
            &&& b == Matrices { pos_stack: b.pos_stack, vec_stack: b.vec_stack, ..a }
        },
        MatrixMode::Texture => {
            &&& b.tex_stack@ == a.tex_stack@.update(0, a.cur_tex)
            &&& b == Matrices { tex_stack: b.tex_stack, ..a }
        },
    }
}

/// The matrices after `MTX_RESTORE` with `param`: the selected matrix
/// (position and direction together) is reloaded from slot `param & 0x3F`
/// (slot 0 of the projection and texture stacks).
pub open spec fn restore_effect(a: Matrices, b: Matrices, param: u32) -> bool {
    match a.mtx_mode {
        MatrixMode::Proj => {
            &&& clip_is_product(b)
            &&& b == Matrices { cur_proj: a.proj_stack@[0], clip_mat: b.clip_mat, ..a }
        },
        MatrixMode::Pos | MatrixMode::PosVec => {
            let i = (param & 0x3F) as int;
            &&& clip_is_product(b)
            &&& b == Matrices {
                cur_pos: a.pos_stack@[i],
                cur_vec: a.vec_stack@[i],
                clip_mat: b.clip_mat,
                ..a
            }
        },
        MatrixMode::Texture => b == Matrices { cur_tex: a.tex_stack@[0], ..a },
    }
}

impl Matrices {
    /// Identity matrices everywhere, projection mode, empty stacks.
    pub fn new() -> (r: Matrices)
        ensures
            r.mtx_mode == MatrixMode::Proj,
            is_identity(r.cur_proj) && is_identity(r.cur_pos) && is_identity(r.cur_vec)
                && is_identity(r.cur_tex) && is_identity(r.clip_mat),
            r.proj_stack_sp == 0 && r.pos_vec_stack_sp == 0 && r.tex_stack_sp == 0,
    {
        let id = Matrix::identity();
        Matrices {
            mtx_mode: MatrixMode::Proj,
            cur_proj: id,
            cur_pos: id,
            cur_vec: id,
            cur_tex: id,
            proj_stack_sp: 0,
            pos_vec_stack_sp: 0,
            tex_stack_sp: 0,
            proj_stack: [id; 1],
            pos_stack: [id; 31],
            vec_stack: [id; 31],
            tex_stack: [id; 1],
            clip_mat: id,
        }
    }

    /// Recomputes the clip matrix as position times projection.
    pub fn calc_clip_mat(&mut self)
        requires
            times_ok(old(self).cur_pos.elems@, old(self).cur_proj.elems@),
        ensures
            clip_is_product(*final(self)),
            *final(self) == (Matrices { clip_mat: final(self).clip_mat, ..*old(self) }),
    {
        self.clip_mat = self.cur_pos.product(self.cur_proj);
    }

    /// Applies a matrix operation with parameters `params` to the matrix
    /// the current mode selects (position and direction matrices together
    /// in position-and-vector mode when `also_to_vec`), and recomputes the
    /// clip matrix unless the texture matrix changed.
    pub fn apply_cur_mat(&mut self, op: MatrixOp, params: &Vec<u32>, also_to_vec: bool)
        requires
            cur_mat_ok(*old(self), params@, op, also_to_vec),
        ensures
            apply_effect(*old(self), *final(self), op, also_to_vec, params@),
    {
        match self.mtx_mode {
            MatrixMode::Proj => {
                self.cur_proj.apply(op, params);
                self.calc_clip_mat();
            },
            MatrixMode::Pos => {
                self.cur_pos.apply(op, params);
                self.calc_clip_mat();
            },
            MatrixMode::PosVec => {
                self.cur_pos.apply(op, params);
                self.calc_clip_mat();
                if also_to_vec {
                    self.cur_vec.apply(op, params);
                }
            },
            MatrixMode::Texture => {
                self.cur_tex.apply(op, params);
            },
        }
    }

    /// `MTX_PUSH`: saves the selected matrix (position and direction
    /// together) and moves the stack pointer up.
    pub fn push(&mut self)
        requires
            push_ok(*old(self)),
            stacks_wf(*old(self)),
        ensures
            push_effect(*old(self), *final(self)),
            stacks_wf(*final(self)),
    {
        match self.mtx_mode {
            MatrixMode::Proj => {
                self.proj_stack[self.proj_stack_sp as usize] = self.cur_proj;
                self.proj_stack_sp = self.proj_stack_sp + 1;
            },
            MatrixMode::Pos | MatrixMode::PosVec => {
                self.pos_stack[self.pos_vec_stack_sp as usize] = self.cur_pos;
                self.vec_stack[self.pos_vec_stack_sp as usize] = self.cur_vec;
                self.pos_vec_stack_sp = self.pos_vec_stack_sp + 1;
            },
            MatrixMode::Texture => {
                self.tex_stack[self.tex_stack_sp as usize] = self.cur_tex;
                self.tex_stack_sp = self.tex_stack_sp + 1;
            },
        }
    }

    /// `MTX_POP`: moves the stack pointer down (by the signed offset in
    /// `param` for the position and texture stacks) and reloads the
    /// selected matrix from there.
    pub fn pop(&mut self, param: u32)
        requires
            pop_ok(*old(self), param),
            stacks_wf(*old(self)),
        ensures
            pop_effect(*old(self), *final(self), param),
            stacks_wf(*final(self)),
    {
        proof {
            lemma_mask_bounds();
        }
        let raw = param & 0x3F;
        let offset: i8 = if raw >= 0x20 { (raw as i8) - 0x40 } else { raw as i8 };
        match self.mtx_mode {
            MatrixMode::Proj => {
                self.proj_stack_sp = self.proj_stack_sp - 1;
                self.cur_proj = self.proj_stack[self.proj_stack_sp as usize];
                self.calc_clip_mat();
            },
            MatrixMode::Pos | MatrixMode::PosVec => {
                let sp = (self.pos_vec_stack_sp as i8 - offset) as u8;
                self.pos_vec_stack_sp = sp;
                self.cur_pos = self.pos_stack[sp as usize];
                self.calc_clip_mat();
                self.cur_vec = self.vec_stack[sp as usize];
            },
            MatrixMode::Texture => {
                let sp = (self.tex_stack_sp as i8 - offset) as u8;
                self.tex_stack_sp = sp;
                self.cur_tex = self.tex_stack[sp as usize];
            },
        }
    }

    /// `MTX_STORE`: saves the selected matrix (position and direction
    /// together) into slot `param & 0x3F`.
    pub fn store(&mut self, param: u32)
        requires
            index_ok(*old(self), param, false),
        ensures
            store_effect(*old(self), *final(self), param),
    {
        let index = param & 0x3F;
        match self.mtx_mode {
            MatrixMode::Proj => {
                self.proj_stack[0] = self.cur_proj;
            },
            MatrixMode::Pos | MatrixMode::PosVec => {
                self.pos_stack[index as usize] = self.cur_pos;
                self.vec_stack[index as usize] = self.cur_vec;
            },
            MatrixMode::Texture => {
                self.tex_stack[index as usize] = self.cur_tex;
            },
        }
    }

    /// `MTX_RESTORE`: reloads the selected matrix (position and direction
    /// together) from slot `param & 0x3F`.
    pub fn restore(&mut self, param: u32)
        requires
            index_ok(*old(self), param, true),
        ensures
            restore_effect(*old(self), *final(self), param),
    {
        let index = param & 0x3F;
        match self.mtx_mode {
            MatrixMode::Proj => {
                self.cur_proj = self.proj_stack[0];
                self.calc_clip_mat();
            },
            MatrixMode::Pos | MatrixMode::PosVec => {
                self.cur_pos = self.pos_stack[index as usize];
                self.calc_clip_mat();
                self.cur_vec = self.vec_stack[index as usize];
            },
            MatrixMode::Texture => {
                self.cur_tex = self.tex_stack[index as usize];
            },
        }
    }
}

/// `MTX_PUSH` followed by `MTX_POP` with offset 1 gives back the current
/// matrices and stack pointers as they were before the push, in every
/// matrix mode: the stacks are last in, first out. Only the stacks' contents
/// and the clip matrix may differ.
pub proof fn lemma_push_pop_roundtrip(a: Matrices, b: Matrices, c: Matrices)
    requires
        push_ok(a),
        stacks_wf(a),
        push_effect(a, b),
        pop_effect(b, c, 1),
    ensures
        c == (Matrices {
            proj_stack: c.proj_stack,
            pos_stack: c.pos_stack,
            vec_stack: c.vec_stack,
            tex_stack: c.tex_stack,
            clip_mat: c.clip_mat,
            ..a
        }),
{
    assert(pop_offset(1) == 1) by (bit_vector);
}

/// `MTX_STORE` followed by `MTX_RESTORE` of the same slot gives back the
/// current matrices as they were stored, in every matrix mode; the stack
/// pointers do not move.
pub proof fn lemma_store_restore_roundtrip(a: Matrices, b: Matrices, c: Matrices, param: u32)
    requires
        index_ok(a, param, false),
        store_effect(a, b, param),
        restore_effect(b, c, param),
    ensures
        c == (Matrices {
            proj_stack: c.proj_stack,
            pos_stack: c.pos_stack,
            vec_stack: c.vec_stack,
            tex_stack: c.tex_stack,
            clip_mat: c.clip_mat,
            ..a
        }),
        c.proj_stack == b.proj_stack && c.pos_stack == b.pos_stack && c.vec_stack == b.vec_stack
            && c.tex_stack == b.tex_stack,
{
}

} // verus!
