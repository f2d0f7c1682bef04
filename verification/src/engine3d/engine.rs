//! The geometry engine's state, its command FIFO and its status registers.
use vstd::prelude::*;
use std::collections::VecDeque;
use super::commands::{Matrices, is_identity};
use super::lighting::lighting_wf;
use super::fixed::FixedPoint;
use super::geometry::{
    Color,
    GeometryCommand,
    GeometryCommandEntry,
    Light,
    Material,
    MatrixMode,
    Polygon,
    Vertex,
    command_of_addr,
    command_of_byte,
    num_params_spec,
};
use super::registers::{
    ClearColor,
    ClearDepth,
    CommandFifoIRQ,
    DISP3DCNT,
    FrameParams,
    GXSTAT,
    PolygonAttributes,
    TextureParams,
    VertexPrimitive,
    Viewport,
    HEIGHT,
    WIDTH,
};
use crate::interrupts::{InterruptRequest, GEOMETRY_COMMAND_FIFO};
use crate::bits::lemma_mask_bounds;

verus! {

/// The number of entries after which the geometry FIFO stalls the bus.
pub const FIFO_LEN: usize = 256;

/// The 3D engine's geometry state.
pub struct Engine3D {
    pub bus_stalled: bool,
    pub disp3dcnt: DISP3DCNT,
    pub gxstat: GXSTAT,
    pub prev_command: GeometryCommand,
    pub packed_commands: u32,
    pub cur_command: GeometryCommand,
    pub num_params: usize,
    pub params_processed: usize,
    pub params: Vec<u32>,
    pub gxfifo: VecDeque<GeometryCommandEntry>,
    pub mats: Matrices,
    pub frame_params: FrameParams,
    pub next_frame_params: FrameParams,
    pub viewport: Viewport,
    pub clear_color: ClearColor,
    pub clear_depth: ClearDepth,
    pub pixels: Vec<u16>,
    pub depth_buffer: Vec<u32>,
    pub polygons_submitted: bool,
    pub polygon_attrs: PolygonAttributes,
    pub polygon_attrs_latch: PolygonAttributes,
    pub vertex_primitive: VertexPrimitive,
    pub prev_pos: [FixedPoint; 3],
    pub swap_verts: bool,
    pub cur_poly_verts: Vec<Vertex>,
    pub vertices: Vec<Vertex>,
    pub polygons: Vec<Polygon>,
    pub lights: [Light; 4],
    pub material: Material,
    pub color: Color,
    pub tex_params: TextureParams,
    pub palette_base: usize,
    pub raw_tex_coord: [i16; 2],
    pub tex_coord: [i16; 2],
    pub toon_table: [Color; 0x20],
}

/// Whether the FIFO's interrupt condition holds for a FIFO of `len`
/// entries.
pub open spec fn fifo_irq_condition(irq: CommandFifoIRQ, len: nat) -> bool {
    match irq {
        CommandFifoIRQ::Never => false,
        CommandFifoIRQ::LessHalf => len < FIFO_LEN / 2,
        CommandFifoIRQ::Empty => len == 0,
    }
}

/// The state of unpacking a packed command word: the remaining packed
/// codes, the current command, its parameter count and how many of its
/// parameters were seen.
pub struct PackState {
    pub packed: u32,
    pub cur: GeometryCommand,
    pub num: nat,
    pub processed: nat,
}

/// The entries that writing `value` to the command FIFO port queues, and
/// the unpacking state after it, from state `s`, within `fuel` steps of the
/// unpacking loop (four suffice: a word packs four codes).
pub open spec fn unpack_step(s: PackState, value: u32, fuel: nat) -> (Seq<GeometryCommandEntry>, PackState)
    decreases fuel,
{
    if fuel == 0 || s.packed == 0 {
        (Seq::empty(), s)
    } else {
        let pushed: Seq<GeometryCommandEntry> = if s.cur != GeometryCommand::NOP {
            seq![GeometryCommandEntry { command: s.cur, param: value }]
        } else {
            Seq::empty()
        };
        if s.processed == s.num {
            let packed = s.packed >> 8u32;
            if packed != 0 {
                let cur = command_of_byte(packed as u8);
                let next = PackState { packed, cur, num: num_params_spec(cur), processed: 0 };
                if num_params_spec(cur) > 0 {
                    (pushed, next)
                } else {
                    let (rest, fin) = unpack_step(next, value, (fuel - 1) as nat);
                    (pushed + rest, fin)
                }
            } else {
                (pushed, PackState { packed, cur: s.cur, num: s.num, processed: s.processed })
            }
        } else {
            (pushed, s)
        }
    }
}

/// `256^f`, the bound of a packed word with `f` codes left.
pub open spec fn byte_bound(f: nat) -> int {
    if f == 0 {
        1
    } else if f == 1 {
        0x100
    } else if f == 2 {
        0x1_0000
    } else if f == 3 {
        0x100_0000
    } else {
        0x1_0000_0000
    }
}

proof fn lemma_byte_bound_shift(p: u32, f: nat)
    requires
        1 <= f <= 4,
        (p as int) < byte_bound(f),
    ensures
        ((p >> 8u32) as int) < byte_bound((f - 1) as nat),
{
    assert((p < 0x100 ==> p >> 8u32 == 0) && (p < 0x1_0000 ==> p >> 8u32 < 0x100) && (p
        < 0x100_0000 ==> p >> 8u32 < 0x1_0000) && p >> 8u32 < 0x100_0000) by (bit_vector);
}

impl Engine3D {
    /// The unpacking state is consistent: with a packed word pending, the
    /// parameter count is the current command's and not all of its
    /// parameters have arrived.
    pub open spec fn pack_wf(&self) -> bool {
        self.packed_commands == 0 || (self.num_params == num_params_spec(self.cur_command)
            && self.params_processed < self.num_params)
    }

    /// The unpacking state.
    pub open spec fn pack_state(&self) -> PackState {
        PackState {
            packed: self.packed_commands,
            cur: self.cur_command,
            num: self.num_params as nat,
            processed: self.params_processed as nat,
        }
    }

    /// The engine at power-on: empty FIFO, identity matrices, empty stacks.
    pub fn new() -> (r: Engine3D)
        ensures
            !r.bus_stalled,
            r.gxfifo@.len() == 0,
            r.params@.len() == 0,
            r.packed_commands == 0,
            r.num_params == 0,
            r.params_processed == 0,
            r.mats.mtx_mode == MatrixMode::Proj,
            is_identity(r.mats.cur_proj) && is_identity(r.mats.cur_pos) && is_identity(
                r.mats.cur_vec,
            ) && is_identity(r.mats.cur_tex) && is_identity(r.mats.clip_mat),
            r.mats.proj_stack_sp == 0 && r.mats.pos_vec_stack_sp == 0 && r.mats.tex_stack_sp == 0,
            r.pixels@.len() == WIDTH * HEIGHT,
            r.depth_buffer@.len() == WIDTH * HEIGHT,
            !r.polygons_submitted,
            r.cur_poly_verts@.len() == 0 && r.vertices@.len() == 0 && r.polygons@.len() == 0,
            r.palette_base == 0,
            r.gxstat.command_fifo_irq == CommandFifoIRQ::Never,
            !r.gxstat.mat_stack_error,
            !r.gxstat.test_busy && !r.gxstat.box_test_inside && !r.gxstat.mat_stack_busy
                && !r.gxstat.geometry_engine_busy,
            lighting_wf(r),
    {
        let light = Light::new();
        let lights = [light, light, light, light];
        let r = Engine3D {
            bus_stalled: false,
            disp3dcnt: DISP3DCNT::new(),
            gxstat: GXSTAT::new(),
            prev_command: GeometryCommand::Unimplemented,
            packed_commands: 0,
            cur_command: GeometryCommand::Unimplemented,
            num_params: 0,
            params_processed: 0,
            params: Vec::new(),
            gxfifo: VecDeque::with_capacity(256),
            mats: Matrices::new(),
            frame_params: FrameParams::new(),
            next_frame_params: FrameParams::new(),
            viewport: Viewport::new(),
            clear_color: ClearColor::new(),
            clear_depth: ClearDepth::new(),
            pixels: vec![0; WIDTH * HEIGHT],
            depth_buffer: vec![0; WIDTH * HEIGHT],
            polygons_submitted: false,
            polygon_attrs: PolygonAttributes::new(),
            polygon_attrs_latch: PolygonAttributes::new(),
            vertex_primitive: VertexPrimitive::Triangles,
            prev_pos: [FixedPoint::zero(); 3],
            swap_verts: false,
            cur_poly_verts: Vec::new(),
            vertices: Vec::new(),
            polygons: Vec::new(),
            lights,
            material: Material::new(),
            color: Color::new5(0, 0, 0),
            tex_params: TextureParams::new(),
            palette_base: 0,
            raw_tex_coord: [0; 2],
            tex_coord: [0; 2],
            toon_table: [Color::new5(0, 0, 0); 0x20],
        };
        assert(r.lights@ =~= seq![light, light, light, light]);
        r
    }

    /// Queues a command with one parameter; the bus stalls while the FIFO
    /// holds 256 entries or more.
    pub fn push_geometry_command(&mut self, command: GeometryCommand, param: u32)
        ensures
            final(self).gxfifo@ == old(self).gxfifo@.push(
                GeometryCommandEntry { command, param },
            ),
            final(self).bus_stalled == (final(self).gxfifo@.len() >= FIFO_LEN),
            final(self).packed_commands == old(self).packed_commands,
            final(self).cur_command == old(self).cur_command,
            final(self).num_params == old(self).num_params,
            final(self).params_processed == old(self).params_processed,
    {
        let entry = GeometryCommandEntry::new(command, param);
        self.gxfifo.push_back(entry);
        self.bus_stalled = self.gxfifo.len() >= FIFO_LEN;
    }

    /// A write to a command's own register queues that command with the
    /// written parameter, unless the register names no command.
    pub fn write_geometry_command(&mut self, addr: u32, value: u32)
        ensures
            command_of_addr(addr & 0xFFF) != GeometryCommand::Unimplemented ==> final(self).gxfifo@
                == old(self).gxfifo@.push(
                GeometryCommandEntry { command: command_of_addr(addr & 0xFFF), param: value },
            ),
            command_of_addr(addr & 0xFFF) == GeometryCommand::Unimplemented ==> final(self).gxfifo@
                == old(self).gxfifo@,
    {
        let command = GeometryCommand::from_addr(addr & 0xFFF);
        if command != GeometryCommand::Unimplemented {
            self.push_geometry_command(command, value);
        }
    }

    /// A write to the packed command port. With no packed word pending, a
    /// non-zero value is a new packed word of up to four command codes (low
    /// byte first); otherwise it is the next parameter of the current
    /// command. Every parameter is queued with its command, and commands
    /// that take no parameter are queued at once with the current value.
    pub fn write_geometry_fifo(&mut self, value: u32)
        requires
            old(self).pack_wf(),
        ensures
            ({
                let s = old(self).pack_state();
                if s.packed == 0 {
                    if value == 0 {
                        &&& final(self).gxfifo@ == old(self).gxfifo@
                        &&& final(self).pack_state() == s
                    } else {
                        let cur = command_of_byte(value as u8);
                        let s1 = PackState { packed: value, cur, num: num_params_spec(cur), processed: 0 };
                        if num_params_spec(cur) > 0 {
                            &&& final(self).gxfifo@ == old(self).gxfifo@
                            &&& final(self).pack_state() == s1
                        } else {
                            &&& final(self).gxfifo@ == old(self).gxfifo@ + unpack_step(s1, value, 4).0
                            &&& final(self).pack_state() == unpack_step(s1, value, 4).1
                        }
                    }
                } else {
                    let s1 = PackState { processed: s.processed + 1, ..s };
                    &&& final(self).gxfifo@ == old(self).gxfifo@ + unpack_step(s1, value, 4).0
                    &&& final(self).pack_state() == unpack_step(s1, value, 4).1
                }
            }),
            final(self).pack_wf(),
    {
        if self.packed_commands == 0 {
            if value == 0 {
                return;
            }
            self.packed_commands = value;
            self.cur_command = GeometryCommand::from_byte(value as u8);
            self.num_params = self.cur_command.num_params();
            self.params_processed = 0;
            if self.num_params > 0 {
                return;
            }
        } else {
            self.params_processed = self.params_processed + 1;
        }
        let ghost start = self.pack_state();
        let ghost start_fifo = self.gxfifo@;
        let mut fuel: usize = 4;
        loop
            invariant_except_break
                fuel <= 4,
                self.params_processed <= self.num_params,
                (self.packed_commands as int) < byte_bound(fuel as nat),
                self.packed_commands != 0 ==> self.num_params == num_params_spec(self.cur_command),
                start_fifo + unpack_step(start, value, 4).0 == self.gxfifo@ + unpack_step(
                    self.pack_state(),
                    value,
                    fuel as nat,
                ).0,
                unpack_step(self.pack_state(), value, fuel as nat).1 == unpack_step(start, value, 4).1,
            ensures
                self.gxfifo@ == start_fifo + unpack_step(start, value, 4).0,
                self.pack_state() == unpack_step(start, value, 4).1,
                self.pack_wf(),
            decreases fuel,
        {
            if self.packed_commands == 0 {
                assert(self.gxfifo@ + Seq::<GeometryCommandEntry>::empty() =~= self.gxfifo@);
                break;
            }
            assert(fuel > 0);
            let ghost before = self.pack_state();
            let ghost before_fifo = self.gxfifo@;
            let ghost outcome = unpack_step(before, value, fuel as nat);
            if self.cur_command != GeometryCommand::NOP {
                self.push_geometry_command(self.cur_command, value);
            }
            let ghost pushed: Seq<GeometryCommandEntry> = if before.cur != GeometryCommand::NOP {
                seq![GeometryCommandEntry { command: before.cur, param: value }]
            } else {
                Seq::empty()
            };
            assert(self.gxfifo@ =~= before_fifo + pushed);
            if self.params_processed == self.num_params {
                let packed = self.packed_commands >> 8u32;
                let ghost old_packed = self.packed_commands;
                proof {
                    lemma_byte_bound_shift(old_packed, fuel as nat);
                }
                self.packed_commands = packed;
                if packed != 0 {
                    self.cur_command = GeometryCommand::from_byte(packed as u8);
                    self.num_params = self.cur_command.num_params();
                    self.params_processed = 0;
                    if self.num_params > 0 {
                        assert(start_fifo + unpack_step(start, value, 4).0 =~= self.gxfifo@);
                        break;
                    }
                    let ghost rest = unpack_step(self.pack_state(), value, (fuel - 1) as nat);
                    assert(outcome.0 == pushed + rest.0);
                    assert(before_fifo + (pushed + rest.0) =~= self.gxfifo@ + rest.0);
                } else {
                    assert(start_fifo + unpack_step(start, value, 4).0 =~= self.gxfifo@);
                    break;
                }
            } else {
                assert(start_fifo + unpack_step(start, value, 4).0 =~= self.gxfifo@);
                break;
            }
            fuel = fuel - 1;
        }
    }

    /// Raises the geometry FIFO interrupt when its selected condition holds.
    pub fn check_interrupts(&self, interrupts: &mut InterruptRequest)
        ensures
            final(interrupts).bits == (if fifo_irq_condition(
                self.gxstat.command_fifo_irq,
                self.gxfifo@.len(),
            ) {
                old(interrupts).bits | GEOMETRY_COMMAND_FIFO
            } else {
                old(interrupts).bits
            }),
    {
        let fire = match self.gxstat.command_fifo_irq {
            CommandFifoIRQ::Never => false,
            CommandFifoIRQ::LessHalf => self.gxfifo.len() < FIFO_LEN / 2,
            CommandFifoIRQ::Empty => self.gxfifo.len() == 0,
        };
        if fire {
            *interrupts = interrupts.union(InterruptRequest::from_bits(GEOMETRY_COMMAND_FIFO));
        }
    }

    /// Byte `byte` of the geometry status register: test flags; matrix
    /// stack error, busy flag and stack pointers; FIFO length; interrupt
    /// selection, engine busy, FIFO empty and less-than-half flags and the
    /// FIFO length's bit 8.
    pub open spec fn gxstat_byte(&self, byte: usize) -> u8 {
        if byte == 0 {
            (if self.gxstat.box_test_inside { 2u8 } else { 0u8 }) | (if self.gxstat.test_busy {
                1u8
            } else {
                0u8
            })
        } else if byte == 1 {
            (if self.gxstat.mat_stack_error { 0x80u8 } else { 0u8 }) | (if self.gxstat.mat_stack_busy {
                0x40u8
            } else {
                0u8
            }) | (self.mats.proj_stack_sp << 5u8) | (self.mats.pos_vec_stack_sp & 0x1F)
        } else if byte == 2 {
            self.gxfifo@.len() as u8
        } else {
            (self.gxstat.command_fifo_irq.bits_spec() << 6u8) | (if self.gxstat.geometry_engine_busy {
                8u8
            } else {
                0u8
            }) | (if self.gxfifo@.len() == 0 { 4u8 } else { 0u8 }) | (if self.gxfifo@.len() < FIFO_LEN
                / 2 {
                2u8
            } else {
                0u8
            }) | ((self.gxfifo@.len() / 256) as u8)
        }
    }

    /// The geometry status register.
    pub fn read_gxstat(&self, byte: usize) -> (r: u8)
        requires
            byte < 4,
        ensures
            r == self.gxstat_byte(byte),
    {
        if byte == 0 {
            (if self.gxstat.box_test_inside { 2u8 } else { 0u8 }) | (if self.gxstat.test_busy {
                1u8
            } else {
                0u8
            })
        } else if byte == 1 {
            (if self.gxstat.mat_stack_error { 0x80u8 } else { 0u8 }) | (if self.gxstat.mat_stack_busy {
                0x40u8
            } else {
                0u8
            }) | (self.mats.proj_stack_sp << 5u8) | (self.mats.pos_vec_stack_sp & 0x1F)
        } else if byte == 2 {
            self.gxfifo.len() as u8
        } else {
            let len = self.gxfifo.len();
            (self.gxstat.command_fifo_irq.bits() << 6u8) | (if self.gxstat.geometry_engine_busy {
                8u8
            } else {
                0u8
            }) | (if len == 0 { 4u8 } else { 0u8 }) | (if len < FIFO_LEN / 2 { 2u8 } else { 0u8 }) | ((
            len / 256) as u8)
        }
    }

    /// Writes the geometry status register: bit 15 acknowledges a matrix
    /// stack error; bits 30-31 select the FIFO interrupt condition.
    pub fn write_gxstat(&mut self, byte: usize, value: u8)
        requires
            byte < 4,
            byte == 3 ==> (value >> 6u8) & 3 != 3,
        ensures
            byte == 1 ==> final(self).gxstat.mat_stack_error == (old(self).gxstat.mat_stack_error && value
                & 0x80 == 0),
            byte != 1 ==> final(self).gxstat.mat_stack_error == old(self).gxstat.mat_stack_error,
            byte == 3 ==> final(self).gxstat.command_fifo_irq.bits_spec() == (value >> 6u8) & 3,
            byte != 3 ==> final(self).gxstat.command_fifo_irq == old(self).gxstat.command_fifo_irq,
            final(self).gxfifo@ == old(self).gxfifo@,
    {
        if byte == 1 {
            self.gxstat.mat_stack_error = self.gxstat.mat_stack_error && value & 0x80 == 0;
        } else if byte == 3 {
            let code = (value >> 6u8) & 0x3;
            proof {
                lemma_mask_bounds();
            }
            self.gxstat.command_fifo_irq = CommandFifoIRQ::from_bits(code);
        }
    }

    /// Byte `byte` of the polygon and vertex counts.
    pub open spec fn ram_count_byte(&self, byte: usize) -> u8 {
        if byte == 0 {
            self.polygons@.len() as u8
        } else if byte == 1 {
            (self.polygons@.len() / 256) as u8
        } else if byte == 2 {
            self.vertices@.len() as u8
        } else {
            (self.vertices@.len() / 256) as u8
        }
    }

    /// The polygon and vertex counts, a byte at a time.
    pub fn read_ram_count(&self, byte: usize) -> (r: u8)
        requires
            byte < 4,
        ensures
            r == self.ram_count_byte(byte),
    {
        if byte == 0 {
            self.polygons.len() as u8
        } else if byte == 1 {
            (self.polygons.len() / 256) as u8
        } else if byte == 2 {
            self.vertices.len() as u8
        } else {
            (self.vertices.len() / 256) as u8
        }
    }

    /// Byte `byte` of the clip matrix (16 entries of four bytes, low byte
    /// first).
    pub open spec fn clip_mat_byte(&self, byte: usize) -> u8 {
        ((self.mats.clip_mat.elems@[(byte / 4) as int].0 as u32) >> (8 * (byte % 4)) as u32) as u8
    }

    /// A byte of the clip matrix.
    pub fn read_clip_mat(&self, byte: usize) -> (r: u8)
        requires
            byte < 64,
        ensures
            r == self.clip_mat_byte(byte),
    {
        ((self.mats.clip_mat.elems[byte / 4].0 as u32) >> (8 * (byte % 4)) as u32) as u8
    }

    /// Reads a 3D engine register at `addr` in the I/O page: the status
    /// register, the RAM counts and the clip matrix; other registers read 0.
    pub fn read_register(&self, addr: u32) -> (r: u8)
        requires
            addr >> 12u32 == 0x04000,
        ensures
            0x600 <= addr & 0xFFF <= 0x603 ==> r == self.gxstat_byte((addr & 3) as usize),
            0x604 <= addr & 0xFFF <= 0x607 ==> r == self.ram_count_byte((addr & 3) as usize),
            0x640 <= addr & 0xFFF <= 0x67F ==> r == self.clip_mat_byte((addr & 0x3F) as usize),
            !(0x600 <= addr & 0xFFF <= 0x607) && !(0x640 <= addr & 0xFFF <= 0x67F) ==> r == 0,
    {
        let off = addr & 0xFFF;
        if 0x4A4 <= off && off <= 0x4A7 {
            0
        } else if 0x600 <= off && off <= 0x603 {
            proof {
                lemma_mask_bounds();
            }
            self.read_gxstat((addr & 0x3) as usize)
        } else if 0x604 <= off && off <= 0x607 {
            proof {
                lemma_mask_bounds();
            }
            self.read_ram_count((addr & 0x3) as usize)
        } else if 0x640 <= off && off <= 0x67F {
            proof {
                lemma_mask_bounds();
            }
            self.read_clip_mat((addr & 0x3F) as usize)
        } else {
            0
        }
    }
}

} // verus!
