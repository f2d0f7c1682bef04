use ndscore::arm::{push_pop_transfers, ArmCore, Refill, RegValues, FLAG_C, FLAG_N, FLAG_T, FLAG_Z};
use ndscore::cartridge::backup::{Backup, EEPROMNormal, Flash, NoBackup, EEPROM};
use ndscore::cartridge::card::Cartridge;
use ndscore::cartridge::key1::Key1Encryption;
use ndscore::cp15::CP15;
use ndscore::dma::{transfer_cycles, unit_access, DMAChannel};
use ndscore::engine2d::engine::Engine2D;
use ndscore::gpu::{EngineA, GPU};
use ndscore::interrupts::{InterruptRequest, GEOMETRY_COMMAND_FIFO};
use ndscore::mmu::AccessType;
use ndscore::rtc::BCD;
use ndscore::engine3d::engine::Engine3D;
use ndscore::engine3d::fixed::Matrix;
use ndscore::engine3d::geometry::{GeometryCommand, GeometryCommandEntry};
use ndscore::engine3d::registers::{ClearColor, CommandFifoIRQ};
use ndscore::ipc::IPC;
use ndscore::math::Sqrt;
use ndscore::scheduler::{Event, Scheduler};
use ndscore::spu::ChannelSpec;
use ndscore::vram::VRAM;

fn test_bios() -> Vec<u8> {
    let mut state: u32 = 0x1234_5678;
    (0..0x4000)
        .map(|_| {
            state = state.wrapping_mul(1_664_525).wrapping_add(1_013_904_223);
            (state >> 24) as u8
        })
        .collect()
}

#[test]
fn engine3d_status_after_power_on() {
    let e = Engine3D::new();
    assert_eq!(e.read_register(0x0400_0600), 0);
    assert_eq!(e.read_register(0x0400_0601), 0);
    assert_eq!(e.read_register(0x0400_0602), 0);
    assert_eq!(e.read_register(0x0400_0603), 0x06);
    assert_eq!(e.read_register(0x0400_0604), 0);
    assert_eq!(e.read_register(0x0400_0640), 0x00);
    assert_eq!(e.read_register(0x0400_0641), 0x10);
    assert_eq!(e.read_register(0x0400_0644), 0);
    assert_eq!(e.read_register(0x0400_04A4), 0);
}

#[test]
fn engine3d_matrix_stack_push_and_pop() {
    let mut e = Engine3D::new();
    e.exec_command(GeometryCommandEntry::new(GeometryCommand::MtxMode, 1));
    e.exec_command(GeometryCommandEntry::new(GeometryCommand::MtxPush, 0));
    e.exec_command(GeometryCommandEntry::new(GeometryCommand::MtxPush, 0));
    assert_eq!(e.read_register(0x0400_0601), 0x02);
    e.exec_command(GeometryCommandEntry::new(GeometryCommand::MtxPop, 2));
    assert_eq!(e.read_register(0x0400_0601), 0x00);
}

#[test]
fn clear_color_bytes_keep_other_fields() {
    let mut cc = ClearColor::new();
    assert_eq!(cc.color(), 0);
    cc.write(0, 0xFF);
    cc.write(1, 0x7F);
    assert_eq!(cc.color(), 0x7FFF);
    cc.write(0, 0x00);
    assert_eq!(cc.color(), 0x7F00);
}

#[test]
fn ipc_fifo_order_and_empty_read() {
    let mut ipc = IPC::new();
    ipc.write_fifocnt9(1, 0x80);
    ipc.write_fifocnt7(1, 0x80);
    ipc.arm9_send(0x11);
    ipc.arm9_send(0x22);
    assert_eq!(ipc.arm7_recv().0, 0x11);
    assert_eq!(ipc.arm7_recv().0, 0x22);
    assert_eq!(ipc.arm7_recv().0, 0x22);
    assert_eq!(ipc.read_fifocnt7(1), 0xC1);
}

#[test]
fn ipc_disabled_sender_drops_word() {
    let mut ipc = IPC::new();
    ipc.write_fifocnt7(1, 0x80);
    ipc.arm9_send(0x33);
    ipc.write_fifocnt9(1, 0x80);
    assert_eq!(ipc.arm7_recv().0, 0);
    assert_eq!(ipc.read_fifocnt7(1) & 0x40, 0x40);
}

#[test]
fn key1_table_read_little_endian_from_bios() {
    let bios = test_bios();
    let k = Key1Encryption::new(&bios);
    let w0 = u32::from_le_bytes([bios[0x30], bios[0x31], bios[0x32], bios[0x33]]);
    let w1 = u32::from_le_bytes([bios[0x34], bios[0x35], bios[0x36], bios[0x37]]);
    assert_eq!(k.key_buf[0], w0);
    assert_eq!(k.key_buf[1], w1);
    assert!(!k.in_use);
}

#[test]
fn key1_decrypt_undoes_encrypt_and_back() {
    let k = Key1Encryption::new(&test_bios());
    let plain = [0x0123_4567u32, 0x89AB_CDEF, 7];
    let mut block = plain;
    k.encrypt(&mut block);
    assert_ne!(&block[..2], &plain[..2]);
    assert_eq!(block[2], 7);
    k.decrypt(&mut block);
    assert_eq!(block, plain);
    k.decrypt(&mut block);
    assert_ne!(&block[..2], &plain[..2]);
    k.encrypt(&mut block);
    assert_eq!(block, plain);
}

#[test]
fn sqrt_unit_32_and_64_bit() {
    let mut s = Sqrt::new();
    s.write_param(0, 144);
    assert_eq!(s.result, 12);
    s.write_param(0, 145);
    assert_eq!(s.result, 12);
    s.cnt.write(0, 1);
    s.write_param(0, 0);
    s.write_param(5, 1);
    assert_eq!(s.result, 1 << 20);
}

#[test]
fn no_backup_is_never_dirty() {
    let mut b = NoBackup::new();
    b.write(true, 0x06);
    b.write(false, 0x42);
    assert_eq!(b.read(), 0);
    assert!(!b.dirty());
}

#[test]
fn flash_page_write_marks_dirty_once() {
    let mut f = Flash::new(16);
    assert!(!f.dirty());
    f.write(false, 0x06);
    f.write(true, 0x0A);
    f.write(true, 0);
    f.write(true, 0);
    f.write(true, 5);
    assert!(!f.dirty());
    f.write(false, 0x42);
    assert_eq!(f.mem[5], 0x42);
    assert_eq!(f.read(), 0xFF);
    assert!(f.dirty());
    assert!(!f.dirty());
}

#[test]
fn eeprom_write_needs_enable_to_be_dirty() {
    let mut e = EEPROM::<EEPROMNormal>::new(vec![0xFF; 64]);
    e.write(true, 0x02);
    e.write(true, 0);
    e.write(true, 3);
    e.write(false, 0x55);
    assert_eq!(e.mem[3], 0xFF);
    assert!(!e.dirty());
    e.write(false, 0x06);
    e.write(true, 0x02);
    e.write(true, 0);
    e.write(true, 3);
    e.write(false, 0x55);
    assert_eq!(e.mem[3], 0x55);
    assert!(e.dirty());
    assert!(!e.dirty());
}

#[test]
fn dma_transfer_plan_32_bit_increment() {
    let mut ch = DMAChannel::new(true, 0);
    for (i, b) in [0x00u8, 0x00, 0x00, 0x02].iter().enumerate() {
        ch.write(i, *b);
    }
    for (i, b) in [0x00u8, 0x10, 0x00, 0x02].iter().enumerate() {
        ch.write(4 + i, *b);
    }
    ch.write(8, 3);
    ch.write(9, 0);
    ch.write(10, 0);
    ch.write(11, 0x84 | 0x40);
    ch.latch();
    let t = ch.run_transfer();
    assert_eq!(
        t.units,
        vec![(0x0200_0000, 0x0200_1000), (0x0200_0004, 0x0200_1004), (0x0200_0008, 0x0200_1008)]
    );
    assert!(t.transfer_32);
    assert!(t.irq);
    assert!(!ch.cnt.enable);
    assert_eq!(ch.sad_latch, 0x0200_000C);
    assert_eq!(ch.dad_latch, 0x0200_100C);
}

#[test]
fn dma_transfer_plan_16_bit_decrement_fixed_and_reload() {
    let mut ch = DMAChannel::new(true, 1);
    for (i, b) in [0x11u8, 0x00, 0x00, 0x02].iter().enumerate() {
        ch.write(i, *b);
    }
    for (i, b) in [0x00u8, 0x10, 0x00, 0x02].iter().enumerate() {
        ch.write(4 + i, *b);
    }
    ch.write(8, 2);
    // source decrements (control 1), destination increments and reloads (control 3)
    ch.write(10, 0xE0);
    ch.write(11, 0x80);
    ch.latch();
    let t = ch.run_transfer();
    assert_eq!(t.units, vec![(0x0200_0010, 0x0200_1000), (0x0200_000E, 0x0200_1002)]);
    assert!(!t.transfer_32);
    assert_eq!(ch.sad_latch, 0x0200_000C);
    assert_eq!(ch.dad_latch, 0x0200_1000);
}

#[test]
fn vram_write_reads_back_through_lcdc_and_engine_a() {
    let mut v = VRAM::new();
    assert_eq!(v.arm9_read(0x0680_0000, 2), 0);
    v.write_vram_cnt(0, 0x80);
    v.arm9_write(0x0680_0010, 2, 0x1234);
    assert_eq!(v.arm9_read(0x0680_0010, 2), 0x1234);
    assert_eq!(v.arm9_read(0x0680_0010, 1), 0x34);
    v.write_vram_cnt(0, 0x81);
    assert_eq!(v.arm9_read(0x0680_0010, 2), 0);
    assert_eq!(v.arm9_read(0x0600_0010, 2), 0x1234);
    v.arm9_write(0x0600_0020, 4, 0xDEAD_BEEF);
    assert_eq!(v.arm9_read(0x0600_0020, 4), 0xDEAD_BEEF);
}

#[test]
fn matrix_identity_on_the_right() {
    let vals: Vec<u32> = (0..16u32).map(|i| (i * 0x1357) ^ 0x800).collect();
    let mut m = Matrix::identity();
    m.load4x4(&vals);
    let p = m.times(Matrix::identity());
    assert_eq!(p.elems, m.elems);
}

#[test]
fn mul4x3_matches_extended_mul4x4() {
    let base: Vec<u32> = (0..16u32).map(|i| i * 0x321 + 0x100).collect();
    let v12: Vec<u32> = (0..12u32).map(|i| (i * 0x211) ^ 0x1000).collect();
    let mut v16 = Vec::new();
    for r in 0..4 {
        v16.extend_from_slice(&v12[3 * r..3 * r + 3]);
        v16.push(if r == 3 { 0x1000 } else { 0 });
    }
    let mut a = Matrix::identity();
    a.load4x4(&base);
    let mut b = a;
    a.mul4x3(&v12);
    b.mul4x4(&v16);
    assert_eq!(a.elems, b.elems);
}

#[test]
fn thumb_alu_operations() {
    let mut core = ArmCore::new(RegValues::new());
    core.regs.regs[0] = 6;
    core.regs.regs[1] = 7;
    core.thumb_alu(0x4348); // MUL r0, r1
    assert_eq!(core.regs.regs[0], 42);
    assert!(!core.regs.get_flag(FLAG_Z) && !core.regs.get_flag(FLAG_N));

    core.regs.regs[0] = 5;
    core.regs.regs[1] = 5;
    core.thumb_alu(0x4288); // CMP r0, r1
    assert_eq!(core.regs.regs[0], 5);
    assert!(core.regs.get_flag(FLAG_Z) && core.regs.get_flag(FLAG_C));

    core.regs.regs[1] = 1;
    core.thumb_alu(0x4248); // NEG r0, r1
    assert_eq!(core.regs.regs[0], 0xFFFF_FFFF);
    assert!(core.regs.get_flag(FLAG_N) && !core.regs.get_flag(FLAG_Z));

    core.regs.regs[0] = 1;
    core.regs.regs[1] = 0x104;
    let cycles = core.cycles_spent;
    core.thumb_alu(0x4088); // LSL r0, r1 (by the low byte, 4)
    assert_eq!(core.regs.regs[0], 16);
    assert_eq!(core.cycles_spent, cycles + 1);

    core.regs.regs[0] = 0xF0;
    core.regs.regs[1] = 0x3C;
    core.thumb_alu(0x4388); // BIC r0, r1
    assert_eq!(core.regs.regs[0], 0xC0);
}

#[test]
fn thumb_shift_add_sub_immediate_formats() {
    let mut core = ArmCore::new(RegValues::new());
    core.regs.regs[1] = 3;
    core.thumb_move_shifted_reg(0x0108); // LSL r0, r1, #4
    assert_eq!(core.regs.regs[0], 48);
    core.regs.regs[1] = 0x8000_0000;
    core.thumb_move_shifted_reg(0x0808); // LSR r0, r1, #32
    assert_eq!(core.regs.regs[0], 0);
    assert!(core.regs.get_flag(FLAG_Z) && core.regs.get_flag(FLAG_C));

    core.regs.regs[1] = 10;
    core.thumb_add_sub(0x1CC8); // ADD r0, r1, #3
    assert_eq!(core.regs.regs[0], 13);
    core.thumb_add_sub(0x1A42); // SUB r2, r0, r1
    assert_eq!(core.regs.regs[2], 3);
    assert!(core.regs.get_flag(FLAG_C) && !core.regs.get_flag(FLAG_N));

    core.thumb_immediate(0x23FF); // MOV r3, #0xFF
    assert_eq!(core.regs.regs[3], 0xFF);
    core.thumb_immediate(0x2BFF); // CMP r3, #0xFF
    assert!(core.regs.get_flag(FLAG_Z));
    assert_eq!(core.regs.regs[3], 0xFF);
    core.thumb_immediate(0x3B01); // SUB r3, #1
    assert_eq!(core.regs.regs[3], 0xFE);
}

#[test]
fn thumb_relative_address_and_stack_offset() {
    let mut core = ArmCore::new(RegValues::new());
    core.regs.regs[15] = 0x0200_0006;
    core.regs.regs[13] = 0x0300_7F00;
    core.thumb_get_rel_addr(0xA402); // ADD r4, PC, #8
    assert_eq!(core.regs.regs[4], 0x0200_000C);
    core.thumb_get_rel_addr(0xAD01); // ADD r5, SP, #4
    assert_eq!(core.regs.regs[5], 0x0300_7F04);
    core.thumb_add_offset_sp(0xB084); // SUB SP, #16
    assert_eq!(core.regs.regs[13], 0x0300_7EF0);
    core.thumb_add_offset_sp(0xB004); // ADD SP, #16
    assert_eq!(core.regs.regs[13], 0x0300_7F00);
}

#[test]
fn scheduler_orders_events_by_due_cycle() {
    let mut s = Scheduler::new();
    s.schedule(Event::VBlank, 10);
    s.schedule(Event::HBlank, 5);
    s.schedule(Event::DMA(true, 2), 7);
    s.advance(4);
    assert_eq!(s.get_next_event(), None);
    s.advance(1);
    assert_eq!(s.get_next_event(), Some(Event::HBlank));
    assert_eq!(s.get_next_event(), None);
    s.remove(Event::DMA(true, 2));
    s.schedule(Event::StepAudioChannel(ChannelSpec::PSG(9)), 20);
    s.advance(5);
    assert_eq!(s.get_next_event(), Some(Event::VBlank));
    s.schedule(Event::StepAudioChannel(ChannelSpec::PSG(9)), 0);
    assert_eq!(s.get_next_event(), Some(Event::StepAudioChannel(ChannelSpec::PSG(9))));
    s.run_now(Event::ROMBlockEnded(true));
    assert_eq!(s.get_next_event(), Some(Event::ROMBlockEnded(true)));
}

#[test]
fn thumb_push_pop_transfer_addresses() {
    let (push, sp) = push_pop_transfers(0xB505, 0x1000); // PUSH {r0, r2, lr}
    assert_eq!(push, vec![(0xFF4, 0), (0xFF8, 2), (0xFFC, 14)]);
    assert_eq!(sp, 0xFF4);
    let (pop, sp) = push_pop_transfers(0xBD02, 0xFF4); // POP {r1, pc}
    assert_eq!(pop, vec![(0xFF4, 1), (0xFF8, 15)]);
    assert_eq!(sp, 0xFFC);
    let (none, sp) = push_pop_transfers(0xB400, 0x80); // PUSH {}
    assert!(none.is_empty());
    assert_eq!(sp, 0x80);
}

#[test]
fn thumb_block_store_and_load() {
    let mut core = ArmCore::new(RegValues::new());
    core.regs.regs[0] = 0x1002;
    core.regs.regs[1] = 11;
    core.regs.regs[3] = 33;
    let w = core.thumb_stm(0xC00B); // STMIA r0!, {r0, r1, r3}
    assert_eq!(w, vec![(0x1000, 0x1002), (0x1004, 11), (0x1008, 33)]);
    assert_eq!(core.regs.regs[0], 0x100E);

    core.regs.regs[0] = 5;
    core.regs.regs[1] = 0x2000;
    let w = core.thumb_stm(0xC103); // STMIA r1!, {r0, r1}
    assert_eq!(w, vec![(0x2000, 5), (0x2004, 0x2008)]);
    assert_eq!(core.regs.regs[1], 0x2008);

    core.regs.regs[2] = 0x3000;
    core.thumb_ldm(0xCA06, &[7, 9]); // LDMIA r2!, {r1, r2}
    assert_eq!((core.regs.regs[1], core.regs.regs[2]), (7, 9));

    core.regs.regs[2] = 0x3000;
    core.thumb_ldm(0xCA14, &[1, 2]); // LDMIA r2!, {r2, r4}
    assert_eq!((core.regs.regs[2], core.regs.regs[4]), (0x3008, 2));

    core.regs.regs[5] = 0x4001;
    core.thumb_ldm(0xCD00, &[]); // LDMIA r5!, {}
    assert_eq!(core.regs.regs[5], 0x403E);
}

#[test]
fn thumb_high_register_ops_and_bx() {
    let mut core = ArmCore::new(RegValues::new());
    core.regs.regs[8] = 100;
    core.regs.regs[1] = 23;
    assert_eq!(core.thumb_hi_reg_bx(0x4488), Refill::Keep); // ADD r8, r1
    assert_eq!(core.regs.regs[8], 123);
    core.regs.regs[9] = 77;
    assert_eq!(core.thumb_hi_reg_bx(0x4648), Refill::Keep); // MOV r0, r9
    assert_eq!(core.regs.regs[0], 77);
    assert_eq!(core.thumb_hi_reg_bx(0x4548), Refill::Keep); // CMP r0, r9
    assert!(core.regs.get_flag(FLAG_Z));
    core.regs.regs[1] = 0x0200_0101;
    assert_eq!(core.thumb_hi_reg_bx(0x4708), Refill::Thumb); // BX r1
    assert_eq!(core.regs.regs[15], 0x0200_0100);
    core.regs.regs[2] = 0x0200_0002;
    assert_eq!(core.thumb_hi_reg_bx(0x4710), Refill::Arm); // BX r2
    assert_eq!(core.regs.regs[15], 0x0200_0000);
    assert!(!core.regs.get_flag(FLAG_T));
    assert_eq!(core.thumb_hi_reg_bx(0x468F), Refill::Thumb); // MOV pc, r1
    assert_eq!(core.regs.regs[15], 0x0200_0101);
}

#[test]
fn thumb_branches() {
    let mut core = ArmCore::new(RegValues::new());
    core.regs.set_flag(FLAG_Z, true);
    core.regs.regs[15] = 0x100;
    assert_eq!(core.thumb_cond_branch(0xD0FE), Refill::Thumb); // BEQ -4
    assert_eq!(core.regs.regs[15], 0xFC);
    assert_eq!(core.thumb_cond_branch(0xD1FE), Refill::Keep); // BNE not taken
    assert_eq!(core.regs.regs[15], 0xFC);

    core.regs.regs[15] = 0x200;
    assert_eq!(core.thumb_uncond_branch(0xE7FF), Refill::Thumb); // B -2
    assert_eq!(core.regs.regs[15], 0x1FE);
    assert_eq!(core.thumb_uncond_branch(0xE010), Refill::Thumb); // B +0x20
    assert_eq!(core.regs.regs[15], 0x21E);

    core.regs.regs[15] = 0x0200_0004;
    assert_eq!(core.thumb_branch_with_link(0xF001), Refill::Keep); // BL, upper half
    assert_eq!(core.regs.regs[14], 0x0200_1004);
    core.regs.regs[15] = 0x0200_0006;
    assert_eq!(core.thumb_branch_with_link(0xF810), Refill::Thumb); // BL, lower half
    assert_eq!(core.regs.regs[15], 0x0200_1024);
    assert_eq!(core.regs.regs[14], 0x0200_0005);
}

fn secure_area_rom() -> Vec<u8> {
    let mut rom = vec![0u8; 0x8000];
    rom[0x20..0x24].copy_from_slice(&0x4000u32.to_le_bytes());
    for i in 0..3 {
        rom[0x4000 + 4 * i..0x4004 + 4 * i].copy_from_slice(&0xE7FF_DEFFu32.to_ne_bytes());
    }
    rom[0x400C] = 0xFF;
    rom[0x400D] = 0xDE;
    for i in 0x400E..0x4800 {
        rom[i] = (i % 251) as u8;
    }
    rom
}

#[test]
fn secure_area_reencrypted_with_zero_key() {
    // With an all-zero key table and game code the cipher only swaps the
    // two words of a block, so the result is known on any machine.
    let rom = secure_area_rom();
    let mut c = Cartridge::new(rom.clone(), &vec![0u8; 0x1078], Box::new(NoBackup::new()));
    c.encrypt_secure_area();
    assert_eq!(&c.rom[0x4000..0x4008], b"encryObj");
    for j in 1..0x100 {
        let at = 0x4000 + 8 * j;
        assert_eq!(&c.rom[at..at + 4], &rom[at + 4..at + 8]);
        assert_eq!(&c.rom[at + 4..at + 8], &rom[at..at + 4]);
    }
    assert_eq!(&c.rom[..0x4000], &rom[..0x4000]);
    assert_eq!(&c.rom[0x4800..], &rom[0x4800..]);
    assert!(!c.key1_encryption.in_use);
}

#[test]
fn secure_area_left_alone_when_not_marked() {
    let mut rom = secure_area_rom();
    rom[0x400D] = 0;
    let mut c = Cartridge::new(rom.clone(), &vec![0u8; 0x1078], Box::new(NoBackup::new()));
    c.encrypt_secure_area();
    assert_eq!(c.rom, rom);
    let mut rom = secure_area_rom();
    rom[0x20..0x24].copy_from_slice(&0x8000u32.to_le_bytes());
    let mut c = Cartridge::new(rom.clone(), &vec![0u8; 0x1078], Box::new(NoBackup::new()));
    c.encrypt_secure_area();
    assert_eq!(c.rom, rom);
}

#[test]
fn engine3d_clock_drains_fifo() {
    let mut e = Engine3D::new();
    e.push_geometry_command(GeometryCommand::MtxMode, 1);
    e.push_geometry_command(GeometryCommand::MtxPush, 0);
    e.gxstat.command_fifo_irq = CommandFifoIRQ::LessHalf;
    let mut irq = InterruptRequest::empty();
    assert!(e.clock(&mut irq));
    assert_eq!(irq.bits, GEOMETRY_COMMAND_FIFO);
    assert_eq!(e.gxfifo.len(), 0);
    assert_eq!(e.read_register(0x0400_0601), 0x01);

    e.polygons_submitted = true;
    e.push_geometry_command(GeometryCommand::MtxPush, 0);
    let mut irq = InterruptRequest::empty();
    assert!(!e.clock(&mut irq));
    assert_eq!(e.gxfifo.len(), 1);
    assert_eq!(e.read_register(0x0400_0601), 0x01);
}

#[test]
fn cp15_registers() {
    let mut c = CP15::new();
    assert_eq!(c.read(1, 0, 0), 0x0005_2078);
    assert_eq!(c.read(1, 1, 0), 0);
    assert_eq!(c.read(0, 0, 1), 0x0F0D_2112);
    assert_eq!(c.read(9, 1, 0), 0x0080_300A);
    assert_eq!(c.read(9, 1, 1), 0x0000_000C);
    assert_eq!(c.interrupt_base(), 0xFFFF_0000);
    assert!(c.addr_in_itcm(0x7FFF) && !c.addr_in_itcm(0x8000));
    c.write(1, 0, 0, 0);
    assert_eq!(c.read(1, 0, 0), 0x78);
    assert_eq!(c.interrupt_base(), 0);
    c.write(1, 0, 0, 0x2000);
    assert_eq!(c.interrupt_base(), 0xFFFF_0000);
    c.write(9, 1, 0, 0x0300_000A);
    assert!(c.addr_in_dtcm(0x0300_3FFF) && !c.addr_in_dtcm(0x0300_4000));
    assert_eq!(c.read(9, 1, 0), 0x0300_000A);
    c.write(2, 0, 0, 0x1234);
    assert!(!c.arm9_halted);
    c.write(7, 0, 4, 0);
    assert!(c.arm9_halted);
}

#[test]
fn palette_picture() {
    let colors: Vec<u16> = (0..4).collect();
    let (pixels, w, h) = GPU::render_palettes(&colors, 2);
    assert_eq!((w, h, pixels.len()), (16, 16, 256));
    assert_eq!(pixels[9 * 16 + 3], 0x8002);
    assert_eq!(pixels[15 * 16 + 15], 0x8003);
    assert_eq!(pixels[0], 0x8000);
}

#[test]
fn dma_cycle_accounting() {
    assert_eq!(unit_access(0), AccessType::N);
    assert_eq!(unit_access(3), AccessType::S);
    assert_eq!(transfer_cycles(&vec![(1, 2), (3, 4)]), 12);
    assert_eq!(transfer_cycles(&vec![]), 2);
}

#[test]
fn mul4x4_by_identity_keeps_matrix() {
    let vals: Vec<u32> = (0..16u32).map(|i| i * 0x777 + 5).collect();
    let mut m = Matrix::identity();
    m.load4x4(&vals);
    let before = m;
    let id: Vec<u32> = (0..16).map(|i| if i % 5 == 0 { 0x1000 } else { 0 }).collect();
    m.mul4x4(&id);
    assert_eq!(m.elems, before.elems);
}

#[test]
fn save_chip_memory_after_dirty() {
    let mut f = Flash::new(4);
    f.write(false, 0x06);
    f.write(true, 0x0A);
    f.write(true, 0);
    f.write(true, 0);
    f.write(true, 1);
    f.write(false, 0x5A);
    assert!(f.dirty());
    assert_eq!(f.mem(), &[0xFF, 0x5A, 0xFF, 0xFF]);
}

#[test]
fn bcd_counter_wraps_at_max() {
    let mut b = BCD::new(0x01, 0x12);
    b.set_value(0x09);
    assert!(!b.inc_with_max(0x12));
    assert_eq!(b.value(), 0x10);
    b.set_value(0x12);
    assert!(b.inc_with_max(0x12));
    assert_eq!(b.value(), 0x01);
}

#[test]
fn tile_picture_from_engine_a_backgrounds() {
    let mut v = VRAM::new();
    v.write_vram_cnt(0, 0x81);
    v.arm9_write(0x0600_0000, 1, 0x21);
    v.arm9_write(0x0600_0020, 1, 0x03);
    let colors: Vec<u16> = (0..256u16).map(|i| i * 3).collect();
    let (pixels, w, h) = GPU::render_tiles(&v, true, false, &colors, 0, 0, false, false);
    assert_eq!((w, h, pixels.len()), (512, 512, 512 * 512));
    assert_eq!(pixels[0], 0x8000 | 3);
    assert_eq!(pixels[1], 0x8000 | 6);
    assert_eq!(pixels[2], 0);
    assert_eq!(pixels[8], 0x8000 | 9);
    let (pixels, _, h) = GPU::render_tiles(&v, true, false, &colors, 0, 0, false, true);
    assert_eq!(h, 256);
    assert_eq!(pixels[0], 0x8000 | (0x21 * 3));
}

#[test]
fn background_map_picture() {
    let mut v = VRAM::new();
    v.write_vram_cnt(0, 0x81);
    v.arm9_write(0x0600_0000, 2, 0x0001); // map entry 0: tile 1
    v.arm9_write(0x0600_0020, 1, 0x05); // tile 1, dot 0: color 5
    let mut e = Engine2D::<EngineA>::new();
    e.bg_palettes[5] = 0x1234;
    let (pixels, w, h) = e.render_map(&v, 0);
    assert_eq!((w, h, pixels.len()), (256, 256, 256 * 256));
    assert_eq!(pixels[0], 0x9234);
    assert_eq!(pixels[1], 0);
    assert_eq!(pixels[8], 0x8000);
}
