use gbcore::cart::Cart;
use gbcore::cpu::Cpu;
use gbcore::cpu::Ime;
use gbcore::mmu::Mmu;
use gbcore::ppu::LcdBuffer;
use gbcore::ppu::Ppu;
use gbcore::registers::Register16;
use gbcore::registers::Register8;
use gbcore::rtc::Rtc;
use gbcore::timers::Timers;
use gbcore::Device;

fn rom(program: &[u8], cart_type: u8, rom_size: u8, ram_size: u8) -> Vec<u8> {
    let mut rom = vec![0u8; 0x8000usize << rom_size];
    for (i, b) in program.iter().enumerate() {
        rom[0x100 + i] = *b;
    }
    rom[0x147] = cart_type;
    rom[0x148] = rom_size;
    rom[0x149] = ram_size;
    rom
}

fn machine(program: &[u8]) -> (Cpu, Mmu) {
    (Cpu::new(), Mmu::new(rom(program, 0, 0, 0), None, None).unwrap())
}

#[test]
fn f_low_nibble_zero_after_instructions() {
    // LD BC,0xFFFF; PUSH BC; POP AF; SCF; CCF; DAA
    let (mut cpu, mut mmu) = machine(&[0x01, 0xFF, 0xFF, 0xC5, 0xF1, 0x37, 0x3F, 0x27]);
    for _ in 0..6 {
        cpu.tick(&mut mmu);
        assert_eq!(cpu.reg.get8(&Register8::F) & 0x0F, 0);
        assert_eq!(cpu.reg.get16(&Register16::AF) & 0x000F, 0);
    }
}

#[test]
fn pop_af_masks_low_nibble() {
    let (mut cpu, mut mmu) = machine(&[0xF1]);
    cpu.reg.sp = 0xC000;
    mmu.write(0xC000, 0xFF);
    mmu.write(0xC001, 0x12);
    cpu.tick(&mut mmu);
    assert_eq!(cpu.reg.a, 0x12);
    assert_eq!(cpu.reg.get8(&Register8::F), 0xF0);
    assert_eq!(cpu.reg.sp, 0xC002);
}

#[test]
fn push_pop_round_trip() {
    // PUSH BC; POP DE
    let (mut cpu, mut mmu) = machine(&[0xC5, 0xD1]);
    cpu.reg.set16(&Register16::BC, 0xBEEF);
    let sp = cpu.reg.sp;
    assert_eq!(cpu.tick(&mut mmu), 16);
    assert_eq!(cpu.reg.sp, sp.wrapping_sub(2));
    assert_eq!(cpu.tick(&mut mmu), 12);
    assert_eq!(cpu.reg.get16(&Register16::DE), 0xBEEF);
    assert_eq!(cpu.reg.sp, sp);
}

#[test]
fn ram_write_then_read() {
    let (_, mut mmu) = machine(&[]);
    for (a, v) in [(0x8000u16, 1u8), (0x9FFF, 2), (0xC000, 3), (0xDFFF, 4), (0xE005, 5), (0xFE00, 6), (0xFE9F, 7), (0xFF80, 8), (0xFFFE, 9)] {
        mmu.write(a, v);
        assert_eq!(mmu.read(a), v);
    }
    // the echo maps onto WRAM
    assert_eq!(mmu.read(0xC005), 5);
    // unmapped range reads 0 and ignores writes
    mmu.write(0xFEA0, 0x55);
    assert_eq!(mmu.read(0xFEA0), 0);
}

#[test]
fn oam_dma_copies_page() {
    let (_, mut mmu) = machine(&[]);
    for i in 0..160u16 {
        mmu.write(0xC100 + i, (i as u8) ^ 0x5A);
    }
    mmu.write(0xFF46, 0xC1);
    for i in 0..160u16 {
        assert_eq!(mmu.read(0xFE00 + i), (i as u8) ^ 0x5A);
    }
    assert_eq!(mmu.read(0xFF46), 0xC1);
}

#[test]
fn cycle_costs() {
    // JP NZ,0x0150 with Z set (not taken), then with Z clear (taken)
    let (mut cpu, mut mmu) = machine(&[0xC2, 0x50, 0x01, 0xC2, 0x50, 0x01]);
    cpu.reg.fz = true;
    assert_eq!(cpu.tick(&mut mmu), 12);
    cpu.reg.fz = false;
    assert_eq!(cpu.tick(&mut mmu), 16);
    assert_eq!(cpu.reg.pc, 0x0150);

    // CALL C taken, RET NC not taken, RET C taken
    let (mut cpu, mut mmu) = machine(&[0xDC, 0x10, 0x01]);
    cpu.reg.fc = true;
    assert_eq!(cpu.tick(&mut mmu), 24);
    assert_eq!(cpu.reg.pc, 0x0110);
    let (mut cpu, mut mmu) = machine(&[0xD0, 0xD8]);
    cpu.reg.sp = 0xC000;
    cpu.reg.fc = true;
    assert_eq!(cpu.tick(&mut mmu), 8);
    assert_eq!(cpu.tick(&mut mmu), 20);

    // JR NZ,-2 taken; JR Z not taken
    let (mut cpu, mut mmu) = machine(&[0x20, 0xFE]);
    cpu.reg.fz = false;
    assert_eq!(cpu.tick(&mut mmu), 12);
    assert_eq!(cpu.reg.pc, 0x0100);
    let (mut cpu, mut mmu) = machine(&[0x28, 0x05]);
    cpu.reg.fz = false;
    assert_eq!(cpu.tick(&mut mmu), 8);
    assert_eq!(cpu.reg.pc, 0x0102);

    // CB: RLC B, BIT 7,(HL), RLC (HL)
    let (mut cpu, mut mmu) = machine(&[0xCB, 0x00, 0xCB, 0x7E, 0xCB, 0x06]);
    cpu.reg.set16(&Register16::HL, 0xC000);
    assert_eq!(cpu.tick(&mut mmu), 8);
    assert_eq!(cpu.tick(&mut mmu), 12);
    assert_eq!(cpu.tick(&mut mmu), 16);

    // unused opcode behaves as NOP
    let (mut cpu, mut mmu) = machine(&[0xD3]);
    let before = cpu.reg;
    assert_eq!(cpu.tick(&mut mmu), 4);
    assert_eq!(cpu.reg.pc, 0x0101);
    assert_eq!(cpu.reg.a, before.a);
}

#[test]
fn div_write_resets() {
    let (_, mut mmu) = machine(&[]);
    mmu.io.timers.sysclk = 0x3456;
    assert_eq!(mmu.read(0xFF04), 0x34);
    mmu.write(0xFF04, 0x99);
    assert_eq!(mmu.read(0xFF04), 0);
}

#[test]
fn sysclk_advances_by_cycles() {
    let mut dev = Device::new(rom(&[], 0, 0, 0), None, None).unwrap();
    dev.mmu.io.timers.sysclk = 0xFFF0;
    dev.update_timers(24);
    assert_eq!(dev.mmu.io.timers.sysclk, 0x0008);
    dev.update_timers(12);
    assert_eq!(dev.mmu.io.timers.sysclk, 0x0014);
}

#[test]
fn timer_interrupt_one_tick_late() {
    let mut t = Timers::new();
    t.write(0xFF07, 0x04);
    assert_eq!(t.get_tima_clock(), 1024);
    assert!(t.get_tima_enabled());
    let mut dev = Device::new(rom(&[], 0, 0, 0), None, None).unwrap();
    dev.mmu.io.if_flag = 0;
    dev.mmu.io.timers.sysclk = 0;
    dev.mmu.write(0xFF07, 0x06); // period 64
    dev.mmu.write(0xFF05, 0xFF);
    dev.mmu.write(0xFF06, 0x10);
    dev.update_timers(8);
    assert_eq!(dev.mmu.read(0xFF05), 0xFF);
    dev.mmu.io.timers.sysclk = 60;
    dev.update_timers(8);
    assert_eq!(dev.mmu.read(0xFF05), 0x10);
    assert_eq!(dev.mmu.io.if_flag & 0x04, 0);
    assert!(dev.tima_overflow);
    dev.update_timers(4);
    assert_eq!(dev.mmu.io.if_flag & 0x04, 0x04);
    assert!(!dev.tima_overflow);
}

#[test]
fn full_frame_draws_every_pixel_once_vblank() {
    let mut mmu = Mmu::new(rom(&[], 0, 0, 0), None, None).unwrap();
    let mut ppu = Ppu::new();
    let mut buffer = LcdBuffer { buffer: vec![0x123456; 160 * 144], cleared: false };
    mmu.io.if_flag = 0;
    let mut vblanks = 0;
    for _ in 0..(70224 / 4) {
        ppu.tick(&mut mmu, &mut buffer, 4);
        if mmu.io.if_flag & 0x01 != 0 {
            vblanks += 1;
            mmu.io.if_flag &= !0x01;
        }
    }
    assert_eq!(vblanks, 1);
    assert_eq!(buffer.buffer.len(), 160 * 144);
    assert!(buffer.buffer.iter().all(|p| *p != 0x123456));
}

#[test]
fn oam_scan_keeps_at_most_ten() {
    let mut mmu = Mmu::new(rom(&[], 0, 0, 0), None, None).unwrap();
    for i in 0..20u16 {
        mmu.write(0xFE00 + 4 * i, 16); // y: covers line 0
        mmu.write(0xFE01 + 4 * i, 8 + i as u8); // x
    }
    let mut ppu = Ppu::new();
    let mut buffer = LcdBuffer { buffer: vec![0; 160 * 144], cleared: false };
    ppu.tick(&mut mmu, &mut buffer, 80);
    assert_eq!(ppu.sprites.len(), 10);
    assert_eq!(ppu.sprites[0].x_position, 8);
    assert_eq!(ppu.sprites[9].x_position, 17);
}

#[test]
fn stat_interrupt_on_rising_edge_only() {
    let (_, mut mmu) = machine(&[]);
    let mut ppu = Ppu::new();
    mmu.io.if_flag = 0;
    mmu.write(0xFF41, 0x40); // LY=LYC source
    mmu.write(0xFF45, 0);
    ppu.handle_stat(&mut mmu);
    assert_eq!(mmu.io.if_flag & 0x02, 0x02);
    mmu.io.if_flag = 0;
    ppu.handle_stat(&mut mmu);
    assert_eq!(mmu.io.if_flag & 0x02, 0);
    mmu.write(0xFF45, 5);
    ppu.handle_stat(&mut mmu);
    assert_eq!(mmu.io.if_flag & 0x02, 0);
    mmu.write(0xFF45, 0);
    ppu.handle_stat(&mut mmu);
    assert_eq!(mmu.io.if_flag & 0x02, 0x02);
}

#[test]
fn rtc_round_trip() {
    let mut rtc = Rtc::new();
    rtc.s = 59;
    rtc.m = 7;
    rtc.h = 23;
    rtc.dl = 0x1A5;
    rtc.latched_s = 0xC1;
    rtc.latched_dh = 0x81;
    rtc.last_update = 0x0123_4567_89AB_CDEF;
    rtc.timer_halt = true;
    rtc.day_carry = true;
    let data = rtc.serialize();
    assert_eq!(data.len(), 21);
    assert_eq!(&data[10..18], &[0xEF, 0xCD, 0xAB, 0x89, 0x67, 0x45, 0x23, 0x01]);
    let back = Rtc::deserialize(&data);
    assert_eq!(back.s, 59);
    assert_eq!(back.m, 7);
    assert_eq!(back.h, 23);
    assert_eq!(back.dl, 0x1A5);
    assert_eq!(back.latched_s, 0xC1);
    assert_eq!(back.latched_dh, 0x81);
    assert_eq!(back.last_update, 0x0123_4567_89AB_CDEF);
    assert!(back.timer_halt && back.day_carry && !back.latch_state);
}

#[test]
fn battery_ram_dump_reload() {
    // MBC1+RAM+BATTERY with one 8 KiB bank
    let image = rom(&[], 0x03, 0, 0x02);
    let mut cart = Cart::new(image.clone(), None, None).unwrap();
    cart.write(0x0000, 0x0A);
    cart.write(0xA000, 0x11);
    cart.write(0xBFFF, 0x22);
    let dump = cart.dump_ram().unwrap();
    assert_eq!(dump.len(), 8192);
    let mut again = Cart::new(image, Some(dump.clone()), None).unwrap();
    assert_eq!(again.dump_ram().unwrap(), dump);
    again.write(0x0000, 0x0A);
    assert_eq!(again.read(0xA000), 0x11);
    assert_eq!(again.read(0xBFFF), 0x22);
}

#[test]
fn interrupt_service() {
    let (mut cpu, mut mmu) = machine(&[0x00]);
    cpu.ime = Ime::Enabled;
    cpu.reg.sp = 0xD000;
    mmu.ie_flag = 0x05;
    mmu.io.if_flag = 0xE4; // timer requested
    let r = cpu.tick(&mut mmu);
    // 20 for the service plus the NOP at 0x50
    assert_eq!(r, 24);
    assert_eq!(cpu.reg.pc, 0x51);
    assert_eq!(cpu.ime, Ime::Disabled);
    assert_eq!(mmu.io.if_flag, 0xE0);
    assert_eq!(mmu.read(0xCFFF), 0x01);
    assert_eq!(mmu.read(0xCFFE), 0x00);
}

#[test]
fn halt_wakes_on_request() {
    let (mut cpu, mut mmu) = machine(&[0x76, 0x00]);
    mmu.ie_flag = 0x01;
    mmu.io.if_flag = 0;
    cpu.tick(&mut mmu);
    assert!(cpu.halted);
    assert_eq!(cpu.tick(&mut mmu), 8);
    assert!(cpu.halted);
    mmu.io.if_flag = 0x01;
    assert_eq!(cpu.tick(&mut mmu), 8);
    assert!(!cpu.halted);
    assert_eq!(cpu.reg.pc, 0x0101);
}

#[test]
fn ei_takes_effect_after_next_tick() {
    let (mut cpu, mut mmu) = machine(&[0xFB, 0x00, 0x00]);
    cpu.tick(&mut mmu);
    assert_eq!(cpu.ime, Ime::Pending);
    cpu.tick(&mut mmu);
    assert_eq!(cpu.ime, Ime::Enabled);
    // DI disables at once
    let (mut cpu, mut mmu) = machine(&[0xF3]);
    cpu.ime = Ime::Enabled;
    cpu.tick(&mut mmu);
    assert_eq!(cpu.ime, Ime::Disabled);
}
