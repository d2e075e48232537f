use gbcore::cpu::Cpu;
use gbcore::header::CartError;
use gbcore::mmu::Mmu;
use gbcore::ppu::LcdBuffer;
use gbcore::ppu::Ppu;
use gbcore::Device;

fn rom_with(program: &[u8], cart_type: u8, rom_size: u8, ram_size: u8) -> Vec<u8> {
    let len: usize = 0x8000usize << rom_size;
    let mut rom = vec![0u8; len];
    for (i, b) in program.iter().enumerate() {
        rom[0x100 + i] = *b;
    }
    rom[0x147] = cart_type;
    rom[0x148] = rom_size;
    rom[0x149] = ram_size;
    rom
}

fn machine(program: &[u8]) -> (Cpu, Mmu) {
    let mmu = Mmu::new(rom_with(program, 0, 0, 0), None, None).unwrap();
    (Cpu::new(), mmu)
}

#[test]
fn cpu_smoke() {
    let (mut cpu, mut mmu) = machine(&[0x3E, 0x42, 0x06, 0x01, 0x80, 0x76]);
    for _ in 0..3 {
        cpu.tick(&mut mmu);
    }
    assert_eq!(cpu.reg.a, 0x43);
    assert_eq!(cpu.reg.b, 0x01);
    assert!(!cpu.reg.fz && !cpu.reg.fn_ && !cpu.reg.fh && !cpu.reg.fc);
    assert!(!cpu.halted);
    cpu.tick(&mut mmu);
    assert!(cpu.halted);
}

#[test]
fn half_carry_add() {
    let (mut cpu, mut mmu) = machine(&[0xC6, 0x01]);
    cpu.reg.a = 0x0F;
    let cycles = cpu.tick(&mut mmu);
    assert_eq!(cycles, 8);
    assert_eq!(cpu.reg.a, 0x10);
    assert!(!cpu.reg.fz && !cpu.reg.fn_ && cpu.reg.fh && !cpu.reg.fc);
}

#[test]
fn signed_offset_ld_hl_sp() {
    let (mut cpu, mut mmu) = machine(&[0xF8, 0xFE]);
    cpu.reg.sp = 0xFFF8;
    let cycles = cpu.tick(&mut mmu);
    assert_eq!(cycles, 12);
    assert_eq!(cpu.reg.h, 0xFF);
    assert_eq!(cpu.reg.l, 0xF6);
    assert!(!cpu.reg.fz && !cpu.reg.fn_);
    // low byte 0xF8 + 0xFE: carry out of bit 3 and of bit 7
    assert!(cpu.reg.fh && cpu.reg.fc);
    assert_eq!(cpu.reg.sp, 0xFFF8);
}

#[test]
fn mbc1_bank_switch() {
    let mut rom = rom_with(&[], 0x01, 1, 0);
    rom[0x4000] = 0xA1;
    rom[0x8000] = 0xA2;
    let mut mmu = Mmu::new(rom, None, None).unwrap();
    mmu.write(0x0000, 0x0A);
    mmu.write(0x2000, 0x01);
    assert_eq!(mmu.read(0x4000), 0xA1);
    mmu.write(0x2000, 0x02);
    assert_eq!(mmu.read(0x4000), 0xA2);
    // bank 0 written as a bank number selects bank 1
    mmu.write(0x2000, 0x00);
    assert_eq!(mmu.read(0x4000), 0xA1);
}

#[test]
fn timer_overflow() {
    let mut dev = Device::new(rom_with(&[], 0, 0, 0), None, None).unwrap();
    dev.mmu.write(0xFF04, 0x00);
    dev.mmu.write(0xFF07, 0x05);
    dev.mmu.write(0xFF05, 0xFF);
    dev.mmu.write(0xFF06, 0x37);
    dev.update_timers(16);
    assert_eq!(dev.mmu.read(0xFF05), 0x37);
    assert_eq!(dev.mmu.read(0xFF0F) & 0x04, 0);
    dev.update_timers(4);
    assert_eq!(dev.mmu.read(0xFF0F) & 0x04, 0x04);
}

#[test]
fn ppu_line_white_frame() {
    let mut mmu = Mmu::new(rom_with(&[], 0, 0, 0), None, None).unwrap();
    let mut ppu = Ppu::new();
    let mut buffer = LcdBuffer { buffer: vec![0x123456; 160 * 144], cleared: false };
    mmu.write(0xFF40, 0x91);
    mmu.write(0xFF42, 0);
    mmu.write(0xFF43, 0);
    mmu.write(0xFF0F, 0);
    let mut vblanks = 0;
    let mut ly_back_to_zero = false;
    let mut seen_vblank_lines = false;
    let mut elapsed: u32 = 0;
    while elapsed < 70224 {
        ppu.tick(&mut mmu, &mut buffer, 4);
        elapsed += 4;
        if mmu.io.if_flag & 0x01 != 0 {
            vblanks += 1;
            mmu.io.if_flag &= !0x01;
        }
        let ly = mmu.read(0xFF44);
        if ly >= 144 {
            seen_vblank_lines = true;
        }
        if seen_vblank_lines && ly == 0 {
            ly_back_to_zero = true;
        }
    }
    assert_eq!(vblanks, 1);
    assert!(ly_back_to_zero);
    assert!(buffer.buffer[..160].iter().all(|p| *p == 0xFFFFFF));
}

#[test]
fn device_frame_runs_on_nops() {
    let mut dev = Device::new(rom_with(&[], 0, 0, 0), None, None).unwrap();
    let mut buffer = LcdBuffer { buffer: vec![0; 160 * 144], cleared: false };
    dev.mmu.write(0xFF0F, 0);
    dev.frame(&mut buffer, gbcore::joypad::JoypadState {
        up: false,
        down: false,
        left: false,
        right: false,
        a: false,
        b: false,
        start: false,
        select: false,
    });
    assert!(buffer.buffer[..160].iter().all(|p| *p == 0xFFFFFF));
    assert_eq!(dev.mmu.read(0xFF0F) & 0x01, 0x01);
    assert!(dev.cpu.cycles >= 70224);
}

#[test]
fn cart_errors() {
    assert_eq!(Device::new(vec![0u8; 0x100], None, None).err(), Some(CartError::RomTooShort));
    let mut bad_size = rom_with(&[], 0, 0, 0);
    bad_size[0x148] = 9;
    // a 16 MiB ROM declared, 32 KiB given
    assert_eq!(Mmu::new(bad_size, None, None).err(), Some(CartError::RomTooShort));
    let bad_type = rom_with(&[], 0x04, 0, 0);
    assert_eq!(Mmu::new(bad_type, None, None).err(), Some(CartError::UnsupportedCartType(0x04)));
    let mut short = rom_with(&[], 0x01, 0, 0);
    short[0x148] = 1;
    assert_eq!(Mmu::new(short, None, None).err(), Some(CartError::RomTooShort));
}

#[test]
fn lcd_off_clears_and_restarts() {
    let mut mmu = Mmu::new(rom_with(&[], 0, 0, 0), None, None).unwrap();
    let mut ppu = Ppu::new();
    let mut buffer = LcdBuffer { buffer: vec![0; 160 * 144], cleared: false };
    ppu.tick(&mut mmu, &mut buffer, 200);
    mmu.write(0xFF40, 0x11);
    ppu.tick(&mut mmu, &mut buffer, 4);
    assert!(buffer.cleared);
    assert!(ppu.needs_reset);
    mmu.write(0xFF40, 0x91);
    ppu.tick(&mut mmu, &mut buffer, 1);
    assert!(!ppu.needs_reset);
    assert_eq!(mmu.read(0xFF44), 0);
    assert_eq!(mmu.read(0xFF41) & 0x03, 2);
}

#[test]
fn joypad_press_requests_interrupt() {
    let mut dev = Device::new(rom_with(&[], 0, 0, 0), None, None).unwrap();
    let mut buffer = LcdBuffer { buffer: vec![0; 160 * 144], cleared: false };
    dev.mmu.write(0xFF00, 0x20);
    dev.mmu.io.if_flag = 0;
    let keys = gbcore::joypad::JoypadState {
        up: false,
        down: true,
        left: false,
        right: false,
        a: false,
        b: false,
        start: false,
        select: false,
    };
    dev.frame(&mut buffer, keys);
    assert_eq!(dev.mmu.read(0xFF0F) & 0x10, 0x10);
    assert_eq!(dev.mmu.read(0xFF00) & 0x0F, 0x07);
}

#[test]
fn mbc1_ram_enable_and_bank_zero() {
    let mut mmu = Mmu::new(rom_with(&[], 0x03, 1, 0x03), None, None).unwrap();
    assert_eq!(mmu.read(0xA000), 0xFF);
    mmu.write(0xA000, 0x42);
    mmu.write(0x0000, 0x0A);
    assert_eq!(mmu.read(0xA000), 0x00);
    mmu.write(0xA000, 0x42);
    assert_eq!(mmu.read(0xA000), 0x42);
    mmu.write(0x0000, 0x00);
    assert_eq!(mmu.read(0xA000), 0xFF);
    mmu.write(0x2000, 0x20);
    assert_eq!(mmu.cart.mbc, gbcore::mbc::Mbc::Mbc1(false, 1, 0, false));
}

fn run_until_halt(cpu: &mut Cpu, mmu: &mut Mmu) {
    let mut steps = 0;
    while !cpu.halted && steps < 1000 {
        cpu.tick(mmu);
        steps += 1;
    }
    assert!(cpu.halted);
}

#[test]
fn load_store_and_alu_program() {
    let program: Vec<u8> = vec![
        0x31, 0x00, 0xD0, // LD SP,0xD000
        0x21, 0x00, 0xC0, // LD HL,0xC000
        0x3E, 0x12, // LD A,0x12
        0x22, // LD (HL+),A
        0x3E, 0x34, // LD A,0x34
        0x32, // LD (HL-),A
        0x2A, // LD A,(HL+)
        0x47, // LD B,A
        0x3A, // LD A,(HL-)
        0x4F, // LD C,A
        0x03, // INC BC
        0x0B, // DEC BC
        0x09, // ADD HL,BC
        0xE5, // PUSH HL
        0xD1, // POP DE
        0x08, 0x10, 0xC0, // LD (0xC010),SP
        0xFA, 0x11, 0xC0, // LD A,(0xC011)
        0xE0, 0x80, // LDH (0x80),A
        0x0E, 0x80, // LD C,0x80
        0xF2, // LD A,(C)
        0x3C, // INC A
        0xEA, 0x20, 0xC0, // LD (0xC020),A
        0xE8, 0xFE, // ADD SP,-2
        0xF9, // LD SP,HL
        0x3E, 0x15, // LD A,0x15
        0xC6, 0x27, // ADD A,0x27
        0x27, // DAA
        0xCB, 0x37, // SWAP A
        0xCB, 0x7F, // BIT 7,A
        0xCB, 0xFF, // SET 7,A
        0xCB, 0xBF, // RES 7,A
        0x2F, // CPL
        0x37, // SCF
        0x3F, // CCF
        0x76, // HALT
    ];
    let (mut cpu, mut mmu) = machine(&program);
    run_until_halt(&mut cpu, &mut mmu);
    assert_eq!(mmu.read(0xC000), 0x12);
    assert_eq!(mmu.read(0xC001), 0x34);
    assert_eq!(mmu.read(0xC010), 0x00);
    assert_eq!(mmu.read(0xC011), 0xD0);
    assert_eq!(mmu.read(0xFF80), 0xD0);
    assert_eq!(mmu.read(0xC020), 0xD1);
    assert_eq!((cpu.reg.b, cpu.reg.c), (0x12, 0x80));
    assert_eq!((cpu.reg.d, cpu.reg.e), (0xD2, 0x34));
    assert_eq!((cpu.reg.h, cpu.reg.l), (0xD2, 0x34));
    assert_eq!(cpu.reg.sp, 0xD234);
    assert_eq!(cpu.reg.a, 0xDB);
    assert_eq!(cpu.reg.get8(&gbcore::registers::Register8::F), 0x80);
}

#[test]
fn control_flow_program() {
    let mut image = rom_with(&[], 0, 0, 0);
    let code: [(usize, &[u8]); 5] = [
        (0x100, &[0xCD, 0x10, 0x01, 0x06, 0x77, 0x21, 0x20, 0x01, 0xE9]),
        (0x110, &[0x0E, 0x55, 0xC9]),
        (0x120, &[0x18, 0x02, 0x16, 0x99, 0x1E, 0x44, 0xFF, 0x76]),
        (0x38, &[0xD9]),
        (0x00, &[0x76]),
    ];
    for (at, bytes) in code.iter() {
        image[*at..*at + bytes.len()].copy_from_slice(bytes);
    }
    let mut mmu = Mmu::new(image, None, None).unwrap();
    let mut cpu = Cpu::new();
    run_until_halt(&mut cpu, &mut mmu);
    assert_eq!(cpu.reg.pc, 0x0128);
    assert_eq!((cpu.reg.b, cpu.reg.c, cpu.reg.d, cpu.reg.e), (0x77, 0x55, 0x00, 0x44));
    assert_eq!(cpu.reg.sp, 0xFFFE);
    assert_eq!(cpu.ime, gbcore::cpu::Ime::Enabled);
}
