use gbcore::alu;
use gbcore::cart::Cart;
use gbcore::fifo::MergePixelFifo;
use gbcore::fifo::Palette;
use gbcore::fifo::Pixel;
use gbcore::fifo::StandardPixelFifo;
use gbcore::header::Header;
use gbcore::io::Io;
use gbcore::joypad::Joypad;
use gbcore::joypad::JoypadState;
use gbcore::lcd::Lcd;
use gbcore::mbc::Mbc;
use gbcore::mbc::ReadResult;
use gbcore::mbc::WriteResult;
use gbcore::memory::GenericAddressable;
use gbcore::oam::Oam;
use gbcore::registers::Flag;
use gbcore::registers::Register16;
use gbcore::registers::Register8;
use gbcore::registers::Registers;
use gbcore::rtc::Rtc;

fn rom(cart_type: u8, rom_size: u8, ram_size: u8) -> Vec<u8> {
    let mut rom = vec![0u8; 0x8000usize << rom_size];
    rom[0x147] = cart_type;
    rom[0x148] = rom_size;
    rom[0x149] = ram_size;
    rom
}

fn px(color: u8) -> Pixel {
    Pixel { color, palette: Palette::OBP0, priority: false, bg_priority: false }
}

#[test]
fn alu_add_adc_flags() {
    let r = alu::add8(0xFF, 0x01, false);
    assert_eq!((r.value, r.z, r.n, r.h, r.c), (0x00, true, false, true, true));
    // ADC: half carry from the full sum a + b + carry
    let r = alu::add8(0x0E, 0x01, true);
    assert_eq!((r.value, r.h, r.c), (0x10, true, false));
    let r = alu::add8(0xF0, 0x0F, true);
    assert_eq!((r.value, r.z, r.h, r.c), (0x00, true, true, true));
}

#[test]
fn alu_sub_sbc_flags() {
    let r = alu::sub8(0x10, 0x01, false);
    assert_eq!((r.value, r.n, r.h, r.c), (0x0F, true, true, false));
    let r = alu::sub8(0x00, 0x00, true);
    assert_eq!((r.value, r.z, r.h, r.c), (0xFF, false, true, true));
    let r = alu::sub8(0x3B, 0x3B, false);
    assert_eq!((r.value, r.z, r.h, r.c), (0x00, true, false, false));
}

#[test]
fn alu_logic_inc_dec() {
    let r = alu::and8(0xF0, 0x0F);
    assert_eq!((r.value, r.z, r.h, r.c), (0, true, true, false));
    let r = alu::or8(0xF0, 0x0F);
    assert_eq!((r.value, r.z, r.h), (0xFF, false, false));
    let r = alu::xor8(0xAA, 0xAA);
    assert_eq!((r.value, r.z), (0, true));
    let r = alu::inc8(0x0F, true);
    assert_eq!((r.value, r.h, r.c, r.n), (0x10, true, true, false));
    let r = alu::dec8(0x10, false);
    assert_eq!((r.value, r.h, r.c, r.n), (0x0F, true, false, true));
    let r = alu::dec8(0x01, true);
    assert_eq!((r.value, r.z, r.c), (0x00, true, true));
}

#[test]
fn alu_rotates_and_shifts() {
    assert_eq!(alu::rlc8(0x85).value, 0x0B);
    assert!(alu::rlc8(0x85).c);
    assert_eq!(alu::rrc8(0x01).value, 0x80);
    assert_eq!(alu::rl8(0x80, false).value, 0x00);
    assert!(alu::rl8(0x80, false).z && alu::rl8(0x80, false).c);
    assert_eq!(alu::rr8(0x01, true).value, 0x80);
    assert_eq!(alu::sla8(0xC0).value, 0x80);
    assert_eq!(alu::sra8(0x81).value, 0xC0);
    assert_eq!(alu::srl8(0x81).value, 0x40);
    assert_eq!(alu::swap8(0xAB).value, 0xBA);
    assert!(alu::swap8(0x00).z && !alu::swap8(0x00).c);
    assert!(alu::bit8(7, 0x7F, true).z);
    assert!(!alu::bit8(0, 0x01, false).z);
    assert_eq!(alu::setb8(3, 0x00), 0x08);
    assert_eq!(alu::resetb8(7, 0xFF), 0x7F);
}

#[test]
fn alu_daa() {
    // 0x45 + 0x38 = 0x7D -> 0x83
    let s = alu::add8(0x45, 0x38, false);
    let r = alu::daa8(s.value, s.n, s.h, s.c);
    assert_eq!((r.value, r.c), (0x83, false));
    // 0x99 + 0x01 = 0x9A -> 0x00 with carry
    let s = alu::add8(0x99, 0x01, false);
    let r = alu::daa8(s.value, s.n, s.h, s.c);
    assert_eq!((r.value, r.z, r.c), (0x00, true, true));
    // 0x42 - 0x09 = 0x39 (H set) -> 0x33
    let s = alu::sub8(0x42, 0x09, false);
    let r = alu::daa8(s.value, s.n, s.h, s.c);
    assert_eq!((r.value, r.n), (0x33, true));
}

#[test]
fn alu_16_bit() {
    let r = alu::add16(0x0FFF, 0x0001, true);
    assert_eq!((r.value, r.z, r.h, r.c), (0x1000, true, true, false));
    let r = alu::add16(0xFFFF, 0x0001, false);
    assert_eq!((r.value, r.c), (0x0000, true));
    let r = alu::add_sp8(0x0005, 0xFB);
    assert_eq!((r.value, r.h, r.c), (0x0000, true, true));
    let r = alu::add_sp8(0xFFFE, 0x02);
    assert_eq!(r.value, 0x0000);
}

#[test]
fn registers_pairs_and_flags() {
    let mut r = Registers::new();
    assert_eq!(r.get16(&Register16::AF), 0x01B0);
    r.set16(&Register16::HL, 0x1234);
    assert_eq!(r.get8(&Register8::H), 0x12);
    assert_eq!(r.get8(&Register8::L), 0x34);
    r.set8(&Register8::F, 0xFF);
    assert_eq!(r.get8(&Register8::F), 0xF0);
    r.unsetf(&Flag::Z);
    assert_eq!(r.getf(&Flag::Z), 0);
    assert_eq!(r.getf(&Flag::NZ), 1);
    r.setf(&Flag::NC);
    assert_eq!(r.getf(&Flag::C), 0);
}

#[test]
fn generic_block() {
    assert!(GenericAddressable::new(0x10, 0x0F).is_err());
    let mut m = GenericAddressable::new(0xC000, 0xC003).unwrap();
    assert_eq!(m.memory.len(), 4);
    m.write(0xC003, 7);
    assert_eq!(m.read(0xC003), 7);
}

#[test]
fn header_fields() {
    let mut image = rom(0x13, 2, 0x03);
    image[0x134..0x138].copy_from_slice(b"TEST");
    image[0x138] = 0xC3;
    let h = Header::new(&image).unwrap();
    assert_eq!(h.title, b"TEST".to_vec());
    assert_eq!(h.get_rom_banks(), 8);
    assert_eq!(h.get_rom_size_bytes(), 8 * 16384);
    assert_eq!(h.get_ram_banks(), 4);
    assert_eq!(h.get_ram_size_bytes(), 4 * 8192);
    assert!(h.has_battery() && !h.has_rtc() && !h.has_rumble());
    assert_eq!(h.get_rom_address(0x20005), 0x00005);
    assert_eq!(h.get_ram_address(0x8001), 0x0001);
    let mut big = rom(0x00, 0, 0);
    big[0x148] = 9;
    assert_eq!(Header::new(&big).unwrap().rom_size, 9);
    let mbc2 = Header::new(&rom(0x06, 0, 0)).unwrap();
    assert_eq!(mbc2.get_ram_size_bytes(), 512);
    assert_eq!(mbc2.get_ram_address(5), 0);
    assert!(Header::new(&rom(0x1E, 0, 0)).unwrap().has_rumble());
    assert!(Header::new(&rom(0x10, 0, 0)).unwrap().has_rtc());
}

#[test]
fn mbc_routing() {
    let h = Header::new(&rom(0x01, 1, 0x03)).unwrap();
    let mut m = Mbc::Mbc1(false, 1, 0, false);
    assert_eq!(m.read(&h, 0xA000), ReadResult::Mbc(0xFF));
    assert_eq!(m.write(&h, 0xA000, 1), WriteResult::NoOp);
    m.write(&h, 0x0000, 0x0A);
    m.write(&h, 0x2000, 0x23);
    assert_eq!(m.read(&h, 0x4001), ReadResult::Rom(3 * 16384 + 1));
    m.write(&h, 0x4000, 0x02);
    m.write(&h, 0x6000, 0x01);
    assert_eq!(m.read(&h, 0xA002), ReadResult::Ram(2 * 8192 + 2));
    assert_eq!(m.write(&h, 0xA002, 9), WriteResult::Ram(2 * 8192 + 2, 9));

    let h5 = Header::new(&rom(0x19, 0, 0x03)).unwrap();
    let mut m5 = Mbc::Mbc5(false, 0, 0);
    assert_eq!(m5.read(&h5, 0x4000), ReadResult::Rom(0));
    m5.write(&h5, 0x2000, 0x05);
    m5.write(&h5, 0x3000, 0x01);
    assert_eq!(m5, Mbc::Mbc5(false, 0x105, 0));
    m5.write(&h5, 0x4000, 0xFF);
    assert_eq!(m5, Mbc::Mbc5(false, 0x105, 0x0F));

    let h3 = Header::new(&rom(0x10, 0, 0x03)).unwrap();
    let mut m3 = Mbc::Mbc3(false, 1, 0);
    m3.write(&h3, 0x2000, 0x00);
    assert_eq!(m3, Mbc::Mbc3(false, 1, 0));
    m3.write(&h3, 0x4000, 0x08);
    // RTC registers answer only once enabled
    assert_eq!(m3.read(&h3, 0xA000), ReadResult::Mbc(0xFF));
    m3.write(&h3, 0x0000, 0x0A);
    assert_eq!(m3.read(&h3, 0xA000), ReadResult::Rtc(0x08));
    assert_eq!(m3.write(&h3, 0x6000, 0x01), WriteResult::Rtc(0x0D, 0x01));
}

#[test]
fn mbc1_without_ram_ignores_ram_writes() {
    let h = Header::new(&rom(0x01, 0, 0)).unwrap();
    let mut m = Mbc::Mbc1(false, 1, 0, false);
    m.write(&h, 0x0000, 0x0A);
    assert_eq!(m.write(&h, 0xA000, 5), WriteResult::NoOp);
}

#[test]
fn mbc2_ram_nibbles() {
    let mut cart = Cart::new(rom(0x06, 0, 0), None, None).unwrap();
    cart.write(0x0000, 0x0A);
    cart.write(0xA010, 0x3C);
    assert_eq!(cart.read(0xA010), 0xFC);
    assert_eq!(cart.read(0xA210), 0xFC);
    cart.write(0x0100, 0x03);
    assert_eq!(cart.mbc, Mbc::Mbc2(true, 3));
    cart.write(0x0000, 0x00);
    assert_eq!(cart.read(0xA010), 0xFF);
}

#[test]
fn ram_save_is_fitted() {
    let short = Cart::new(rom(0x03, 0, 0x02), Some(vec![7u8; 10]), None).unwrap();
    let dump = short.dump_ram().unwrap();
    assert_eq!(dump.len(), 8192);
    assert_eq!(&dump[..10], &[7u8; 10]);
    assert!(dump[10..].iter().all(|b| *b == 0));
    let long = Cart::new(rom(0x03, 0, 0x02), Some(vec![9u8; 9000]), None).unwrap();
    assert_eq!(long.dump_ram().unwrap(), vec![9u8; 8192]);
    // no battery: no dump
    let plain = Cart::new(rom(0x02, 0, 0x02), None, None).unwrap();
    assert!(plain.dump_ram().is_none());
    assert!(plain.dump_rtc().is_none());
}

#[test]
fn rtc_clock_and_latch() {
    let mut cart = Cart::new(rom(0x10, 0, 0x03), None, None).unwrap();
    cart.update_rtc_now(0);
    cart.write(0x0000, 0x0A);
    cart.update_rtc_now(3 * 86400 + 2 * 3600 + 5 * 60 + 7);
    cart.write(0x6000, 0x00);
    cart.write(0x6000, 0x01);
    cart.write(0x4000, 0x08);
    assert_eq!(cart.read(0xA000), 0xC0 | 7);
    cart.write(0x4000, 0x09);
    assert_eq!(cart.read(0xA000), 0xC0 | 5);
    cart.write(0x4000, 0x0A);
    assert_eq!(cart.read(0xA000), 0xE0 | 2);
    cart.write(0x4000, 0x0B);
    assert_eq!(cart.read(0xA000), 3);
    let save = cart.dump_rtc().unwrap();
    let rtc = Rtc::deserialize(&save);
    assert_eq!((rtc.s, rtc.m, rtc.h, rtc.dl), (7, 5, 2, 3));
}

#[test]
fn rtc_day_overflow_and_bad_save() {
    let mut rtc = Rtc::new();
    rtc.dl = 0x1FF;
    rtc.update_now(86400);
    rtc.update_timer();
    assert_eq!(rtc.dl, 0);
    assert!(rtc.day_carry);
    assert_eq!(rtc.last_update, 86400);
    let zero = Rtc::deserialize(&vec![1u8; 5]);
    assert_eq!(zero, Rtc::new());
    // a halted clock does not advance
    let mut halted = Rtc::new();
    halted.write(0x0C, 0x40);
    halted.update_now(1000);
    halted.update_timer();
    assert_eq!(halted.s, 0);
    assert!(halted.timer_halt);
}

#[test]
fn joypad_lines_and_interrupt() {
    let mut j = Joypad::new();
    assert_eq!(j.read(), 0xFF);
    j.write(0x20); // select directions
    let keys = JoypadState { up: false, down: true, left: false, right: false, a: true, b: false, start: false, select: false };
    j.set_state(keys);
    assert_eq!(j.read(), 0xE0 | 0x07);
    assert!(j.purge_interrupt());
    assert!(!j.purge_interrupt());
    j.write(0x10); // select actions
    assert_eq!(j.read(), 0xD0 | 0x0E);
}

#[test]
fn lcd_registers() {
    let mut lcd = Lcd::new();
    assert!(lcd.is_display_enabled() && lcd.is_bg_window_enabled());
    assert_eq!(lcd.get_tile_data(), 0x8000);
    assert_eq!(lcd.get_bg_tile_map(), 0x9800);
    assert_eq!(lcd.get_sprite_size(), 8);
    lcd.write(0xFF40, 0x6C);
    assert_eq!(lcd.get_window_tile_map(), 0x9C00);
    assert_eq!(lcd.get_bg_tile_map(), 0x9C00);
    assert_eq!(lcd.get_tile_data(), 0x9000);
    assert_eq!(lcd.get_sprite_size(), 16);
    assert!(lcd.is_window_enabled() && !lcd.is_sprite_enabled());
    lcd.write(0xFF44, 0x50);
    assert_eq!(lcd.get_ly(), 0);
    lcd.write(0xFF45, 3);
    lcd.inc_ly(3);
    assert_eq!(lcd.read(0xFF41) & 0x04, 0x04);
    lcd.set_ly(0);
    assert_eq!(lcd.read(0xFF41) & 0x04, 0);
    lcd.set_vblank_ppu_mode();
    assert_eq!(lcd.stat & 0x03, 1);
    lcd.set_draw_ppu_mode();
    assert_eq!(lcd.stat & 0x03, 3);
    lcd.write(0xFF47, 0xE4);
    assert_eq!(lcd.get_bgp_index(0), 0);
    assert_eq!(lcd.get_bgp_index(3), 3);
    lcd.write(0xFF48, 0x1B);
    assert_eq!(lcd.get_obp0_index(1), 2);
    lcd.write(0xFF49, 0xC0);
    assert_eq!(lcd.get_obp1_index(3), 3);
}

#[test]
fn serial_hook_and_flags() {
    let mut io = Io::new();
    io.write(0xFF01, b'O');
    io.write(0xFF02, 0x81);
    io.write(0xFF01, b'K');
    io.write(0xFF02, 0x81);
    assert_eq!(io.read(0xFF02), 0);
    assert_eq!(io.get_test(), b"OK".to_vec());
    assert!(io.get_test().is_empty());
    io.if_flag = 0;
    io.request_joypad_interrupt();
    io.request_serial_interrupt();
    assert!(io.get_joypad_interrupt() && io.get_serial_interrupt());
    assert!(!io.get_vblank_interrupt() && !io.get_lcd_stat_interrupt() && !io.get_timer_interrupt());
}

#[test]
fn sprite_decoding() {
    let mut oam = Oam::new();
    oam.write(0xFE04, 20);
    oam.write(0xFE05, 30);
    oam.write(0xFE06, 5);
    oam.write(0xFE07, 0xB0);
    let s = oam.get_sprite(1);
    assert_eq!((s.y_position, s.x_position, s.tile_no), (20, 30, 5));
    assert!(s.priority && !s.y_flip && s.x_flip && s.palette);
    assert_eq!(oam.fake_read(0xFE07), 0xB0);
}

#[test]
fn standard_fifo_order() {
    let mut f = StandardPixelFifo::with_capacity(8);
    for c in 0..9u8 {
        f.push(px(c % 4));
    }
    assert_eq!(f.len(), 8);
    assert_eq!(f.shift().unwrap().color, 0);
    assert_eq!(f.shift().unwrap().color, 1);
    f.push(px(3));
    assert_eq!(f.len(), 7);
    f.clear();
    assert!(f.shift().is_none());
}

#[test]
fn merge_fifo_keeps_earlier_sprite() {
    let mut f = MergePixelFifo::with_capacity(8);
    f.push(px(2));
    f.push(px(0));
    f.clear();
    f.push(px(1));
    f.push(px(3));
    assert_eq!(f.shift().unwrap().color, 2);
    assert_eq!(f.shift().unwrap().color, 3);
    assert!(f.shift().is_none());
    f.full_clear();
    assert_eq!(f.len(), 0);
}
