use jazzness::apu::{Apu, Noise, Pulse};
use jazzness::bus::Bus;
use jazzness::cartridge::Rom;
use jazzness::cpu::CPU;
use jazzness::gamegenie::parse_game_genie_code;
use jazzness::joypad::{Joypad, JoypadButton};
use jazzness::ppu::NesPPU;

/// A minimal iNES image: one 16 KiB PRG bank, one 8 KiB CHR bank,
/// horizontal mirroring, with the reset vector pointing at 0x8000.
fn test_rom(prg_patch: &[(usize, u8)]) -> Vec<u8> {
    let mut raw = vec![0x4E, 0x45, 0x53, 0x1A, 0x01, 0x01, 0x00, 0x00];
    raw.resize(16, 0);
    let mut prg = vec![0u8; 16384];
    // Reset vector: 0x8000.
    prg[0x3FFC] = 0x00;
    prg[0x3FFD] = 0x80;
    for &(off, b) in prg_patch {
        prg[off] = b;
    }
    raw.extend_from_slice(&prg);
    raw.extend_from_slice(&vec![0u8; 8192]);
    raw
}

fn test_bus(prg_patch: &[(usize, u8)]) -> Bus {
    let raw = test_rom(prg_patch);
    let rom = Rom::new(&raw).expect("test image should parse");
    Bus::new(rom)
}

#[test]
fn rom_rejects_bad_magic() {
    let mut raw = test_rom(&[]);
    raw[0] = 0x4D;
    assert!(Rom::new(&raw).is_err());
}

#[test]
fn rom_rejects_nes2() {
    let mut raw = test_rom(&[]);
    raw[7] = 0x08;
    assert!(Rom::new(&raw).is_err());
}

#[test]
fn rom_rejects_short_file() {
    let raw = vec![0x4E, 0x45, 0x53, 0x1A];
    assert!(Rom::new(&raw).is_err());
}

#[test]
fn sixteen_k_prg_is_mirrored() {
    let mut bus = test_bus(&[(0x0123, 0xAB)]);
    assert_eq!(bus.mem_read(0x8123), 0xAB);
    assert_eq!(bus.mem_read(0xC123), 0xAB);
}

#[test]
fn game_genie_six_letter_code() {
    let gg = parse_game_genie_code("AAAAAA").expect("valid code");
    assert_eq!(gg.address, 0x8000);
    assert_eq!(gg.new_data, 0x00);
    assert_eq!(gg.compare_data, None);
}

#[test]
fn game_genie_rejects_bad_letters() {
    assert!(parse_game_genie_code("AAAAAB").is_err());
    assert!(parse_game_genie_code("AAA").is_err());
    assert!(parse_game_genie_code("AAAAAAA").is_err());
}

#[test]
fn game_genie_eight_letter_code_has_compare() {
    let gg = parse_game_genie_code("NNNNNNNN").expect("valid code");
    assert!(gg.compare_data.is_some());
}

#[test]
fn game_genie_patch_applies_on_prg_read() {
    // Patch 0x8000 unconditionally with 0x00 (code AAAAAA), original 0x55.
    let mut bus = test_bus(&[(0x0000, 0x55)]);
    let gg = parse_game_genie_code("AAAAAA").unwrap();
    bus.set_game_genie_codes(vec![gg]);
    assert_eq!(bus.mem_read(0x8000), 0x00);
}

#[test]
fn joypad_shift_register() {
    let mut pad = Joypad::new();
    pad.set_button_pressed_status(JoypadButton::BUTTON_A, true);
    pad.write(1);
    pad.write(0);
    assert_eq!(pad.read(), 0x41); // A pressed
    for _ in 0..7 {
        assert_eq!(pad.read(), 0x40); // the rest released
    }
    assert_eq!(pad.read(), 0x41); // past the eighth bit
}

#[test]
fn status_read_resets_address_latch() {
    // Half-written PPUADDR, then a $2002 read: the next byte is high again.
    let mut ppu = NesPPU::new(vec![0u8; 8192], jazzness::cartridge::Mirroring::HORIZONTAL);
    ppu.write_to_ppu_addr(0x3F);
    let _ = ppu.read_status();
    ppu.write_to_ppu_addr(0x20);
    ppu.write_to_ppu_addr(0x00);
    assert_eq!(ppu.addr.value, 0x2000);
}

#[test]
fn ppudata_read_is_buffered() {
    let mut bus = test_bus(&[]);
    bus.mem_write(0x2006, 0x20);
    bus.mem_write(0x2006, 0x00);
    bus.mem_write(0x2007, 0x41);
    let _ = bus.mem_read(0x2002);
    bus.mem_write(0x2006, 0x20);
    bus.mem_write(0x2006, 0x00);
    let first = bus.mem_read(0x2007);
    let second = bus.mem_read(0x2007);
    assert_eq!(first, 0x00); // stale internal buffer
    assert_eq!(second, 0x41); // the byte written at $2000
}

#[test]
fn repeated_status_reads_raise_no_second_nmi() {
    let mut ppu = NesPPU::new(vec![0u8; 8192], jazzness::cartridge::Mirroring::HORIZONTAL);
    ppu.status.bits = 0x80;
    let first = ppu.read_status();
    assert_eq!(first & 0x80, 0x80);
    let second = ppu.read_status();
    assert_eq!(second & 0x80, 0);
    assert_eq!(ppu.nmi_interrupt, None);
}

#[test]
fn nmi_raised_when_ctrl_enables_during_vblank() {
    let mut ppu = NesPPU::new(vec![0u8; 8192], jazzness::cartridge::Mirroring::HORIZONTAL);
    ppu.status.bits = 0x80; // VBlank set, GENERATE_NMI off
    ppu.write_to_ctrl(0x80);
    assert_eq!(ppu.nmi_interrupt, Some(1));
}

#[test]
fn mask_writes_are_idempotent() {
    let mut a = NesPPU::new(vec![0u8; 8192], jazzness::cartridge::Mirroring::HORIZONTAL);
    let mut b = NesPPU::new(vec![0u8; 8192], jazzness::cartridge::Mirroring::HORIZONTAL);
    a.write_to_mask(0x1E);
    b.write_to_mask(0x1E);
    b.write_to_mask(0x1E);
    assert_eq!(a.mask.bits, b.mask.bits);
}

#[test]
fn sprite_zero_at_238_hits_at_239_does_not() {
    let mut ppu = NesPPU::new(vec![0u8; 8192], jazzness::cartridge::Mirroring::HORIZONTAL);
    ppu.mask.bits = 0x18;
    ppu.oam_data[0] = 238;
    ppu.oam_data[3] = 10;
    ppu.scanline = 238;
    ppu.cycles = 0;
    ppu.tick(10);
    assert_eq!(ppu.status.bits & 0x40, 0x40);

    let mut ppu = NesPPU::new(vec![0u8; 8192], jazzness::cartridge::Mirroring::HORIZONTAL);
    ppu.mask.bits = 0x18;
    ppu.oam_data[0] = 239;
    ppu.oam_data[3] = 10;
    ppu.scanline = 239;
    ppu.cycles = 0;
    ppu.tick(10);
    assert_eq!(ppu.status.bits & 0x40, 0);
}

#[test]
fn frame_position_advances_and_wraps() {
    let mut ppu = NesPPU::new(vec![0u8; 8192], jazzness::cartridge::Mirroring::HORIZONTAL);
    assert!(!ppu.tick(100));
    assert_eq!(ppu.cycles, 100);
    assert_eq!(ppu.scanline, 0);
    assert!(!ppu.tick(341));
    assert_eq!(ppu.cycles, 100);
    assert_eq!(ppu.scanline, 1);
    // Drive to the very end of the frame and cross it.
    ppu.scanline = 261;
    ppu.cycles = 340;
    assert!(ppu.tick(1));
    assert_eq!(ppu.scanline, 0);
    assert_eq!(ppu.cycles, 0);
}

#[test]
fn oam_dma_costs_exactly_513_cycles() {
    let mut bus = test_bus(&[]);
    for i in 0..256u16 {
        bus.mem_write(0x0200 + i, i as u8);
    }
    let before = bus.cycles;
    bus.mem_write(0x4014, 0x02);
    assert_eq!(bus.cycles, before + 513);
    assert_eq!(bus.ppu.oam_data[5], 5);
}

#[test]
fn length_counter_cleared_by_disable() {
    let mut bus = test_bus(&[]);
    bus.mem_write(0x4015, 0x01);
    bus.mem_write(0x4003, 0xF8); // length index 31 -> 30
    assert_eq!(bus.mem_read(0x4015) & 0x01, 0x01);
    bus.mem_write(0x4015, 0x00);
    assert_eq!(bus.mem_read(0x4015) & 0x01, 0x00);
}

#[test]
fn five_step_mode_clocks_immediately_and_never_interrupts() {
    let mut apu = Apu::new();
    apu.mem_write(0x4015, 0x01);
    apu.mem_write(0x4003, 0xF8); // length 30, halt clear
    apu.mem_write(0x4017, 0x80); // 5-step: immediate quarter+half
    assert_eq!(apu.pulse1.length_counter, 29);
    apu.tick(40000);
    assert!(!apu.poll_frame_interrupt());
}

#[test]
fn four_step_mode_raises_frame_interrupt() {
    let mut apu = Apu::new();
    apu.mem_write(0x4017, 0x00);
    apu.tick(29790);
    assert!(apu.poll_frame_interrupt());
}

#[test]
fn noise_mode_one_taps_bit_six() {
    let mut noise = Noise::new();
    noise.shift_register = 0x40; // bit 6 set, bits 0 and 1 clear
    noise.mode = true;
    noise.timer_value = 0;
    noise.clock_timer();
    assert_eq!(noise.shift_register, 0x4020); // feedback 1 from bit 6

    let mut noise = Noise::new();
    noise.shift_register = 0x40;
    noise.mode = false;
    noise.timer_value = 0;
    noise.clock_timer();
    assert_eq!(noise.shift_register, 0x0020); // feedback 0 from bit 1
}

#[test]
fn sweep_overshoot_mutes_without_writing_period() {
    let mut pulse = Pulse::new();
    pulse.timer_period = 0x700;
    pulse.sweep.enabled = true;
    pulse.sweep.shift = 1;
    pulse.sweep.divider = 0;
    pulse.clock_sweep(1);
    assert!(pulse.sweep_muted);
    assert_eq!(pulse.timer_period, 0x700);
}

#[test]
fn indirect_jmp_page_crossing_bug() {
    // JMP ($02FF): low byte from $02FF, high byte from $0200, not $0300.
    let mut bus = test_bus(&[(0x0000, 0x6C), (0x0001, 0xFF), (0x0002, 0x02)]);
    bus.mem_write(0x02FF, 0x34);
    bus.mem_write(0x0200, 0x12);
    bus.mem_write(0x0300, 0x77);
    let mut cpu = CPU::new(bus);
    cpu.reset();
    assert_eq!(cpu.program_counter, 0x8000);
    cpu.step().expect("JMP executes");
    assert_eq!(cpu.program_counter, 0x1234);
}

#[test]
fn adc_sets_overflow_and_negative() {
    // LDA #$7F; ADC #$01 -> A=0x80, N and V set, Z and C clear.
    let bus = test_bus(&[
        (0x0000, 0xA9),
        (0x0001, 0x7F),
        (0x0002, 0x69),
        (0x0003, 0x01),
    ]);
    let mut cpu = CPU::new(bus);
    cpu.reset();
    cpu.step().unwrap();
    assert_eq!(cpu.register_a, 0x7F);
    cpu.step().unwrap();
    assert_eq!(cpu.register_a, 0x80);
    assert_eq!(cpu.status & 0x80, 0x80); // N
    assert_eq!(cpu.status & 0x40, 0x40); // V
    assert_eq!(cpu.status & 0x02, 0x00); // Z
    assert_eq!(cpu.status & 0x01, 0x00); // C
}

#[test]
fn kil_opcode_is_fatal() {
    let bus = test_bus(&[(0x0000, 0x02)]);
    let mut cpu = CPU::new(bus);
    cpu.reset();
    let err = cpu.step().unwrap_err();
    assert_eq!(
        err,
        jazzness::cpu::CpuError::Kil { pc: 0x8000, code: 0x02 }
    );
}

#[test]
fn trace_matches_log_layout() {
    let bus = test_bus(&[(0x0000, 0xA9), (0x0001, 0x10)]);
    let mut cpu = CPU::new(bus);
    cpu.reset();
    let line = cpu.trace();
    let expected = format!(
        "{:04X}  {:8} {:<32} A:{:02X} X:{:02X} Y:{:02X} P:{:02X} SP:{:02X}",
        0x8000, "A9 10", "LDA #$10", 0, 0, 0, 0x24, 0xFD
    );
    assert_eq!(line, expected);
}

#[test]
fn save_and_load_state_round_trip() {
    let mut bus = test_bus(&[]);
    bus.mem_write(0x0042, 0x99);
    bus.mem_write(0x2001, 0x1E);
    bus.mem_write(0x4015, 0x01);
    let snapshot = bus.save_state();
    bus.mem_write(0x0042, 0x00);
    bus.mem_write(0x2001, 0x00);
    bus.load_state(&snapshot);
    assert_eq!(bus.mem_read(0x0042), 0x99);
    assert_eq!(bus.ppu.mask.bits, 0x1E);
    assert_eq!(bus.apu.pulse1.enabled, true);
}

#[test]
fn nmi_serviced_at_step_boundary() {
    // NMI vector 0x9000, which holds a NOP.
    let bus = test_bus(&[(0x3FFA, 0x00), (0x3FFB, 0x90), (0x1000, 0xEA)]);
    let mut cpu = CPU::new(bus);
    cpu.reset();
    cpu.bus.nmi_interrupt = Some(1);
    cpu.step().unwrap();
    // Servicing the NMI consumed the step: control is at the vector.
    assert_eq!(cpu.program_counter, 0x9000);
    assert_eq!(cpu.status & 0x04, 0x04);
    cpu.step().unwrap();
    // The next step executes the NOP at the vector.
    assert_eq!(cpu.program_counter, 0x9001);
}

#[test]
fn render_keeps_frame_shape() {
    let mut ppu = NesPPU::new(vec![0u8; 8192], jazzness::cartridge::Mirroring::HORIZONTAL);
    ppu.mask.bits = 0x18;
    let mut frame = jazzness::frame::Frame::new();
    jazzness::render::render(&ppu, &mut frame);
    assert_eq!(frame.data.len(), 256 * 240 * 3);
}

#[test]
fn apu_emits_samples_at_the_output_rate() {
    let mut apu = Apu::new();
    apu.tick(1789773 / 100); // 10 ms of CPU time
    let samples = apu.take_samples();
    // 44.1 kHz for 10 ms is ~441 samples.
    assert!(samples.len() >= 438 && samples.len() <= 444, "{}", samples.len());
    assert!(apu.take_samples().is_empty());
}
