//! System-wide properties, stated and proved over the transition functions
//! the components' contracts are written in.

use vstd::prelude::*;
use crate::apu::{
    apu_after_write_4015, apu_after_write_4017, apu_core, apu_frame_step, apu_half_frame,
    apu_quarter_frame, apu_status_byte, ApuCore, FrameCounterMode,
};
use crate::bus::{bus_matches_state, Bus, BusState};
use crate::cpu::indirect_jmp_target;
use crate::cpu::indirect_second_read;
use crate::ppu::{addr_after_update, AddrRegister, NesPPU, ScrollRegister, StatusRegister};
use crate::apu::{sweep_mutes, sweep_period_after_clock, sweep_target, noise_feedback, Sweep};

verus! {

/// The indirect-JMP page-crossing bug: a pointer whose low byte is $FF
/// takes its high byte from the start of the same page, never from the
/// next one.
pub proof fn lemma_indirect_jmp_page_bug(b: Bus, ptr: u16)
    requires
        ptr & 0x00FF == 0x00FF,
    ensures
        indirect_second_read(ptr) == (ptr & 0xFF00),
        indirect_jmp_target(b, ptr) == crate::bus::bus_readonly_byte(b, ptr)
            + crate::bus::bus_readonly_byte(b, (ptr & 0xFF00) as u16) * 0x100,
{
}

/// Reading PPUSTATUS never creates an NMI: the state it leaves behind has
/// VBlank clear, carries the pending-NMI latch through unchanged, and a
/// second read returns a byte with bit 7 clear.
pub proof fn lemma_status_read_no_second_nmi(p: NesPPU)
    ensures
        ({
            let q = NesPPU {
                status: StatusRegister { bits: p.status.bits & 0x7F },
                addr: AddrRegister { write_latch: false, ..p.addr },
                scroll: ScrollRegister { write_latch: false, ..p.scroll },
                ..p
            };
            &&& q.nmi_interrupt == p.nmi_interrupt
            &&& q.status.bits & 0x80 == 0
            &&& (NesPPU {
                status: StatusRegister { bits: q.status.bits & 0x7F },
                addr: AddrRegister { write_latch: false, ..q.addr },
                scroll: ScrollRegister { write_latch: false, ..q.scroll },
                ..q
            }) == q
        }),
{
    let bits = p.status.bits;
    assert(bits & 0x7F & 0x80 == 0 && bits & 0x7F & 0x7F == bits & 0x7F) by (bit_vector);
}

/// Reading PPUSTATUS resets the address latch, so the next PPUADDR write
/// is taken as the high byte.
pub proof fn lemma_status_read_resets_addr_latch(value: u16, data: u8)
    ensures
        addr_after_update(value, false, data) == ((value & 0x00FF) | ((data as u16) << 8u16))
            % 0x4000,
{
}

/// Two consecutive PPUMASK writes of the same value are one write: the
/// second changes nothing.
pub proof fn lemma_mask_write_idempotent(p: NesPPU, value: u8)
    ensures
        (NesPPU {
            mask: crate::ppu::MaskRegister { bits: value },
            ..(NesPPU { mask: crate::ppu::MaskRegister { bits: value }, ..p })
        }) == (NesPPU { mask: crate::ppu::MaskRegister { bits: value }, ..p }),
{
}

/// A sweep whose target overshoots the 11-bit range mutes the channel and
/// leaves the period untouched.
pub proof fn lemma_sweep_overshoot_mutes(s: Sweep, period: u16, channel_num: u8)
    requires
        sweep_target(s, period, channel_num) > 0x7FF,
    ensures
        sweep_mutes(s, period, channel_num),
        sweep_period_after_clock(s, period, channel_num) == period,
{
}

/// In mode 1 the noise feedback XORs bit 0 with bit 6 of the shift
/// register; in mode 0, with bit 1.
pub proof fn lemma_noise_feedback_taps(sr: u16)
    ensures
        noise_feedback(sr, true) == (sr & 1) ^ ((sr >> 6u16) & 1),
        noise_feedback(sr, false) == (sr & 1) ^ ((sr >> 1u16) & 1),
{
}

/// Toggling a channel enable through $4015 zeroes its length counter
/// exactly when the bit is cleared; an enabled channel keeps its length,
/// and the status read reports bit 0 live exactly when the length is
/// nonzero.
pub proof fn lemma_enable_toggle_zeroes_length(c: ApuCore, data: u8)
    ensures
        data & 0x01 == 0 ==> apu_after_write_4015(c, data).pulse1.length_counter == 0,
        data & 0x01 != 0 ==> apu_after_write_4015(c, data).pulse1.length_counter
            == c.pulse1.length_counter,
        data & 0x02 == 0 ==> apu_after_write_4015(c, data).pulse2.length_counter == 0,
        data & 0x04 == 0 ==> apu_after_write_4015(c, data).triangle.length_counter == 0,
        data & 0x08 == 0 ==> apu_after_write_4015(c, data).noise.length_counter == 0,
        apu_status_byte(apu_after_write_4015(c, data)) & 0x01 == (
        if apu_after_write_4015(c, data).pulse1.length_counter > 0 {
            1u8
        } else {
            0u8
        }),
{
    let a = apu_after_write_4015(c, data);
    let p1: u8 = if a.pulse1.length_counter > 0 { 0x01 } else { 0 };
    let p2: u8 = if a.pulse2.length_counter > 0 { 0x02 } else { 0 };
    let t: u8 = if a.triangle.length_counter > 0 { 0x04 } else { 0 };
    let n: u8 = if a.noise.length_counter > 0 { 0x08 } else { 0 };
    let d: u8 = if a.dmc_enabled { 0x10 } else { 0 };
    let f: u8 = if a.frame_interrupt { 0x40 } else { 0 };
    let total: u8 = (p1 + p2 + t + n + d + f) as u8;
    assert(apu_status_byte(a) == total);
    assert(total & 0x01 == (if p1 == 0x01 { 1u8 } else { 0u8 })) by (bit_vector)
        requires
            total == (p1 + p2 + t + n + d + f) as u8,
            p1 == 0 || p1 == 0x01,
            p2 == 0 || p2 == 0x02,
            t == 0 || t == 0x04,
            n == 0 || n == 0x08,
            d == 0 || d == 0x10,
            f == 0 || f == 0x40,
    ;
}

/// Writing $4017 with bit 7 set enters 5-step mode, clocks a quarter and a
/// half frame at once, and the sequencer never raises a frame interrupt in
/// that mode.
pub proof fn lemma_five_step_mode(c: ApuCore, data: u8)
    requires
        data & 0x80 != 0,
    ensures
        apu_after_write_4017(c, data) == apu_half_frame(
            apu_quarter_frame(
                ApuCore {
                    frame_counter_mode: FrameCounterMode::Step5,
                    interrupt_inhibit: data & 0x40 != 0,
                    frame_interrupt: if data & 0x40 != 0 {
                        false
                    } else {
                        c.frame_interrupt
                    },
                    frame_counter_cycle: 0,
                    ..c
                },
            ),
        ),
        forall|d: ApuCore|
            d.frame_counter_mode == FrameCounterMode::Step5 ==> (#[trigger] apu_frame_step(
                d,
            )).frame_interrupt == d.frame_interrupt,
{
    reveal(apu_frame_step);
    reveal(apu_quarter_frame);
    reveal(apu_half_frame);
}

/// Loading the snapshot a save produced restores the machine exactly: any
/// two buses matching the same snapshot agree on every piece of mutable
/// machine state, so execution from the restored state reproduces the
/// original run.
#[verifier::rlimit(100)]
#[verifier::spinoff_prover]
pub proof fn lemma_save_state_determines_machine(b1: Bus, b2: Bus, s: BusState)
    requires
        bus_matches_state(b1, s),
        bus_matches_state(b2, s),
    ensures
        b1.cpu_vram@ == b2.cpu_vram@,
        b1.ppu.vram@ == b2.ppu.vram@,
        b1.ppu.oam_data@ == b2.ppu.oam_data@,
        b1.ppu.palette_table@ == b2.ppu.palette_table@,
        b1.ppu.ctrl == b2.ppu.ctrl && b1.ppu.mask == b2.ppu.mask && b1.ppu.status == b2.ppu.status,
        b1.ppu.scroll == b2.ppu.scroll && b1.ppu.addr == b2.ppu.addr,
        b1.ppu.internal_data_buf == b2.ppu.internal_data_buf,
        b1.ppu.scanline == b2.ppu.scanline && b1.ppu.cycles == b2.ppu.cycles,
        b1.ppu.nmi_interrupt == b2.ppu.nmi_interrupt,
        b1.cycles == b2.cycles,
        b1.nmi_interrupt == b2.nmi_interrupt && b1.irq_interrupt == b2.irq_interrupt,
        b1.joypad1 == b2.joypad1 && b1.joypad2 == b2.joypad2,
        b1.game_genie_codes@ == b2.game_genie_codes@,
{
}

} // verus!
