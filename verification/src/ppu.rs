//! The picture processor: CPU-visible registers, VRAM mirroring, the
//! scanline counter that raises VBlank and the NMI, and sprite-zero hit.

use vstd::prelude::*;
use crate::cartridge::Mirroring;
use crate::util::{copy_bytes, zero_bytes};

verus! {

/// PPUCTRL ($2000) bits.
pub struct ControlRegister {
    pub bits: u8,
}

/// PPUMASK ($2001) bits.
pub struct MaskRegister {
    pub bits: u8,
}

/// PPUSTATUS ($2002) bits: sprite overflow 0x20, sprite-zero hit 0x40,
/// VBlank 0x80.
pub struct StatusRegister {
    pub bits: u8,
}

/// Increment applied to the address register by a PPUDATA access.
pub open spec fn ctrl_vram_increment(bits: u8) -> u8 {
    if bits & 0x04 == 0 { 1u8 } else { 32u8 }
}

/// Base of the nametable selected by PPUCTRL bits 0..1.
pub open spec fn ctrl_nametable_addr(bits: u8) -> u16 {
    if bits & 0x03 == 0 { 0x2000u16 }
    else if bits & 0x03 == 1 { 0x2400u16 }
    else if bits & 0x03 == 2 { 0x2800u16 }
    else { 0x2C00u16 }
}

impl ControlRegister {
    pub fn new() -> (r: ControlRegister)
        ensures
            r.bits == 0,
    {
        ControlRegister { bits: 0 }
    }

    pub fn update(&mut self, data: u8)
        ensures
            final(self).bits == data,
    {
        self.bits = data;
    }

    pub fn vram_addr_increment(&self) -> (r: u8)
        ensures
            r == ctrl_vram_increment(self.bits),
    {
        if self.bits & 0x04 == 0 { 1 } else { 32 }
    }

    pub fn sprite_pattern_addr(&self) -> (r: u16)
        ensures
            r == if self.bits & 0x08 == 0 { 0x0000u16 } else { 0x1000u16 },
    {
        if self.bits & 0x08 == 0 { 0x0000 } else { 0x1000 }
    }

    pub fn background_pattern_addr(&self) -> (r: u16)
        ensures
            r == if self.bits & 0x10 == 0 { 0x0000u16 } else { 0x1000u16 },
    {
        if self.bits & 0x10 == 0 { 0x0000 } else { 0x1000 }
    }

    pub fn nametable_addr(&self) -> (r: u16)
        ensures
            r == ctrl_nametable_addr(self.bits),
    {
        let low = self.bits & 0x03;
        if low == 0 { 0x2000 }
        else if low == 1 { 0x2400 }
        else if low == 2 { 0x2800 }
        else { 0x2C00 }
    }

    /// Bit 7: raise an NMI when VBlank begins.
    pub fn generate_nmi(&self) -> (r: bool)
        ensures
            r == (self.bits & 0x80 != 0),
    {
        self.bits & 0x80 != 0
    }
}

impl MaskRegister {
    pub fn show_background(&self) -> (r: bool)
        ensures
            r == (self.bits & 0x08 != 0),
    {
        self.bits & 0x08 != 0
    }

    pub fn show_sprites(&self) -> (r: bool)
        ensures
            r == (self.bits & 0x10 != 0),
    {
        self.bits & 0x10 != 0
    }
}

/// PPUSCROLL ($2005): X then Y, alternated by the shared write latch.
pub struct ScrollRegister {
    pub scroll_x: u8,
    pub scroll_y: u8,
    pub write_latch: bool,
}

impl ScrollRegister {
    pub fn new() -> (r: ScrollRegister)
        ensures
            r.scroll_x == 0 && r.scroll_y == 0 && !r.write_latch,
    {
        ScrollRegister { scroll_x: 0, scroll_y: 0, write_latch: false }
    }

    /// First write sets X, second sets Y; the latch toggles each time.
    pub fn write(&mut self, data: u8)
        ensures
            final(self).scroll_x == if old(self).write_latch { old(self).scroll_x } else { data },
            final(self).scroll_y == if old(self).write_latch { data } else { old(self).scroll_y },
            final(self).write_latch == !old(self).write_latch,
    {
        if !self.write_latch {
            self.scroll_x = data;
        } else {
            self.scroll_y = data;
        }
        self.write_latch = !self.write_latch;
    }

    pub fn reset_latch(&mut self)
        ensures
            *final(self) == (ScrollRegister { write_latch: false, ..*old(self) }),
    {
        self.write_latch = false;
    }
}

/// PPUADDR ($2006): a 14-bit VRAM address built high byte first.
pub struct AddrRegister {
    pub value: u16,
    pub write_latch: bool,
}

/// The value after one PPUADDR byte write: high byte when the latch is
/// clear, low byte when set; always truncated to 14 bits.
pub open spec fn addr_after_update(value: u16, latch: bool, data: u8) -> u16 {
    if !latch {
        (((value & 0x00FF) | ((data as u16) << 8)) % 0x4000) as u16
    } else {
        (((value & 0xFF00) | (data as u16)) % 0x4000) as u16
    }
}

impl AddrRegister {
    pub fn new() -> (r: AddrRegister)
        ensures
            r.value == 0 && !r.write_latch,
    {
        AddrRegister { value: 0, write_latch: false }
    }

    fn set(&mut self, data: u16)
        ensures
            final(self).value == data % 0x4000,
            final(self).write_latch == old(self).write_latch,
    {
        self.value = data % 0x4000;
    }

    pub fn update(&mut self, data: u8)
        ensures
            final(self).value == addr_after_update(old(self).value, old(self).write_latch, data),
            final(self).write_latch == !old(self).write_latch,
            final(self).value < 0x4000,
    {
        if !self.write_latch {
            self.value = (self.value & 0x00FF) | ((data as u16) << 8u16);
        } else {
            self.value = (self.value & 0xFF00) | (data as u16);
        }
        let v = self.value;
        self.set(v);
        self.write_latch = !self.write_latch;
    }

    pub fn increment(&mut self, inc: u8)
        requires
            old(self).value < 0x4000,
        ensures
            final(self).value == (old(self).value + inc) % 0x4000,
            final(self).write_latch == old(self).write_latch,
            final(self).value < 0x4000,
    {
        let v = self.value.wrapping_add(inc as u16);
        self.set(v);
    }

    pub fn reset_latch(&mut self)
        ensures
            *final(self) == (AddrRegister { write_latch: false, ..*old(self) }),
    {
        self.write_latch = false;
    }

    pub fn get(&self) -> (r: u16)
        ensures
            r == self.value,
    {
        self.value
    }
}

/// The picture processor.
pub struct NesPPU {
    pub chr_rom: Vec<u8>,
    pub mirroring: Mirroring,
    pub ctrl: ControlRegister,
    pub mask: MaskRegister,
    pub status: StatusRegister,
    pub scroll: ScrollRegister,
    pub vram: Vec<u8>,
    pub oam_addr: u8,
    pub oam_data: Vec<u8>,
    pub palette_table: Vec<u8>,
    pub addr: AddrRegister,
    pub internal_data_buf: u8,
    pub scanline: u16,
    pub cycles: usize,
    pub nmi_interrupt: Option<u8>,
}

/// Snapshot of the PPU for save states (the CHR reference and the mirroring
/// mode come back from the cartridge on load).
pub struct PpuState {
    pub ctrl: u8,
    pub mask: u8,
    pub status: u8,
    pub scroll_x: u8,
    pub scroll_y: u8,
    pub scroll_latch: bool,
    pub vram: Vec<u8>,
    pub oam_addr: u8,
    pub oam_data: Vec<u8>,
    pub palette_table: Vec<u8>,
    pub addr_value: u16,
    pub addr_latch: bool,
    pub internal_data_buf: u8,
    pub scanline: u16,
    pub cycles: usize,
    pub nmi_interrupt: Option<u8>,
}

/// One frame is 262 scanlines of 341 PPU cycles.
pub const CYCLES_PER_SCANLINE: usize = 341;
pub const SCANLINES_PER_FRAME: usize = 262;
pub const CYCLES_PER_FRAME: usize = 89342;

/// Memory sizes and the counters stay inside their ranges.
pub open spec fn ppu_wf(p: NesPPU) -> bool {
    &&& p.vram.len() == 2048
    &&& p.oam_data.len() == 256
    &&& p.palette_table.len() == 32
    &&& p.addr.value < 0x4000
    &&& p.scanline < 262
    &&& p.cycles < 341
}

/// Dot position within the current frame.
pub open spec fn ppu_pos(p: NesPPU) -> int {
    p.scanline * 341 + p.cycles
}

/// The coarse sprite-zero-hit test applied once per tick: both rendering
/// layers on, the hit not yet latched, sprite 0 exactly at the current
/// (scanline, cycle) inside the visible region, outside the left-edge clip
/// and away from the cycle-255 edge case.
pub open spec fn sprite_zero_hit_fires(p: NesPPU) -> bool {
    &&& p.scanline < 239
    &&& 1 <= p.cycles <= 256
    &&& p.mask.bits & 0x18 == 0x18
    &&& p.status.bits & 0x40 == 0
    &&& p.oam_data@[0] as int == p.scanline as int
    &&& p.oam_data@[3] as int == p.cycles as int
    &&& !(p.cycles < 8 && (p.mask.bits & 0x02 == 0 || p.mask.bits & 0x04 == 0))
    &&& p.cycles != 255
}

/// The state after the per-tick sprite-zero-hit check.
pub open spec fn ppu_with_hit(p: NesPPU) -> NesPPU {
    if sprite_zero_hit_fires(p) {
        NesPPU { status: StatusRegister { bits: p.status.bits | 0x40 }, ..p }
    } else {
        p
    }
}

/// One scanline boundary: drop 341 cycles and advance the scanline; entering
/// scanline 241 sets VBlank (and the NMI if enabled); passing the last
/// scanline wraps to 0 and clears VBlank, sprite-zero hit, overflow, and any
/// pending NMI.
pub open spec fn ppu_scanline_step(p: NesPPU) -> NesPPU {
    let q = NesPPU {
        cycles: (p.cycles - 341) as usize,
        scanline: ((p.scanline + 1) as u16),
        ..p
    };
    let q = if q.scanline == 241 {
        NesPPU {
            status: StatusRegister { bits: q.status.bits | 0x80 },
            nmi_interrupt: if q.ctrl.bits & 0x80 != 0 { Some(1u8) } else { q.nmi_interrupt },
            ..q
        }
    } else {
        q
    };
    if q.scanline >= 262 {
        NesPPU {
            scanline: 0,
            status: StatusRegister { bits: q.status.bits & 0x1F },
            nmi_interrupt: None,
            ..q
        }
    } else {
        q
    }
}

/// Apply scanline boundaries until fewer than 341 cycles remain; the flag
/// records whether a frame completed on the way.
pub open spec fn ppu_run_wraps(p: NesPPU) -> (NesPPU, bool)
    decreases p.cycles,
{
    if p.cycles < 341 {
        (p, false)
    } else {
        let frame_now = p.scanline + 1 >= 262;
        let r = ppu_run_wraps(ppu_scanline_step(p));
        (r.0, frame_now || r.1)
    }
}

/// The whole effect of `tick(n)`: add the cycles, run the hit check once,
/// then resolve scanline boundaries.
pub open spec fn ppu_after_tick(p: NesPPU, n: usize) -> (NesPPU, bool) {
    ppu_run_wraps(ppu_with_hit(NesPPU { cycles: (p.cycles + n) as usize, ..p }))
}

/// Physical VRAM index for a logical nametable address, per mirroring mode.
pub open spec fn mirror_vram(mirroring: Mirroring, addr: u16) -> int {
    let vram_index = (addr & 0x2FFF) - 0x2000;
    let name_table = vram_index / 0x400;
    match mirroring {
        Mirroring::VERTICAL => if name_table == 0 || name_table == 2 {
            vram_index % 0x400
        } else {
            vram_index % 0x400 + 0x400
        },
        Mirroring::HORIZONTAL => if name_table == 0 || name_table == 1 {
            vram_index % 0x400
        } else {
            vram_index % 0x400 + 0x400
        },
        Mirroring::FOURSCREEN => vram_index % 0x400,
    }
}

/// Palette RAM index for a $3F00..$3FFF address: mirrored every 32 bytes,
/// with $10/$14/$18/$1C aliased down to $00/$04/$08/$0C.
pub open spec fn palette_index(addr: u16) -> int {
    let i = (addr - 0x3F00) % 0x20;
    if i == 0x10 || i == 0x14 || i == 0x18 || i == 0x1C {
        i - 0x10
    } else {
        i
    }
}

/// The CHR byte at a pattern-table address; beyond the image it reads zero.
pub open spec fn chr_byte(chr: Seq<u8>, addr: u16) -> u8 {
    if addr < chr.len() {
        chr[addr as int]
    } else {
        0u8
    }
}

/// The snapshot carries exactly the mutable machine state of the PPU.
pub open spec fn ppu_matches_state(p: NesPPU, s: PpuState) -> bool {
    &&& p.ctrl.bits == s.ctrl
    &&& p.mask.bits == s.mask
    &&& p.status.bits == s.status
    &&& p.scroll.scroll_x == s.scroll_x
    &&& p.scroll.scroll_y == s.scroll_y
    &&& p.scroll.write_latch == s.scroll_latch
    &&& p.vram@ == s.vram@
    &&& p.oam_addr == s.oam_addr
    &&& p.oam_data@ == s.oam_data@
    &&& p.palette_table@ == s.palette_table@
    &&& p.addr.value == s.addr_value
    &&& p.addr.write_latch == s.addr_latch
    &&& p.internal_data_buf == s.internal_data_buf
    &&& p.scanline == s.scanline
    &&& p.cycles == s.cycles
    &&& p.nmi_interrupt == s.nmi_interrupt
}

impl NesPPU {
    pub fn new(chr_rom: Vec<u8>, mirroring: Mirroring) -> (r: NesPPU)
        ensures
            ppu_wf(r),
            r.chr_rom == chr_rom,
            r.mirroring == mirroring,
            r.ctrl.bits == 0 && r.mask.bits == 0 && r.status.bits == 0,
            r.scroll.scroll_x == 0 && r.scroll.scroll_y == 0 && !r.scroll.write_latch,
            r.vram@ == Seq::new(2048, |i: int| 0u8),
            r.oam_addr == 0,
            r.oam_data@ == Seq::new(256, |i: int| 0u8),
            r.palette_table@ == Seq::new(32, |i: int| 0u8),
            r.addr.value == 0 && !r.addr.write_latch,
            r.internal_data_buf == 0,
            r.scanline == 0 && r.cycles == 0,
            r.nmi_interrupt is None,
    {
        NesPPU {
            chr_rom,
            mirroring,
            ctrl: ControlRegister::new(),
            mask: MaskRegister { bits: 0 },
            status: StatusRegister { bits: 0 },
            scroll: ScrollRegister::new(),
            vram: zero_bytes(2048),
            oam_addr: 0,
            oam_data: zero_bytes(256),
            palette_table: zero_bytes(32),
            addr: AddrRegister::new(),
            internal_data_buf: 0,
            scanline: 0,
            cycles: 0,
            nmi_interrupt: None,
        }
    }

    /// Advance the dot clock by `cycles` PPU cycles; true exactly when a
    /// frame boundary was passed. The dot position moves forward by
    /// `cycles`, modulo one frame.
    pub fn tick(&mut self, cycles: usize) -> (r: bool)
        requires
            ppu_wf(*old(self)),
            cycles <= usize::MAX - 341,
        ensures
            ppu_wf(*final(self)),
            (*final(self), r) == ppu_after_tick(*old(self), cycles),
            r <==> ppu_pos(*old(self)) + cycles >= CYCLES_PER_FRAME,
            ppu_pos(*final(self)) == (ppu_pos(*old(self)) + cycles) % (CYCLES_PER_FRAME as int),
    {
        let ghost start = *old(self);
        self.cycles = self.cycles + cycles;

        if self.scanline < 239 && self.cycles >= 1 && self.cycles <= 256 {
            if self.mask.bits & 0x18 == 0x18 {
                if self.status.bits & 0x40 == 0 {
                    let y = self.oam_data[0];
                    let x = self.oam_data[3];
                    if y as u16 == self.scanline && x as usize == self.cycles {
                        let bg_clipped = self.mask.bits & 0x02 == 0;
                        let sp_clipped = self.mask.bits & 0x04 == 0;
                        let in_clip_region = self.cycles < 8 && (bg_clipped || sp_clipped);
                        if !in_clip_region && self.cycles != 255 {
                            self.status.bits = self.status.bits | 0x40;
                        }
                    }
                }
            }
        }
        proof {
            let added = NesPPU { cycles: (start.cycles + cycles) as usize, ..start };
            assert(*self == ppu_with_hit(added));
        }

        let ghost target = ppu_with_hit(NesPPU { cycles: (start.cycles + cycles) as usize, ..start });
        let mut frame = false;

        while self.cycles >= 341
            invariant
                self.scanline < 262,
                self.vram.len() == 2048,
                self.oam_data.len() == 256,
                self.palette_table.len() == 32,
                self.addr.value < 0x4000,
                ppu_run_wraps(*self).0 == ppu_run_wraps(target).0,
                (frame || ppu_run_wraps(*self).1) == ppu_run_wraps(target).1,
            decreases self.cycles,
        {
            let ghost before = *self;
            self.cycles = self.cycles - 341;
            self.scanline = self.scanline + 1;

            if self.scanline == 241 {
                self.status.bits = self.status.bits | 0x80;
                if self.ctrl.bits & 0x80 != 0 {
                    self.nmi_interrupt = Some(1);
                }
            }

            if self.scanline >= 262 {
                self.scanline = 0;
                self.status.bits = self.status.bits & 0x1F;
                self.nmi_interrupt = None;
                frame = true;
            }
            proof {
                assert(*self == ppu_scanline_step(before));
            }
        }

        proof {
            lemma_run_wraps_pos(target);
            assert(ppu_pos(target) == ppu_pos(start) + cycles);
            assert(ppu_pos(start) < CYCLES_PER_FRAME);
        }
        frame
    }

    /// Hand over a pending NMI, clearing it.
    pub fn poll_nmi_interrupt(&mut self) -> (r: Option<u8>)
        ensures
            r == old(self).nmi_interrupt,
            *final(self) == (NesPPU { nmi_interrupt: None, ..*old(self) }),
    {
        let r = self.nmi_interrupt;
        self.nmi_interrupt = None;
        r
    }

    /// PPUCTRL write. Turning GENERATE_NMI on while VBlank is already set
    /// raises the NMI at once; nothing else raises it here.
    pub fn write_to_ctrl(&mut self, value: u8)
        ensures
            final(self).ctrl.bits == value,
            final(self).nmi_interrupt == if old(self).ctrl.bits & 0x80 == 0 && value & 0x80 != 0
                && old(self).status.bits & 0x80 != 0 {
                Some(1u8)
            } else {
                old(self).nmi_interrupt
            },
            *final(self) == (NesPPU {
                ctrl: final(self).ctrl,
                nmi_interrupt: final(self).nmi_interrupt,
                ..*old(self)
            }),
    {
        let before_nmi_enabled = self.ctrl.generate_nmi();
        self.ctrl.update(value);
        let after_nmi_enabled = self.ctrl.generate_nmi();
        if !before_nmi_enabled && after_nmi_enabled && self.status.bits & 0x80 != 0 {
            self.nmi_interrupt = Some(1);
        }
    }

    /// PPUMASK write: the mask is replaced, nothing else moves.
    pub fn write_to_mask(&mut self, value: u8)
        ensures
            *final(self) == (NesPPU { mask: MaskRegister { bits: value }, ..*old(self) }),
    {
        self.mask = MaskRegister { bits: value };
    }

    /// PPUSTATUS read: returns the bits, then clears VBlank and resets both
    /// write latches. The pending-NMI latch is untouched, so re-reading the
    /// status can never produce a second NMI.
    pub fn read_status(&mut self) -> (r: u8)
        ensures
            r == old(self).status.bits,
            *final(self) == (NesPPU {
                status: StatusRegister { bits: old(self).status.bits & 0x7F },
                addr: AddrRegister { write_latch: false, ..old(self).addr },
                scroll: ScrollRegister { write_latch: false, ..old(self).scroll },
                ..*old(self)
            }),
    {
        let data = self.status.bits;
        self.status.bits = self.status.bits & 0x7F;
        self.addr.reset_latch();
        self.scroll.reset_latch();
        data
    }

    pub fn write_to_oam_addr(&mut self, value: u8)
        ensures
            *final(self) == (NesPPU { oam_addr: value, ..*old(self) }),
    {
        self.oam_addr = value;
    }

    /// OAMDATA write: store at the pointer, then advance it (wrapping).
    pub fn write_to_oam_data(&mut self, value: u8)
        requires
            ppu_wf(*old(self)),
        ensures
            *final(self) == (NesPPU {
                oam_data: final(self).oam_data,
                oam_addr: ((old(self).oam_addr + 1) % 256) as u8,
                ..*old(self)
            }),
            final(self).oam_data@ == old(self).oam_data@.update(old(self).oam_addr as int, value),
    {
        let i = self.oam_addr as usize;
        self.oam_data[i] = value;
        self.oam_addr = self.oam_addr.wrapping_add(1);
    }

    pub fn read_oam_data(&self) -> (r: u8)
        requires
            ppu_wf(*self),
        ensures
            r == self.oam_data@[self.oam_addr as int],
    {
        self.oam_data[self.oam_addr as usize]
    }

    /// OAM DMA burst: 256 bytes land at the pointer onward (wrapping), and
    /// the pointer comes back around to where it started.
    pub fn write_oam_dma(&mut self, data: &Vec<u8>)
        requires
            ppu_wf(*old(self)),
            data.len() == 256,
        ensures
            *final(self) == (NesPPU { oam_data: final(self).oam_data, ..*old(self) }),
            final(self).oam_data.len() == 256,
            forall|k: int|
                0 <= k < 256 ==> final(self).oam_data@[(old(self).oam_addr + k) % 256]
                    == #[trigger] data@[k],
    {
        let ghost a0 = self.oam_addr as int;
        let mut i: usize = 0;
        while i < 256
            invariant
                ppu_wf(*self),
                data.len() == 256,
                i <= 256,
                0 <= a0 < 256,
                self.oam_addr as int == (a0 + i) % 256,
                *self == (NesPPU { oam_data: self.oam_data, oam_addr: self.oam_addr, ..*old(self) }),
                self.oam_data.len() == 256,
                forall|k: int| 0 <= k < i ==> self.oam_data@[(a0 + k) % 256] == #[trigger] data@[k],
            decreases 256 - i,
        {
            let idx = self.oam_addr as usize;
            self.oam_data[idx] = data[i];
            self.oam_addr = self.oam_addr.wrapping_add(1);
            proof {
                assert((a0 + i) % 256 == idx);
                assert forall|k: int| 0 <= k < i + 1 implies self.oam_data@[(a0 + k) % 256]
                    == #[trigger] data@[k] by {
                    if k < i {
                        lemma_mod_256_distinct(a0, k, i as int);
                    }
                };
            }
            i += 1;
        }
        proof {
            assert(self.oam_addr as int == (a0 + 256) % 256);
            assert((a0 + 256) % 256 == a0 % 256);
            assert(a0 % 256 == a0);
        }
    }

    pub fn write_to_scroll(&mut self, value: u8)
        ensures
            *final(self) == (NesPPU { scroll: final(self).scroll, ..*old(self) }),
            final(self).scroll.scroll_x == if old(self).scroll.write_latch {
                old(self).scroll.scroll_x
            } else {
                value
            },
            final(self).scroll.scroll_y == if old(self).scroll.write_latch {
                value
            } else {
                old(self).scroll.scroll_y
            },
            final(self).scroll.write_latch == !old(self).scroll.write_latch,
    {
        self.scroll.write(value);
    }

    pub fn write_to_ppu_addr(&mut self, value: u8)
        ensures
            *final(self) == (NesPPU { addr: final(self).addr, ..*old(self) }),
            final(self).addr.value == addr_after_update(
                old(self).addr.value,
                old(self).addr.write_latch,
                value,
            ),
            final(self).addr.write_latch == !old(self).addr.write_latch,
            final(self).addr.value < 0x4000,
    {
        self.addr.update(value);
    }

    fn increment_vram_addr(&mut self)
        requires
            old(self).addr.value < 0x4000,
        ensures
            *final(self) == (NesPPU { addr: final(self).addr, ..*old(self) }),
            final(self).addr.value == (old(self).addr.value + ctrl_vram_increment(
                old(self).ctrl.bits,
            )) % 0x4000,
            final(self).addr.write_latch == old(self).addr.write_latch,
    {
        let inc = self.ctrl.vram_addr_increment();
        self.addr.increment(inc);
    }

    /// Physical VRAM index for a logical nametable address.
    pub fn mirror_vram_addr(&self, addr: u16) -> (r: u16)
        requires
            0x2000 <= addr < 0x4000,
        ensures
            r == mirror_vram(self.mirroring, addr),
            r < 0x800,
    {
        proof {
            assert(0x2000 <= (addr & 0x2FFF) <= 0x2FFF) by (bit_vector)
                requires 0x2000 <= addr < 0x4000;
        }
        let mirrored_vram = addr & 0x2FFF;
        let vram_index = mirrored_vram - 0x2000;
        let name_table = vram_index / 0x400;
        match self.mirroring {
            Mirroring::VERTICAL => {
                if name_table == 0 || name_table == 2 {
                    vram_index % 0x400
                } else {
                    vram_index % 0x400 + 0x400
                }
            }
            Mirroring::HORIZONTAL => {
                if name_table == 0 || name_table == 1 {
                    vram_index % 0x400
                } else {
                    vram_index % 0x400 + 0x400
                }
            }
            Mirroring::FOURSCREEN => vram_index % 0x400,
        }
    }

    /// PPUDATA write at the address register, which then self-increments.
    /// Pattern-table addresses point into CHR-ROM and the write is dropped;
    /// nametable space goes through mirroring; palette space goes through
    /// the alias map.
    pub fn write_to_data(&mut self, value: u8)
        requires
            ppu_wf(*old(self)),
        ensures
            ppu_wf(*final(self)),
            *final(self) == (NesPPU {
                vram: final(self).vram,
                palette_table: final(self).palette_table,
                addr: final(self).addr,
                ..*old(self)
            }),
            final(self).addr.value == (old(self).addr.value + ctrl_vram_increment(
                old(self).ctrl.bits,
            )) % 0x4000,
            final(self).addr.write_latch == old(self).addr.write_latch,
            ({
                let a = old(self).addr.value;
                if a < 0x2000 {
                    final(self).vram@ == old(self).vram@ && final(self).palette_table@ == old(
                        self,
                    ).palette_table@
                } else if a < 0x3F00 {
                    final(self).vram@ == old(self).vram@.update(
                        mirror_vram(old(self).mirroring, a),
                        value,
                    ) && final(self).palette_table@ == old(self).palette_table@
                } else {
                    final(self).palette_table@ == old(self).palette_table@.update(
                        palette_index(a),
                        value,
                    ) && final(self).vram@ == old(self).vram@
                }
            }),
    {
        let addr = self.addr.get();
        if addr < 0x2000 {
            // CHR is read-only on NROM; the write is silently dropped.
        } else if addr <= 0x3EFF {
            let mirrored = self.mirror_vram_addr(addr) as usize;
            self.vram[mirrored] = value;
        } else {
            let mut palette_addr = (addr as usize - 0x3F00) % 0x20;
            if palette_addr == 0x10 || palette_addr == 0x14 || palette_addr == 0x18
                || palette_addr == 0x1C {
                palette_addr = palette_addr - 0x10;
            }
            self.palette_table[palette_addr] = value;
        }
        self.increment_vram_addr();
    }

    /// PPUDATA read at the address register, which then self-increments.
    /// CHR and nametable reads return the buffered byte and refill the
    /// buffer from the current address; palette reads return directly but
    /// still refill the buffer from the nametable underneath. A pattern
    /// address beyond the CHR image reads as zero.
    pub fn read_data(&mut self) -> (r: u8)
        requires
            ppu_wf(*old(self)),
        ensures
            ppu_wf(*final(self)),
            *final(self) == (NesPPU {
                internal_data_buf: final(self).internal_data_buf,
                addr: final(self).addr,
                ..*old(self)
            }),
            final(self).addr.value == (old(self).addr.value + ctrl_vram_increment(
                old(self).ctrl.bits,
            )) % 0x4000,
            final(self).addr.write_latch == old(self).addr.write_latch,
            ({
                let a = old(self).addr.value;
                if a < 0x2000 {
                    r == old(self).internal_data_buf && final(self).internal_data_buf == chr_byte(
                        old(self).chr_rom@,
                        a,
                    )
                } else if a < 0x3F00 {
                    r == old(self).internal_data_buf && final(self).internal_data_buf == old(
                        self,
                    ).vram@[mirror_vram(old(self).mirroring, a)]
                } else {
                    r == old(self).palette_table@[palette_index(a)]
                        && final(self).internal_data_buf
                        == old(self).vram@[mirror_vram(old(self).mirroring, a)]
                }
            }),
    {
        let addr = self.addr.get();
        self.increment_vram_addr();

        if addr < 0x2000 {
            let buffered = self.internal_data_buf;
            self.internal_data_buf = if (addr as usize) < self.chr_rom.len() {
                self.chr_rom[addr as usize]
            } else {
                0
            };
            buffered
        } else if addr <= 0x3EFF {
            let buffered = self.internal_data_buf;
            let mirrored = self.mirror_vram_addr(addr) as usize;
            self.internal_data_buf = self.vram[mirrored];
            buffered
        } else {
            let mut palette_addr = (addr as usize - 0x3F00) % 0x20;
            if palette_addr == 0x10 || palette_addr == 0x14 || palette_addr == 0x18
                || palette_addr == 0x1C {
                palette_addr = palette_addr - 0x10;
            }
            let underlying = self.mirror_vram_addr(addr) as usize;
            self.internal_data_buf = self.vram[underlying];
            self.palette_table[palette_addr]
        }
    }

    pub fn save_state(&self) -> (r: PpuState)
        ensures
            ppu_matches_state(*self, r),
    {
        PpuState {
            ctrl: self.ctrl.bits,
            mask: self.mask.bits,
            status: self.status.bits,
            scroll_x: self.scroll.scroll_x,
            scroll_y: self.scroll.scroll_y,
            scroll_latch: self.scroll.write_latch,
            vram: copy_bytes(&self.vram),
            oam_addr: self.oam_addr,
            oam_data: copy_bytes(&self.oam_data),
            palette_table: copy_bytes(&self.palette_table),
            addr_value: self.addr.value,
            addr_latch: self.addr.write_latch,
            internal_data_buf: self.internal_data_buf,
            scanline: self.scanline,
            cycles: self.cycles,
            nmi_interrupt: self.nmi_interrupt,
        }
    }

    /// Restore everything but the CHR reference and the mirroring mode,
    /// which belong to the cartridge.
    pub fn load_state(&mut self, state: &PpuState)
        ensures
            ppu_matches_state(*final(self), *state),
            final(self).chr_rom == old(self).chr_rom,
            final(self).mirroring == old(self).mirroring,
    {
        self.ctrl.bits = state.ctrl;
        self.mask.bits = state.mask;
        self.status.bits = state.status;
        self.scroll.scroll_x = state.scroll_x;
        self.scroll.scroll_y = state.scroll_y;
        self.scroll.write_latch = state.scroll_latch;
        self.vram = copy_bytes(&state.vram);
        self.oam_addr = state.oam_addr;
        self.oam_data = copy_bytes(&state.oam_data);
        self.palette_table = copy_bytes(&state.palette_table);
        self.addr.value = state.addr_value;
        self.addr.write_latch = state.addr_latch;
        self.internal_data_buf = state.internal_data_buf;
        self.scanline = state.scanline;
        self.cycles = state.cycles;
        self.nmi_interrupt = state.nmi_interrupt;
    }

    /// PPUSTATUS without the read side effects.
    pub fn peek_status(&self) -> (r: u8)
        ensures
            r == self.status.bits,
    {
        self.status.bits
    }
}

/// Distinct offsets within one wrap of 256 land on distinct indices.
proof fn lemma_mod_256_distinct(a0: int, k: int, i: int)
    requires
        0 <= a0 < 256,
        0 <= k < i < 256,
    ensures
        (a0 + k) % 256 != (a0 + i) % 256,
{
    if (a0 + k) % 256 == (a0 + i) % 256 {
        assert((a0 + k) % 256 == if a0 + k < 256 { a0 + k } else { a0 + k - 256 });
        assert((a0 + i) % 256 == if a0 + i < 256 { a0 + i } else { a0 + i - 256 });
    }
}

/// Resolving the scanline wraps moves the dot position to its value modulo
/// one frame, and flags a completed frame exactly when it wrapped.
proof fn lemma_run_wraps_pos(p: NesPPU)
    requires
        p.scanline < 262,
    ensures
        ppu_pos(ppu_run_wraps(p).0) == ppu_pos(p) % (CYCLES_PER_FRAME as int),
        ppu_run_wraps(p).1 <==> ppu_pos(p) >= CYCLES_PER_FRAME,
        ppu_run_wraps(p).0.scanline < 262,
        ppu_run_wraps(p).0.cycles < 341,
    decreases p.cycles,
{
    if p.cycles < 341 {
        assert(ppu_pos(p) < CYCLES_PER_FRAME);
        assert(ppu_pos(p) % (CYCLES_PER_FRAME as int) == ppu_pos(p));
    } else {
        let s = ppu_scanline_step(p);
        if p.scanline + 1 >= 262 {
            assert(ppu_pos(s) == ppu_pos(p) - CYCLES_PER_FRAME);
        } else {
            assert(ppu_pos(s) == ppu_pos(p));
        }
        lemma_run_wraps_pos(s);
        if p.scanline + 1 >= 262 {
            assert(ppu_pos(p) - CYCLES_PER_FRAME >= 0);
            assert((ppu_pos(p) - CYCLES_PER_FRAME) % (CYCLES_PER_FRAME as int) == ppu_pos(p) % (
            CYCLES_PER_FRAME as int)) by {
                vstd::arithmetic::div_mod::lemma_mod_sub_multiples_vanish(
                    ppu_pos(p),
                    CYCLES_PER_FRAME as int,
                );
            };
        }
    }
}

} // verus!

