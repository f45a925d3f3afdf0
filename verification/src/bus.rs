//! The bus: CPU-visible address decoding, OAM DMA, tick propagation to the
//! PPU and APU, interrupt latching, and Game Genie patching of PRG reads.

use vstd::prelude::*;
use crate::apu::{
    apu_after_write, apu_core, apu_core_init, apu_cycles, apu_emitted, apu_matches_state,
    apu_state_wf, apu_status_byte, apu_wf, Apu, ApuCore, ApuState,
};
use crate::cartridge::{prg_byte, rom_wf, Rom};
use crate::debugger::{bp_lookup, bp_unique, Debugger, DebuggerState};
use crate::gamegenie::GameGenieCode;
use crate::joypad::{Joypad, JoypadState};
use crate::ppu::{
    addr_after_update, ctrl_vram_increment, mirror_vram, palette_index, ppu_after_tick,
    ppu_matches_state, ppu_wf, chr_byte, NesPPU, PpuState,
};
use crate::util::copy_bytes;

verus! {

/// The read/write interface a bus-like device offers the CPU.
pub trait Mem {
    /// What the device needs of itself before an access.
    spec fn mem_wf(&self) -> bool;

    fn mem_read(&mut self, addr: u16) -> u8
        requires
            old(self).mem_wf(),
    ;

    fn mem_write(&mut self, addr: u16, data: u8)
        requires
            old(self).mem_wf(),
    ;

    fn mem_read_u16(&mut self, pos: u16) -> u16
        requires
            old(self).mem_wf(),
            pos < 0xFFFF,
    ;

    fn mem_write_u16(&mut self, pos: u16, data: u16)
        requires
            old(self).mem_wf(),
            pos < 0xFFFF,
    ;
}

/// Snapshot of the bus for save states (the cartridge itself is immutable
/// and not stored).
pub struct BusState {
    pub cpu_vram: Vec<u8>,
    pub ppu: PpuState,
    pub apu: ApuState,
    pub cycles: u64,
    pub nmi_interrupt: Option<u8>,
    pub irq_interrupt: Option<u8>,
    pub joypad1: JoypadState,
    pub joypad2: JoypadState,
    pub game_genie_codes: Vec<GameGenieCode>,
    pub debugger: DebuggerState,
}

/// The system bus. A completed frame is signalled through the
/// `frame_complete` flag, which the host polls and clears.
pub struct Bus {
    pub cpu_vram: Vec<u8>,
    pub rom: Rom,
    pub ppu: NesPPU,
    pub apu: Apu,
    pub cycles: u64,
    pub nmi_interrupt: Option<u8>,
    pub irq_interrupt: Option<u8>,
    pub joypad1: Joypad,
    pub joypad2: Joypad,
    pub game_genie_codes: Vec<GameGenieCode>,
    pub debugger: Debugger,
    pub frame_complete: bool,
}

pub open spec fn bus_wf(b: Bus) -> bool {
    &&& b.cpu_vram.len() == 2048
    &&& rom_wf(b.rom)
    &&& b.rom.prg_rom.len() > 0
    &&& ppu_wf(b.ppu)
    &&& apu_wf(b.apu)
    &&& bp_unique(b.debugger.breakpoints@)
}

/// A PRG read seen through the patch list: the first code at this address
/// whose compare byte (if any) matches the unpatched byte supplies the
/// value; otherwise the cartridge byte comes through.
pub open spec fn patched_prg_byte(codes: Seq<GameGenieCode>, prg: Seq<u8>, addr: u16) -> u8
    decreases codes.len(),
{
    if codes.len() == 0 {
        prg_byte(prg, addr)
    } else if codes[0].address == addr && (codes[0].compare_data is None
        || codes[0].compare_data == Some(prg_byte(prg, addr))) {
        codes[0].new_data
    } else {
        patched_prg_byte(codes.skip(1), prg, addr)
    }
}

/// The side-effect-free CPU view of memory: RAM and (patched) PRG respond;
/// every other region reads as zero.
pub open spec fn bus_readonly_byte(b: Bus, addr: u16) -> u8 {
    if addr < 0x2000 {
        b.cpu_vram@[(addr % 0x800) as int]
    } else if addr >= 0x8000 {
        patched_prg_byte(b.game_genie_codes@, b.rom.prg_rom@, addr)
    } else {
        0u8
    }
}

/// Addresses whose reads have no side effects on the machine.
pub open spec fn passive_addr(addr: u16) -> bool {
    addr < 0x2000 || addr >= 0x8000
}

impl Bus {
    /// Wire a freshly loaded cartridge to new PPU, APU and controllers.
    pub fn new(rom: Rom) -> (r: Bus)
        requires
            rom_wf(rom),
            rom.prg_rom.len() > 0,
        ensures
            bus_wf(r),
            r.rom == rom,
            r.cpu_vram@ == Seq::new(2048, |i: int| 0u8),
            r.ppu.chr_rom@ == rom.chr_rom@,
            r.ppu.mirroring == rom.screen_mirroring,
            r.ppu.ctrl.bits == 0 && r.ppu.mask.bits == 0 && r.ppu.status.bits == 0,
            r.ppu.scroll.scroll_x == 0 && r.ppu.scroll.scroll_y == 0 && !r.ppu.scroll.write_latch,
            r.ppu.vram@ == Seq::new(2048, |i: int| 0u8),
            r.ppu.oam_addr == 0,
            r.ppu.oam_data@ == Seq::new(256, |i: int| 0u8),
            r.ppu.palette_table@ == Seq::new(32, |i: int| 0u8),
            r.ppu.addr.value == 0 && !r.ppu.addr.write_latch,
            r.ppu.internal_data_buf == 0,
            r.ppu.scanline == 0 && r.ppu.cycles == 0,
            r.ppu.nmi_interrupt is None,
            apu_core(r.apu) == apu_core_init(),
            r.apu.sample_buffer@ == Seq::<crate::apu::ApuSample>::empty(),
            r.cycles == 0,
            r.nmi_interrupt is None && r.irq_interrupt is None,
            !r.joypad1.strobe && r.joypad1.button_index == 0 && r.joypad1.button_status == 0
                && r.joypad1.latched_status == 0,
            !r.joypad2.strobe && r.joypad2.button_index == 0 && r.joypad2.button_status == 0
                && r.joypad2.latched_status == 0,
            r.game_genie_codes@.len() == 0,
            r.debugger.breakpoints@.len() == 0 && !r.debugger.paused,
            !r.frame_complete,
    {
        let chr = copy_bytes(&rom.chr_rom);
        let mirroring = rom.screen_mirroring;
        let ppu = NesPPU::new(chr, mirroring);
        Bus {
            cpu_vram: crate::util::zero_bytes(2048),
            rom,
            ppu,
            apu: Apu::new(),
            cycles: 0,
            nmi_interrupt: None,
            irq_interrupt: None,
            joypad1: Joypad::new(),
            joypad2: Joypad::new(),
            game_genie_codes: Vec::new(),
            debugger: Debugger::new(),
            frame_complete: false,
        }
    }

    pub fn set_game_genie_codes(&mut self, codes: Vec<GameGenieCode>)
        ensures
            *final(self) == (Bus { game_genie_codes: codes, ..*old(self) }),
    {
        self.game_genie_codes = codes;
    }

    /// PRG read with the patch overlay applied.
    fn read_prg_rom(&self, addr: u16) -> (r: u8)
        requires
            bus_wf(*self),
            0x8000 <= addr,
        ensures
            r == patched_prg_byte(self.game_genie_codes@, self.rom.prg_rom@, addr),
    {
        let raw = self.rom.read(addr);
        let n = self.game_genie_codes.len();
        proof {
            assert(self.game_genie_codes@.skip(0) =~= self.game_genie_codes@);
        }
        let mut i: usize = 0;
        while i < n
            invariant
                bus_wf(*self),
                0x8000 <= addr,
                n == self.game_genie_codes@.len(),
                i <= n,
                raw == prg_byte(self.rom.prg_rom@, addr),
                patched_prg_byte(self.game_genie_codes@, self.rom.prg_rom@, addr)
                    == patched_prg_byte(
                    self.game_genie_codes@.skip(i as int),
                    self.rom.prg_rom@,
                    addr,
                ),
            decreases n - i,
        {
            let code = &self.game_genie_codes[i];
            let applies: bool = if code.address == addr {
                match code.compare_data {
                    None => true,
                    Some(cmp) => raw == cmp,
                }
            } else {
                false
            };
            if applies {
                return code.new_data;
            }
            proof {
                assert(self.game_genie_codes@.skip(i as int).skip(1)
                    =~= self.game_genie_codes@.skip(i + 1));
            }
            i += 1;
        }
        proof {
            assert(self.game_genie_codes@.skip(n as int)
                =~= Seq::<GameGenieCode>::empty());
        }
        raw
    }

    /// Advance the whole machine by `cycles` CPU cycles: the APU by the
    /// same count, the PPU by three times as many dots. A completed frame
    /// raises `frame_complete`; a pending PPU NMI or APU frame interrupt is
    /// latched for the CPU.
    #[verifier::rlimit(100)]
    #[verifier::spinoff_prover]
    pub fn tick(&mut self, cycles: usize)
        requires
            bus_wf(*old(self)),
            cycles * 3 <= usize::MAX - 341,
            old(self).cycles + cycles <= u64::MAX,
        ensures
            bus_wf(*final(self)),
            final(self).cycles == old(self).cycles + cycles,
            ({
                let a = apu_cycles(apu_core(old(self).apu), cycles as nat);
                &&& apu_core(final(self).apu) == (ApuCore { frame_interrupt: false, ..a })
                &&& final(self).apu.sample_buffer@ == old(self).apu.sample_buffer@ + apu_emitted(
                    apu_core(old(self).apu),
                    cycles as nat,
                )
                &&& final(self).irq_interrupt == if a.frame_interrupt {
                    Some(1u8)
                } else {
                    old(self).irq_interrupt
                }
            }),
            ({
                let pf = ppu_after_tick(old(self).ppu, (cycles * 3) as usize);
                &&& final(self).ppu == (NesPPU { nmi_interrupt: None, ..pf.0 })
                &&& final(self).frame_complete == (old(self).frame_complete || pf.1)
                &&& final(self).nmi_interrupt == if pf.0.nmi_interrupt is Some {
                    Some(1u8)
                } else {
                    old(self).nmi_interrupt
                }
            }),
            final(self).cpu_vram == old(self).cpu_vram,
            final(self).rom == old(self).rom,
            final(self).joypad1 == old(self).joypad1,
            final(self).joypad2 == old(self).joypad2,
            final(self).game_genie_codes == old(self).game_genie_codes,
            final(self).debugger == old(self).debugger,
    {
        self.cycles = self.cycles + cycles as u64;
        self.apu.tick(cycles);
        let frame_done = self.ppu.tick(cycles * 3);
        if frame_done {
            self.frame_complete = true;
        }
        if self.ppu.poll_nmi_interrupt().is_some() {
            self.nmi_interrupt = Some(1);
        }
        if self.apu.poll_frame_interrupt() {
            self.irq_interrupt = Some(1);
        }
    }

    /// Hand over the latched NMI, clearing it.
    pub fn poll_nmi_status(&mut self) -> (r: Option<u8>)
        ensures
            r == old(self).nmi_interrupt,
            *final(self) == (Bus { nmi_interrupt: None, ..*old(self) }),
    {
        let r = self.nmi_interrupt;
        self.nmi_interrupt = None;
        r
    }

    /// Hand over the latched IRQ, clearing it.
    pub fn poll_irq_status(&mut self) -> (r: Option<u8>)
        ensures
            r == old(self).irq_interrupt,
            *final(self) == (Bus { irq_interrupt: None, ..*old(self) }),
    {
        let r = self.irq_interrupt;
        self.irq_interrupt = None;
        r
    }

    /// Hand over the frame-complete signal, clearing it.
    pub fn poll_frame_complete(&mut self) -> (r: bool)
        ensures
            r == old(self).frame_complete,
            *final(self) == (Bus { frame_complete: false, ..*old(self) }),
    {
        let r = self.frame_complete;
        self.frame_complete = false;
        r
    }

    /// A read with no side effects: RAM and patched PRG respond, all other
    /// regions read as zero. Breakpoints are not consulted.
    pub fn mem_read_readonly(&self, addr: u16) -> (r: u8)
        requires
            bus_wf(*self),
        ensures
            r == bus_readonly_byte(*self, addr),
    {
        if addr < 0x2000 {
            let mirror_down_addr = (addr % 0x800) as usize;
            self.cpu_vram[mirror_down_addr]
        } else if addr >= 0x8000 {
            self.read_prg_rom(addr)
        } else {
            0
        }
    }

    /// CPU read dispatch. RAM and PRG respond with their (patched) bytes;
    /// PPU register 2 and 7 reads and the $4015/$4016/$4017 reads have
    /// their documented side effects; write-only and unmapped addresses
    /// read as zero. A read breakpoint at `addr` pauses the debugger.
    #[verifier::rlimit(100)]
    #[verifier::spinoff_prover]
    pub fn mem_read(&mut self, addr: u16) -> (r: u8)
        requires
            bus_wf(*old(self)),
        ensures
            bus_wf(*final(self)),
            final(self).debugger.breakpoints == old(self).debugger.breakpoints,
            final(self).debugger.paused == (old(self).debugger.paused || (bp_lookup(
                old(self).debugger.breakpoints@,
                addr,
            ) matches Some(bp) && bp.on_read)),
            final(self).cpu_vram == old(self).cpu_vram,
            final(self).rom == old(self).rom,
            final(self).cycles == old(self).cycles,
            final(self).nmi_interrupt == old(self).nmi_interrupt,
            final(self).irq_interrupt == old(self).irq_interrupt,
            final(self).game_genie_codes == old(self).game_genie_codes,
            final(self).frame_complete == old(self).frame_complete,
            final(self).apu.sample_buffer@ == old(self).apu.sample_buffer@,
            passive_addr(addr) ==> r == bus_readonly_byte(*old(self), addr) && final(self).ppu
                == old(self).ppu && final(self).apu == old(self).apu && final(self).joypad1 == old(self).joypad1 && final(self).joypad2 == old(self).joypad2,
            0x2000 <= addr < 0x4000 ==> final(self).apu == old(self).apu && final(self).joypad1
                == old(self).joypad1 && final(self).joypad2 == old(self).joypad2 && {
                let p = old(self).ppu;
                if addr % 8 == 2 {
                    r == p.status.bits && final(self).ppu == (NesPPU {
                        status: crate::ppu::StatusRegister { bits: p.status.bits & 0x7F },
                        addr: crate::ppu::AddrRegister { write_latch: false, ..p.addr },
                        scroll: crate::ppu::ScrollRegister { write_latch: false, ..p.scroll },
                        ..p
                    })
                } else if addr % 8 == 7 {
                    &&& final(self).ppu == (NesPPU {
                        internal_data_buf: final(self).ppu.internal_data_buf,
                        addr: final(self).ppu.addr,
                        ..p
                    })
                    &&& final(self).ppu.addr.value == (p.addr.value + ctrl_vram_increment(
                        p.ctrl.bits,
                    )) % 0x4000
                    &&& final(self).ppu.addr.write_latch == p.addr.write_latch
                    &&& if p.addr.value < 0x2000 {
                        r == p.internal_data_buf && final(self).ppu.internal_data_buf == chr_byte(
                            p.chr_rom@,
                            p.addr.value,
                        )
                    } else if p.addr.value < 0x3F00 {
                        r == p.internal_data_buf && final(self).ppu.internal_data_buf
                            == p.vram@[mirror_vram(p.mirroring, p.addr.value)]
                    } else {
                        r == p.palette_table@[palette_index(p.addr.value)]
                            && final(self).ppu.internal_data_buf == p.vram@[mirror_vram(
                            p.mirroring,
                            p.addr.value,
                        )]
                    }
                } else {
                    r == 0 && final(self).ppu == p
                }
            },
            addr == 0x4015 ==> r == apu_status_byte(apu_core(old(self).apu)) && apu_core(
                final(self).apu,
            ) == (ApuCore { frame_interrupt: false, ..apu_core(old(self).apu) }) && final(self).ppu
                == old(self).ppu && final(self).joypad1 == old(self).joypad1 && final(self).joypad2
                == old(self).joypad2,
            addr == 0x4016 || addr == 0x4017 ==> final(self).ppu == old(self).ppu && final(self).apu == old(self).apu && {
                let j = if addr == 0x4016 { old(self).joypad1 } else { old(self).joypad2 };
                let j2 = if addr == 0x4016 { final(self).joypad1 } else { final(self).joypad2 };
                &&& if addr == 0x4016 {
                    final(self).joypad2 == old(self).joypad2
                } else {
                    final(self).joypad1 == old(self).joypad1
                }
                &&& if j.button_index > 7 {
                    r == 0x41 && j2 == j
                } else {
                    r == 0x40 | ((j.latched_status >> j.button_index) & 1) && j2 == (Joypad {
                        button_index: if j.strobe {
                            j.button_index
                        } else {
                            (j.button_index + 1) as u8
                        },
                        ..j
                    })
                }
            },
            0x4000 <= addr < 0x8000 && addr != 0x4015 && addr != 0x4016 && addr != 0x4017 ==> r
                == 0 && final(self).ppu == old(self).ppu && final(self).apu == old(self).apu
                && final(self).joypad1 == old(self).joypad1 && final(self).joypad2 == old(self).joypad2,
    {
        self.debugger.check_read(addr);

        if addr < 0x2000 {
            let mirror_down_addr = (addr % 0x800) as usize;
            self.cpu_vram[mirror_down_addr]
        } else if addr < 0x4000 {
            let reg = addr % 8;
            if reg == 2 {
                self.ppu.read_status()
            } else if reg == 7 {
                self.ppu.read_data()
            } else {
                0
            }
        } else if addr == 0x4015 {
            self.apu.mem_read(addr)
        } else if addr == 0x4016 {
            self.joypad1.read()
        } else if addr == 0x4017 {
            self.joypad2.read()
        } else if addr >= 0x8000 {
            self.read_prg_rom(addr)
        } else {
            0
        }
    }

    /// Two reads through `mem_read`, little endian.
    pub fn mem_read_u16(&mut self, pos: u16) -> (r: u16)
        requires
            bus_wf(*old(self)),
            pos < 0xFFFF,
        ensures
            bus_wf(*final(self)),
            passive_addr(pos) && passive_addr((pos + 1) as u16) ==> r == bus_readonly_byte(
                *old(self),
                pos,
            ) + bus_readonly_byte(*old(self), (pos + 1) as u16) * 0x100 && *final(self) == (Bus {
                debugger: final(self).debugger,
                ..*old(self)
            }),
            final(self).debugger.breakpoints == old(self).debugger.breakpoints,
    {
        let lo = self.mem_read(pos) as u16;
        let hi = self.mem_read(pos + 1) as u16;
        hi * 0x100 + lo
    }

    /// Two side-effect-free reads, little endian.
    pub fn mem_read_u16_readonly(&self, pos: u16) -> (r: u16)
        requires
            bus_wf(*self),
            pos < 0xFFFF,
        ensures
            r == bus_readonly_byte(*self, pos) + bus_readonly_byte(
                *self,
                (pos + 1) as u16,
            ) * 0x100,
    {
        let lo = self.mem_read_readonly(pos) as u16;
        let hi = self.mem_read_readonly(pos + 1) as u16;
        hi * 0x100 + lo
    }

    /// OAM DMA: copy one CPU page into OAM at the OAM pointer (wrapping),
    /// then stall the machine for exactly 513 CPU cycles.
    pub fn dma_transfer(&mut self, page: u8)
        requires
            bus_wf(*old(self)),
            old(self).cycles + 513 <= u64::MAX,
        ensures
            bus_wf(*final(self)),
            bus_dma_rel(*old(self), *final(self), page),
            final(self).cycles == old(self).cycles + 513,
            final(self).debugger == old(self).debugger,
    {
        let base: u16 = (page as u16) * 256;
        let mut data: Vec<u8> = Vec::new();
        let mut i: usize = 0;
        while i < 256
            invariant
                bus_wf(*self),
                *self == *old(self),
                base == page * 256,
                i <= 256,
                data@.len() == i,
                forall|k: int|
                    0 <= k < i ==> data@[k] == #[trigger] bus_readonly_byte(
                        *self,
                        (page * 256 + k) as u16,
                    ),
            decreases 256 - i,
        {
            data.push(self.mem_read_readonly(base + i as u16));
            i += 1;
        }
        self.ppu.write_oam_dma(&data);
        let ghost mid = self.ppu;
        self.tick(513);
        proof {
            assert(dma_step(*old(self), mid, *self, page));
        }
    }

    /// CPU write dispatch. RAM and PPU/APU registers take the byte with
    /// their documented effects; $4014 starts OAM DMA; $4016 strobes both
    /// controllers; PRG and unmapped addresses ignore the write. A write
    /// breakpoint at `addr` pauses the debugger.
    #[verifier::rlimit(100)]
    #[verifier::spinoff_prover]
    pub fn mem_write(&mut self, addr: u16, data: u8)
        requires
            bus_wf(*old(self)),
            addr == 0x4014 ==> old(self).cycles + 513 <= u64::MAX,
        ensures
            bus_wf(*final(self)),
            final(self).debugger.breakpoints == old(self).debugger.breakpoints,
            final(self).debugger.paused == (old(self).debugger.paused || (bp_lookup(
                old(self).debugger.breakpoints@,
                addr,
            ) matches Some(bp) && bp.on_write)),
            final(self).rom == old(self).rom,
            final(self).game_genie_codes == old(self).game_genie_codes,
            addr != 0x4014 ==> final(self).cycles == old(self).cycles && final(self).nmi_interrupt
                == old(self).nmi_interrupt && final(self).irq_interrupt == old(self).irq_interrupt
                && final(self).frame_complete == old(self).frame_complete && final(self).apu.sample_buffer@ == old(self).apu.sample_buffer@,
            addr < 0x2000 ==> final(self).cpu_vram@ == old(self).cpu_vram@.update(
                (addr % 0x800) as int,
                data,
            ) && final(self).ppu == old(self).ppu && final(self).apu == old(self).apu && final(self).joypad1 == old(self).joypad1 && final(self).joypad2 == old(self).joypad2,
            addr >= 0x2000 ==> final(self).cpu_vram == old(self).cpu_vram,
            0x2000 <= addr < 0x4000 ==> final(self).apu == old(self).apu && final(self).joypad1
                == old(self).joypad1 && final(self).joypad2 == old(self).joypad2 && {
                let p = old(self).ppu;
                let q = final(self).ppu;
                if addr % 8 == 0 {
                    &&& q == (NesPPU {
                        ctrl: crate::ppu::ControlRegister { bits: data },
                        nmi_interrupt: q.nmi_interrupt,
                        ..p
                    })
                    &&& q.nmi_interrupt == if p.ctrl.bits & 0x80 == 0 && data & 0x80 != 0
                        && p.status.bits & 0x80 != 0 {
                        Some(1u8)
                    } else {
                        p.nmi_interrupt
                    }
                } else if addr % 8 == 1 {
                    q == (NesPPU { mask: crate::ppu::MaskRegister { bits: data }, ..p })
                } else if addr % 8 == 3 {
                    q == (NesPPU { oam_addr: data, ..p })
                } else if addr % 8 == 4 {
                    q == (NesPPU {
                        oam_data: q.oam_data,
                        oam_addr: ((p.oam_addr + 1) % 256) as u8,
                        ..p
                    }) && q.oam_data@ == p.oam_data@.update(p.oam_addr as int, data)
                } else if addr % 8 == 5 {
                    q == (NesPPU {
                        scroll: crate::ppu::ScrollRegister {
                            scroll_x: if p.scroll.write_latch { p.scroll.scroll_x } else { data },
                            scroll_y: if p.scroll.write_latch { data } else { p.scroll.scroll_y },
                            write_latch: !p.scroll.write_latch,
                        },
                        ..p
                    })
                } else if addr % 8 == 6 {
                    q == (NesPPU {
                        addr: crate::ppu::AddrRegister {
                            value: addr_after_update(p.addr.value, p.addr.write_latch, data),
                            write_latch: !p.addr.write_latch,
                        },
                        ..p
                    })
                } else if addr % 8 == 7 {
                    &&& q == (NesPPU {
                        vram: q.vram,
                        palette_table: q.palette_table,
                        addr: crate::ppu::AddrRegister {
                            value: ((p.addr.value + ctrl_vram_increment(p.ctrl.bits))
                                % 0x4000) as u16,
                            write_latch: p.addr.write_latch,
                        },
                        ..p
                    })
                    &&& if p.addr.value < 0x2000 {
                        q.vram@ == p.vram@ && q.palette_table@ == p.palette_table@
                    } else if p.addr.value < 0x3F00 {
                        q.vram@ == p.vram@.update(mirror_vram(p.mirroring, p.addr.value), data)
                            && q.palette_table@ == p.palette_table@
                    } else {
                        q.palette_table@ == p.palette_table@.update(
                            palette_index(p.addr.value),
                            data,
                        ) && q.vram@ == p.vram@
                    }
                } else {
                    q == p
                }
            },
            (0x4000 <= addr <= 0x4013) || addr == 0x4015 || addr == 0x4017 ==> apu_core(
                final(self).apu,
            ) == apu_after_write(apu_core(old(self).apu), addr, data) && final(self).ppu == old(self).ppu && final(self).joypad1 == old(self).joypad1 && final(self).joypad2 == old(self).joypad2,
            addr == 0x4014 ==> bus_dma_rel(
                (Bus { debugger: final(self).debugger, ..*old(self) }),
                *final(self),
                data,
            ),
            addr == 0x4016 ==> final(self).ppu == old(self).ppu && final(self).apu == old(self).apu && final(self).joypad1 == (Joypad {
                strobe: data & 1 == 1,
                button_index: if data & 1 == 1 { 0u8 } else { old(self).joypad1.button_index },
                latched_status: if data & 1 == 1 {
                    old(self).joypad1.button_status
                } else {
                    old(self).joypad1.latched_status
                },
                ..old(self).joypad1
            }) && final(self).joypad2 == (Joypad {
                strobe: data & 1 == 1,
                button_index: if data & 1 == 1 { 0u8 } else { old(self).joypad2.button_index },
                latched_status: if data & 1 == 1 {
                    old(self).joypad2.button_status
                } else {
                    old(self).joypad2.latched_status
                },
                ..old(self).joypad2
            }),
            addr >= 0x8000 || (0x4018 <= addr < 0x8000 && addr != 0x4014 && addr != 0x4016
                && addr != 0x4017) ==> final(self).ppu == old(self).ppu && final(self).apu == old(self).apu && final(self).joypad1 == old(self).joypad1 && final(self).joypad2 == old(self).joypad2,
    {
        self.debugger.check_write(addr, data);

        if addr < 0x2000 {
            let mirror_down_addr = (addr % 0x800) as usize;
            self.cpu_vram[mirror_down_addr] = data;
        } else if addr < 0x4000 {
            let reg = addr % 8;
            if reg == 0 {
                self.ppu.write_to_ctrl(data);
            } else if reg == 1 {
                self.ppu.write_to_mask(data);
            } else if reg == 3 {
                self.ppu.write_to_oam_addr(data);
            } else if reg == 4 {
                self.ppu.write_to_oam_data(data);
            } else if reg == 5 {
                self.ppu.write_to_scroll(data);
            } else if reg == 6 {
                self.ppu.write_to_ppu_addr(data);
            } else if reg == 7 {
                self.ppu.write_to_data(data);
            }
        } else if addr <= 0x4013 || addr == 0x4015 || addr == 0x4017 {
            self.apu.mem_write(addr, data);
        } else if addr == 0x4014 {
            self.dma_transfer(data);
        } else if addr == 0x4016 {
            self.joypad1.write(data);
            self.joypad2.write(data);
        }
    }

    /// Two writes through `mem_write`, little endian.
    pub fn mem_write_u16(&mut self, pos: u16, data: u16)
        requires
            bus_wf(*old(self)),
            pos < 0xFFFF,
            old(self).cycles + 1026 <= u64::MAX,
        ensures
            bus_wf(*final(self)),
            final(self).rom == old(self).rom,
            final(self).game_genie_codes == old(self).game_genie_codes,
            passive_addr(pos) && passive_addr((pos + 1) as u16) ==> *final(self) == (Bus {
                cpu_vram: final(self).cpu_vram,
                debugger: final(self).debugger,
                ..*old(self)
            }),
            pos < 0x2000 && pos + 1 < 0x2000 ==> final(self).cpu_vram@ == old(self).cpu_vram@.update((pos % 0x800) as int, (data % 0x100) as u8).update(
                ((pos + 1) % 0x800) as int,
                (data / 0x100) as u8,
            ),
    {
        let hi = (data / 0x100) as u8;
        let lo = (data % 0x100) as u8;
        self.mem_write(pos, lo);
        self.mem_write(pos + 1, hi);
    }

    pub fn save_state(&self) -> (r: BusState)
        ensures
            bus_matches_state(*self, r),
    {
        BusState {
            cpu_vram: copy_bytes(&self.cpu_vram),
            ppu: self.ppu.save_state(),
            apu: self.apu.save_state(),
            cycles: self.cycles,
            nmi_interrupt: self.nmi_interrupt,
            irq_interrupt: self.irq_interrupt,
            joypad1: self.joypad1.save_state(),
            joypad2: self.joypad2.save_state(),
            game_genie_codes: copy_codes(&self.game_genie_codes),
            debugger: self.debugger.save_state(),
        }
    }

    /// Restore a snapshot. The cartridge (and with it the PPU's CHR and
    /// mirroring) is not part of the snapshot; the APU's sample ring and
    /// the frame-complete flag are transient and simply cleared or kept.
    pub fn load_state(&mut self, state: &BusState)
        requires
            bus_state_wf(*state),
            rom_wf(old(self).rom),
            old(self).rom.prg_rom.len() > 0,
        ensures
            bus_wf(*final(self)),
            bus_matches_state(*final(self), *state),
            final(self).rom == old(self).rom,
            final(self).ppu.chr_rom == old(self).ppu.chr_rom,
            final(self).ppu.mirroring == old(self).ppu.mirroring,
            final(self).apu.sample_buffer@ == Seq::<crate::apu::ApuSample>::empty(),
            final(self).frame_complete == old(self).frame_complete,
    {
        self.cpu_vram = copy_bytes(&state.cpu_vram);
        self.ppu.load_state(&state.ppu);
        self.apu.load_state(&state.apu);
        self.cycles = state.cycles;
        self.nmi_interrupt = state.nmi_interrupt;
        self.irq_interrupt = state.irq_interrupt;
        self.joypad1.load_state(&state.joypad1);
        self.joypad2.load_state(&state.joypad2);
        self.game_genie_codes = copy_codes(&state.game_genie_codes);
        self.debugger.load_state(&state.debugger);
    }
}

/// The OAM image DMA leaves behind, and the 513-cycle stall that follows:
/// `mid` is the PPU just after the OAM copy, before the stall is ticked.
pub open spec fn dma_step(pre: Bus, mid: NesPPU, post: Bus, page: u8) -> bool {
    &&& mid == (NesPPU { oam_data: mid.oam_data, ..pre.ppu })
    &&& mid.oam_data.len() == 256
    &&& (forall|k: int|
        0 <= k < 256 ==> mid.oam_data@[(pre.ppu.oam_addr + k) % 256] == #[trigger] bus_readonly_byte(
            pre,
            (page * 256 + k) as u16,
        ))
    &&& post.cycles == pre.cycles + 513
    &&& apu_core(post.apu) == (ApuCore {
        frame_interrupt: false,
        ..apu_cycles(apu_core(pre.apu), 513)
    })
    &&& post.apu.sample_buffer@ == pre.apu.sample_buffer@ + apu_emitted(apu_core(pre.apu), 513)
    &&& post.irq_interrupt == if apu_cycles(apu_core(pre.apu), 513).frame_interrupt {
        Some(1u8)
    } else {
        pre.irq_interrupt
    }
    &&& post.ppu == (NesPPU { nmi_interrupt: None, ..ppu_after_tick(mid, 1539).0 })
    &&& post.frame_complete == (pre.frame_complete || ppu_after_tick(mid, 1539).1)
    &&& post.nmi_interrupt == if ppu_after_tick(mid, 1539).0.nmi_interrupt is Some {
        Some(1u8)
    } else {
        pre.nmi_interrupt
    }
    &&& post.cpu_vram == pre.cpu_vram
    &&& post.rom == pre.rom
    &&& post.joypad1 == pre.joypad1
    &&& post.joypad2 == pre.joypad2
    &&& post.game_genie_codes == pre.game_genie_codes
}

/// OAM DMA as a relation between the bus before and after (the intermediate
/// OAM image is existentially bound; the debugger is untouched).
pub open spec fn bus_dma_rel(pre: Bus, post: Bus, page: u8) -> bool {
    exists|mid: NesPPU| dma_step(pre, mid, post, page)
}

/// The snapshot carries exactly the mutable machine state of the bus.
pub open spec fn bus_matches_state(b: Bus, s: BusState) -> bool {
    &&& b.cpu_vram@ == s.cpu_vram@
    &&& ppu_matches_state(b.ppu, s.ppu)
    &&& apu_matches_state(apu_core(b.apu), s.apu)
    &&& b.cycles == s.cycles
    &&& b.nmi_interrupt == s.nmi_interrupt
    &&& b.irq_interrupt == s.irq_interrupt
    &&& b.joypad1.strobe == s.joypad1.strobe
    &&& b.joypad1.button_index == s.joypad1.button_index
    &&& b.joypad1.button_status == s.joypad1.button_status
    &&& b.joypad1.latched_status == s.joypad1.latched_status
    &&& b.joypad2.strobe == s.joypad2.strobe
    &&& b.joypad2.button_index == s.joypad2.button_index
    &&& b.joypad2.button_status == s.joypad2.button_status
    &&& b.joypad2.latched_status == s.joypad2.latched_status
    &&& b.game_genie_codes@ == s.game_genie_codes@
    &&& b.debugger.breakpoints@ == s.debugger.breakpoints@
    &&& b.debugger.paused == s.debugger.paused
}

/// The ranges a stored bus snapshot must respect to be loadable.
pub open spec fn bus_state_wf(s: BusState) -> bool {
    &&& s.cpu_vram.len() == 2048
    &&& s.ppu.vram.len() == 2048
    &&& s.ppu.oam_data.len() == 256
    &&& s.ppu.palette_table.len() == 32
    &&& s.ppu.addr_value < 0x4000
    &&& s.ppu.scanline < 262
    &&& s.ppu.cycles < 341
    &&& apu_state_wf(s.apu)
    &&& bp_unique(s.debugger.breakpoints@)
}

/// Element-wise copy of a patch list; entries are plain values.
fn copy_codes(v: &Vec<GameGenieCode>) -> (r: Vec<GameGenieCode>)
    ensures
        r@ == v@,
{
    let mut out: Vec<GameGenieCode> = Vec::new();
    let mut i: usize = 0;
    while i < v.len()
        invariant
            i <= v@.len(),
            out@ == v@.take(i as int),
        decreases v@.len() - i,
    {
        out.push(v[i]);
        assert(out@ =~= v@.take(i + 1));
        i += 1;
    }
    assert(v@.take(v@.len() as int) =~= v@);
    out
}

impl Mem for Bus {
    open spec fn mem_wf(&self) -> bool {
        bus_wf(*self) && self.cycles + 1026 <= u64::MAX
    }

    fn mem_read(&mut self, addr: u16) -> u8 {
        Bus::mem_read(self, addr)
    }

    fn mem_write(&mut self, addr: u16, data: u8) {
        Bus::mem_write(self, addr, data)
    }

    fn mem_read_u16(&mut self, pos: u16) -> u16 {
        Bus::mem_read_u16(self, pos)
    }

    fn mem_write_u16(&mut self, pos: u16, data: u16) {
        Bus::mem_write_u16(self, pos, data)
    }
}

} // verus!
