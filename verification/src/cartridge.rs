//! Cartridge loading: the iNES container format and NROM (mapper 0) reads.

use vstd::prelude::*;

verus! {

/// Nametable mirroring arrangement requested by the cartridge header.
#[derive(Debug, PartialEq, Eq, Structural, Clone, Copy)]
pub enum Mirroring {
    VERTICAL,
    HORIZONTAL,
    FOURSCREEN,
}

/// A loaded cartridge: program ROM, character ROM, mapper id and mirroring.
pub struct Rom {
    pub prg_rom: Vec<u8>,
    pub chr_rom: Vec<u8>,
    pub mapper: u8,
    pub screen_mirroring: Mirroring,
}

pub const PRG_ROM_PAGE_SIZE: usize = 16384;
pub const CHR_ROM_PAGE_SIZE: usize = 8192;

/// The four magic bytes `N` `E` `S` `\x1A` that open every iNES file.
pub open spec fn ines_magic_ok(raw: Seq<u8>) -> bool {
    &&& raw[0] == 0x4Eu8
    &&& raw[1] == 0x45u8
    &&& raw[2] == 0x53u8
    &&& raw[3] == 0x1Au8
}

/// Mapper id: high nibble from header byte 7, low nibble from byte 6.
pub open spec fn ines_mapper(raw: Seq<u8>) -> u8 {
    (raw[7] & 0xF0) | (raw[6] >> 4)
}

/// Header bytes 7 bits 2..3 must be zero; otherwise the file is NES 2.0.
pub open spec fn ines_version(raw: Seq<u8>) -> u8 {
    (raw[7] >> 2) & 0x03
}

pub open spec fn ines_mirroring(raw: Seq<u8>) -> Mirroring {
    if raw[6] & 0x08 != 0 {
        Mirroring::FOURSCREEN
    } else if raw[6] & 0x01 != 0 {
        Mirroring::VERTICAL
    } else {
        Mirroring::HORIZONTAL
    }
}

pub open spec fn ines_prg_size(raw: Seq<u8>) -> int {
    raw[4] * PRG_ROM_PAGE_SIZE
}

pub open spec fn ines_chr_size(raw: Seq<u8>) -> int {
    raw[5] * CHR_ROM_PAGE_SIZE
}

/// Offset of the PRG banks: a 16-byte header, then an optional 512-byte trainer.
pub open spec fn ines_prg_start(raw: Seq<u8>) -> int {
    16 + if raw[6] & 0x04 != 0 { 512int } else { 0int }
}

/// A well-formed file is long enough to hold header, trainer and both bank regions.
pub open spec fn ines_payload_ok(raw: Seq<u8>) -> bool {
    raw.len() >= ines_prg_start(raw) + ines_prg_size(raw) + ines_chr_size(raw)
}

/// Every condition under which a load succeeds.
pub open spec fn ines_accepted(raw: Seq<u8>) -> bool {
    &&& raw.len() >= 16
    &&& ines_magic_ok(raw)
    &&& ines_version(raw) == 0
    &&& ines_mapper(raw) == 0
    &&& ines_payload_ok(raw)
}

/// Structural soundness of a loaded cartridge: whole banks, and a mapper we dispatch on.
pub open spec fn rom_wf(rom: Rom) -> bool {
    &&& rom.mapper == 0
    &&& rom.prg_rom.len() % PRG_ROM_PAGE_SIZE == 0
    &&& rom.chr_rom.len() % CHR_ROM_PAGE_SIZE == 0
}

/// The byte an NROM cartridge yields for a CPU address in 0x8000..=0xFFFF:
/// a 16 KiB image is mirrored across the 32 KiB window.
pub open spec fn prg_byte(prg: Seq<u8>, addr: u16) -> u8 {
    if prg.len() == PRG_ROM_PAGE_SIZE {
        prg[(addr - 0x8000) % (PRG_ROM_PAGE_SIZE as int)]
    } else {
        prg[addr - 0x8000]
    }
}

impl Rom {
    /// Parse an iNES image. Success exactly when the magic matches, the
    /// version field is plain iNES, the mapper is NROM and the payload holds
    /// the banks the header promises.
    pub fn new(raw: &Vec<u8>) -> (r: Result<Rom, String>)
        ensures
            r is Ok <==> ines_accepted(raw@),
            r matches Ok(rom) ==> {
                &&& rom_wf(rom)
                &&& rom.mapper == ines_mapper(raw@)
                &&& rom.screen_mirroring == ines_mirroring(raw@)
                &&& rom.prg_rom@ == raw@.subrange(
                    ines_prg_start(raw@),
                    ines_prg_start(raw@) + ines_prg_size(raw@),
                )
                &&& rom.chr_rom@ == raw@.subrange(
                    ines_prg_start(raw@) + ines_prg_size(raw@),
                    ines_prg_start(raw@) + ines_prg_size(raw@) + ines_chr_size(raw@),
                )
            },
    {
        if raw.len() < 16 {
            return Err("File is not in iNES file format".to_owned());
        }
        if !(raw[0] == 0x4E && raw[1] == 0x45 && raw[2] == 0x53 && raw[3] == 0x1A) {
            return Err("File is not in iNES file format".to_owned());
        }

        let mapper = (raw[7] & 0xF0) | (raw[6] >> 4);

        let ines_ver = (raw[7] >> 2) & 0x03;
        if ines_ver != 0 {
            return Err("NES2.0 format is not supported".to_owned());
        }
        if mapper != 0 {
            return Err("Mapper is not supported".to_owned());
        }

        let four_screen = raw[6] & 0x08 != 0;
        let vertical_mirroring = raw[6] & 0x01 != 0;
        let screen_mirroring = if four_screen {
            Mirroring::FOURSCREEN
        } else if vertical_mirroring {
            Mirroring::VERTICAL
        } else {
            Mirroring::HORIZONTAL
        };

        let prg_rom_size = raw[4] as usize * PRG_ROM_PAGE_SIZE;
        let chr_rom_size = raw[5] as usize * CHR_ROM_PAGE_SIZE;

        let skip_trainer = raw[6] & 0x04 != 0;
        let prg_rom_start: usize = if skip_trainer { 16 + 512 } else { 16 };

        if raw.len() < prg_rom_start + prg_rom_size + chr_rom_size {
            return Err("File is not in iNES file format".to_owned());
        }

        let prg_rom = copy_range(raw, prg_rom_start, prg_rom_size);
        let chr_rom = copy_range(raw, prg_rom_start + prg_rom_size, chr_rom_size);

        assert(prg_rom@.len() as int % PRG_ROM_PAGE_SIZE as int == 0) by {
            assert(prg_rom@.len() == raw@[4] * PRG_ROM_PAGE_SIZE);
            assert((raw@[4] * PRG_ROM_PAGE_SIZE as int) % PRG_ROM_PAGE_SIZE as int == 0)
                by (nonlinear_arith);
        };
        assert(chr_rom@.len() as int % CHR_ROM_PAGE_SIZE as int == 0) by {
            assert(chr_rom@.len() == raw@[5] * CHR_ROM_PAGE_SIZE);
            assert((raw@[5] * CHR_ROM_PAGE_SIZE as int) % CHR_ROM_PAGE_SIZE as int == 0)
                by (nonlinear_arith);
        };
        Ok(Rom { prg_rom, chr_rom, mapper, screen_mirroring })
    }

    /// NROM program read for the CPU window 0x8000..=0xFFFF.
    pub fn read(&self, addr: u16) -> (r: u8)
        requires
            rom_wf(*self),
            self.prg_rom.len() > 0,
            0x8000 <= addr,
        ensures
            r == prg_byte(self.prg_rom@, addr),
    {
        let mut mapped_addr = (addr - 0x8000) as usize;
        if self.prg_rom.len() == PRG_ROM_PAGE_SIZE {
            mapped_addr = mapped_addr % PRG_ROM_PAGE_SIZE;
        }
        assert(mapped_addr < self.prg_rom.len());
        self.prg_rom[mapped_addr]
    }

    /// NROM program ROM ignores writes; the state is unchanged.
    pub fn write(&mut self, _addr: u16, _data: u8)
        requires
            rom_wf(*old(self)),
        ensures
            *final(self) == *old(self),
    {
    }
}

/// Copy `len` bytes of `src` starting at `start`.
fn copy_range(src: &Vec<u8>, start: usize, len: usize) -> (r: Vec<u8>)
    requires
        start + len <= src.len(),
    ensures
        r@ == src@.subrange(start as int, start as int + len as int),
{
    let mut out: Vec<u8> = Vec::new();
    let mut i: usize = 0;
    while i < len
        invariant
            start + len <= src.len(),
            i <= len,
            out@ == src@.subrange(start as int, start as int + i as int),
        decreases len - i,
    {
        out.push(src[start + i]);
        assert(out@ == src@.subrange(start as int, start as int + (i + 1) as int));
        i += 1;
    }
    out
}

} // verus!
