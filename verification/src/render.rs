//! The frame renderer: one whole-frame pass over background and sprites,
//! run when the PPU signals frame completion.

use vstd::prelude::*;
use crate::frame::{frame_wf, Frame};
use crate::palette::system_palette;
use crate::ppu::{ppu_wf, NesPPU};

verus! {

/// Which of the four background palettes the attribute byte assigns to the
/// 2x2-tile cell holding (tile_column, tile_row).
pub open spec fn attr_palette_index(attr: u8, tile_column: int, tile_row: int) -> u8 {
    if tile_column % 4 < 2 && tile_row % 4 < 2 {
        attr & 0x03
    } else if tile_column % 4 >= 2 && tile_row % 4 < 2 {
        (attr >> 2u8) & 0x03
    } else if tile_column % 4 < 2 {
        (attr >> 4u8) & 0x03
    } else {
        (attr >> 6u8) & 0x03
    }
}

/// The attribute byte governing a tile: one byte per 4x4-tile cell, in the
/// 64-byte block after the nametable.
pub open spec fn attr_byte(p: NesPPU, page_base: int, tile_column: int, tile_row: int) -> u8 {
    p.vram@[page_base + 0x3C0 + tile_row / 4 * 8 + tile_column / 4]
}

/// The four palette-RAM bytes a background tile draws from.
pub open spec fn bg_palette_of(p: NesPPU, page_base: int, tile_column: int, tile_row: int) -> (
    u8,
    u8,
    u8,
    u8,
) {
    let idx = attr_palette_index(attr_byte(p, page_base, tile_column, tile_row), tile_column,
        tile_row);
    (
        p.palette_table@[0],
        p.palette_table@[1 + idx * 4],
        p.palette_table@[2 + idx * 4],
        p.palette_table@[3 + idx * 4],
    )
}

/// The physical VRAM page (0 or 0x400) holding the background tile under
/// world coordinates (world_x, world_y): the scrolled position picks one
/// of the four logical nametables starting from the PPUCTRL base, and
/// mirroring folds it onto a physical page.
pub open spec fn bg_page_base(p: NesPPU, world_x: int, world_y: int) -> int {
    let base_idx: int = if crate::ppu::ctrl_nametable_addr(p.ctrl.bits) == 0x2000 {
        0
    } else if crate::ppu::ctrl_nametable_addr(p.ctrl.bits) == 0x2400 {
        1
    } else if crate::ppu::ctrl_nametable_addr(p.ctrl.bits) == 0x2800 {
        2
    } else {
        3
    };
    let nx = (world_x / 256) % 2;
    let ny = (world_y / 240) % 2;
    let logical: int = if base_idx == 0 {
        ny * 2 + nx
    } else if base_idx == 1 {
        ny * 2 + (1 - nx)
    } else if base_idx == 2 {
        (1 - ny) * 2 + nx
    } else {
        (1 - ny) * 2 + (1 - nx)
    };
    let page: int = match p.mirroring {
        crate::cartridge::Mirroring::VERTICAL => logical % 2,
        crate::cartridge::Mirroring::HORIZONTAL => logical / 2,
        crate::cartridge::Mirroring::FOURSCREEN => 0,
    };
    page * 0x400
}

/// The 2-bit pattern value of the background pixel at world coordinates.
pub open spec fn bg_pixel_value(p: NesPPU, world_x: int, world_y: int) -> u8 {
    let page_base = bg_page_base(p, world_x, world_y);
    let tile_x = (world_x % 256) / 8;
    let tile_y = (world_y % 240) / 8;
    let tile_id = p.vram@[page_base + tile_y * 32 + tile_x];
    let bank: int = if p.ctrl.bits & 0x10 == 0 { 0 } else { 0x1000 };
    let upper = crate::ppu::chr_byte(p.chr_rom@, (bank + tile_id * 16 + world_y % 8) as u16);
    let lower = crate::ppu::chr_byte(p.chr_rom@, (bank + tile_id * 16 + world_y % 8 + 8) as u16);
    let shift = (7 - world_x % 8) as u8;
    (((lower >> shift) & 1) << 1u8) | ((upper >> shift) & 1)
}

/// The RGB triple the background pass writes at screen pixel (x, y):
/// scroll the position, fetch the tile's pattern bits, and map them
/// through the tile's palette into the system palette (value 0 is the
/// backdrop color).
pub open spec fn bg_pixel_rgb(p: NesPPU, x: int, y: int) -> (u8, u8, u8) {
    let wx = x + p.scroll.scroll_x;
    let wy = y + p.scroll.scroll_y;
    let v = bg_pixel_value(p, wx, wy);
    let pal = bg_palette_of(p, bg_page_base(p, wx, wy), (wx % 256) / 8, (wy % 240) / 8);
    if v == 0 {
        crate::palette::system_color(pal.0)
    } else if v == 1 {
        crate::palette::system_color(pal.1)
    } else if v == 2 {
        crate::palette::system_color(pal.2)
    } else {
        crate::palette::system_color(pal.3)
    }
}

/// The background palette for a tile: the backdrop color plus the three
/// colors its attribute cell selects.
pub fn bg_palette(ppu: &NesPPU, page_base: usize, tile_column: usize, tile_row: usize) -> (r: (
    u8,
    u8,
    u8,
    u8,
))
    requires
        ppu_wf(*ppu),
        page_base == 0 || page_base == 0x400,
        tile_column < 32,
        tile_row < 30,
    ensures
        r == bg_palette_of(*ppu, page_base as int, tile_column as int, tile_row as int),
{
    let attr_table_idx = tile_row / 4 * 8 + tile_column / 4;
    let attr = ppu.vram[page_base + 0x3C0 + attr_table_idx];

    let cx = tile_column % 4 < 2;
    let cy = tile_row % 4 < 2;
    let palette_idx: u8 = if cx && cy {
        attr & 0x03
    } else if !cx && cy {
        (attr >> 2u8) & 0x03
    } else if cx {
        (attr >> 4u8) & 0x03
    } else {
        (attr >> 6u8) & 0x03
    };

    proof {
        assert(attr & 0x03 < 4 && (attr >> 2u8) & 0x03 < 4 && (attr >> 4u8) & 0x03 < 4 && (attr
            >> 6u8) & 0x03 < 4) by (bit_vector);
    }
    let start = 1 + (palette_idx as usize) * 4;
    (
        ppu.palette_table[0],
        ppu.palette_table[start],
        ppu.palette_table[start + 1],
        ppu.palette_table[start + 2],
    )
}

/// The four palette-RAM bytes a sprite draws from (entry 0 is the
/// transparent backdrop).
pub open spec fn sprite_palette_of(p: NesPPU, palette_idx: u8) -> (u8, u8, u8, u8) {
    (
        p.palette_table@[0],
        p.palette_table@[0x11 + palette_idx * 4],
        p.palette_table@[0x12 + palette_idx * 4],
        p.palette_table@[0x13 + palette_idx * 4],
    )
}

/// The sprite palette selected by the attribute byte's low two bits.
pub fn sprite_palette(ppu: &NesPPU, palette_idx: u8) -> (r: (u8, u8, u8, u8))
    requires
        ppu_wf(*ppu),
        palette_idx < 4,
    ensures
        r == sprite_palette_of(*ppu, palette_idx),
{
    let start = 0x11 + (palette_idx as usize) * 4;
    (
        ppu.palette_table[0],
        ppu.palette_table[start],
        ppu.palette_table[start + 1],
        ppu.palette_table[start + 2],
    )
}

/// A CHR pattern byte; beyond the image it reads zero.
fn chr_at(ppu: &NesPPU, idx: usize) -> (r: u8)
    requires
        idx < 0x10000,
    ensures
        r == crate::ppu::chr_byte(ppu.chr_rom@, idx as u16),
{
    if idx < ppu.chr_rom.len() {
        ppu.chr_rom[idx]
    } else {
        0
    }
}

/// Render the frame the PPU has just finished: the scrolled background
/// (when enabled), then the sprites in reverse OAM order so that sprite 0
/// lands on top. Color 0 of a sprite is transparent; a frame buffer of the
/// right shape stays that shape.
#[verifier::rlimit(100)]
#[verifier::spinoff_prover]
pub fn render(ppu: &NesPPU, frame: &mut Frame)
    requires
        ppu_wf(*ppu),
        frame_wf(*old(frame)),
    ensures
        frame_wf(*final(frame)),
        ppu.mask.bits & 0x18 == 0 ==> final(frame).data@ == old(frame).data@,
        ppu.mask.bits & 0x08 != 0 && ppu.mask.bits & 0x10 == 0 ==> forall|x: int, y: int|
            0 <= x < 256 && 0 <= y < 240 ==> {
                let base = #[trigger] crate::frame::pixel_base(x, y);
                &&& final(frame).data@[base] == bg_pixel_rgb(*ppu, x, y).0
                &&& final(frame).data@[base + 1] == bg_pixel_rgb(*ppu, x, y).1
                &&& final(frame).data@[base + 2] == bg_pixel_rgb(*ppu, x, y).2
            },
{
    proof {
        let m = ppu.mask.bits;
        assert(m & 0x18 == 0 ==> m & 0x08 == 0 && m & 0x10 == 0) by (bit_vector);
    }
    let scroll_x = ppu.scroll.scroll_x as usize;
    let scroll_y = ppu.scroll.scroll_y as usize;

    if ppu.mask.show_background() {
        let base_nametable_addr = ppu.ctrl.nametable_addr();
        let base_idx: usize = if base_nametable_addr == 0x2000 {
            0
        } else if base_nametable_addr == 0x2400 {
            1
        } else if base_nametable_addr == 0x2800 {
            2
        } else {
            3
        };

        let ghost start = old(frame).data@;
        let mut y: usize = 0;
        while y < 240
            invariant
                ppu_wf(*ppu),
                frame_wf(*frame),
                scroll_x == ppu.scroll.scroll_x,
                scroll_y == ppu.scroll.scroll_y,
                base_idx < 4,
                base_idx == 0 <==> crate::ppu::ctrl_nametable_addr(ppu.ctrl.bits) == 0x2000,
                base_idx == 1 <==> crate::ppu::ctrl_nametable_addr(ppu.ctrl.bits) == 0x2400,
                base_idx == 2 <==> crate::ppu::ctrl_nametable_addr(ppu.ctrl.bits) == 0x2800,
                y <= 240,
                forall|x2: int, y2: int|
                    0 <= x2 < 256 && 0 <= y2 < y ==> {
                        let base = #[trigger] crate::frame::pixel_base(x2, y2);
                        &&& frame.data@[base] == bg_pixel_rgb(*ppu, x2, y2).0
                        &&& frame.data@[base + 1] == bg_pixel_rgb(*ppu, x2, y2).1
                        &&& frame.data@[base + 2] == bg_pixel_rgb(*ppu, x2, y2).2
                    },
                forall|i: int| 768 * y <= i < 184320 ==> frame.data@[i] == start[i],
            decreases 240 - y,
        {
            let mut x: usize = 0;
            while x < 256
                invariant
                    ppu_wf(*ppu),
                    frame_wf(*frame),
                    scroll_x == ppu.scroll.scroll_x,
                    scroll_y == ppu.scroll.scroll_y,
                    base_idx < 4,
                    base_idx == 0 <==> crate::ppu::ctrl_nametable_addr(ppu.ctrl.bits) == 0x2000,
                    base_idx == 1 <==> crate::ppu::ctrl_nametable_addr(ppu.ctrl.bits) == 0x2400,
                    base_idx == 2 <==> crate::ppu::ctrl_nametable_addr(ppu.ctrl.bits) == 0x2800,
                    y < 240,
                    x <= 256,
                    forall|x2: int, y2: int|
                        0 <= x2 < 256 && 0 <= y2 < 240 && (y2 < y || (y2 == y && x2 < x)) ==> {
                            let base = #[trigger] crate::frame::pixel_base(x2, y2);
                            &&& frame.data@[base] == bg_pixel_rgb(*ppu, x2, y2).0
                            &&& frame.data@[base + 1] == bg_pixel_rgb(*ppu, x2, y2).1
                            &&& frame.data@[base + 2] == bg_pixel_rgb(*ppu, x2, y2).2
                        },
                    forall|i: int| 768 * y + 3 * x <= i < 184320 ==> frame.data@[i] == start[i],
                decreases 256 - x,
            {
                let world_x = x + scroll_x;
                let world_y = y + scroll_y;

                let nametable_x = (world_x / 256) % 2;
                let nametable_y = (world_y / 240) % 2;

                // The four logical nametables form a 2x2 grid; scrolling
                // wraps around starting from the base selected by PPUCTRL.
                let nametable_idx: usize = if base_idx == 0 {
                    nametable_y * 2 + nametable_x
                } else if base_idx == 1 {
                    nametable_y * 2 + (1 - nametable_x)
                } else if base_idx == 2 {
                    (1 - nametable_y) * 2 + nametable_x
                } else {
                    (1 - nametable_y) * 2 + (1 - nametable_x)
                };

                let page_idx: usize = match ppu.mirroring {
                    crate::cartridge::Mirroring::VERTICAL => nametable_idx % 2,
                    crate::cartridge::Mirroring::HORIZONTAL => nametable_idx / 2,
                    crate::cartridge::Mirroring::FOURSCREEN => 0,
                };
                let page_base = page_idx * 0x400;

                let tile_x = (world_x % 256) / 8;
                let tile_y = (world_y % 240) / 8;
                let tile_id = ppu.vram[page_base + tile_y * 32 + tile_x] as usize;
                let bank = ppu.ctrl.background_pattern_addr() as usize;

                let palette = bg_palette(ppu, page_base, tile_x, tile_y);

                let pixel_in_tile_x = world_x % 8;
                let pixel_in_tile_y = world_y % 8;

                let upper = chr_at(ppu, bank + tile_id * 16 + pixel_in_tile_y);
                let lower = chr_at(ppu, bank + tile_id * 16 + pixel_in_tile_y + 8);

                let shift = (7 - pixel_in_tile_x) as u8;
                let value = (((lower >> shift) & 1) << 1u8) | ((upper >> shift) & 1);

                let color = if value == 0 {
                    system_palette(palette.0)
                } else if value == 1 {
                    system_palette(palette.1)
                } else if value == 2 {
                    system_palette(palette.2)
                } else {
                    system_palette(palette.3)
                };
                proof {
                    assert(color == bg_pixel_rgb(*ppu, x as int, y as int));
                }
                frame.set_pixel(x, y, color);
                x += 1;
            }
            y += 1;
        }
    }

    if ppu.mask.show_sprites() {
        // Walk OAM back to front so sprite 0 is drawn on top.
        let mut i: usize = 0;
        while i < 64
            invariant
                ppu_wf(*ppu),
                frame_wf(*frame),
            decreases 64 - i,
        {
            let base = (63 - i) * 4;
            let tile_y = ppu.oam_data[base] as usize;
            let tile_idx = ppu.oam_data[base + 1] as usize;
            let attributes = ppu.oam_data[base + 2];
            let tile_x = ppu.oam_data[base + 3] as usize;

            if tile_y < 239 {
                let flip_vertical = (attributes >> 7u8) & 1 == 1;
                let flip_horizontal = (attributes >> 6u8) & 1 == 1;
                let palette_idx = attributes & 0x03;
                proof {
                    assert(attributes & 0x03 < 4) by (bit_vector);
                }
                let palette = sprite_palette(ppu, palette_idx);
                let bank = ppu.ctrl.sprite_pattern_addr() as usize;

                let mut yy: usize = 0;
                while yy < 8
                    invariant
                        ppu_wf(*ppu),
                        frame_wf(*frame),
                        tile_x < 256,
                        tile_y < 239,
                        tile_idx < 256,
                        palette_idx < 4,
                        bank == 0 || bank == 0x1000,
                    decreases 8 - yy,
                {
                    let upper = chr_at(ppu, bank + tile_idx * 16 + yy);
                    let lower = chr_at(ppu, bank + tile_idx * 16 + yy + 8);
                    let mut xx: usize = 0;
                    while xx < 8
                        invariant
                            ppu_wf(*ppu),
                            frame_wf(*frame),
                            tile_x < 256,
                            tile_y < 239,
                            yy < 8,
                        decreases 8 - xx,
                    {
                        let shift = (7 - xx) as u8;
                        let value = (((lower >> shift) & 1) << 1u8) | ((upper >> shift) & 1);
                        if value != 0 {
                            let color = if value == 1 {
                                system_palette(palette.1)
                            } else if value == 2 {
                                system_palette(palette.2)
                            } else {
                                system_palette(palette.3)
                            };
                            let pixel_x = if flip_horizontal {
                                tile_x + 7 - xx
                            } else {
                                tile_x + xx
                            };
                            let pixel_y = if flip_vertical {
                                tile_y + 7 - yy
                            } else {
                                tile_y + yy
                            };
                            if pixel_x < 256 && pixel_y < 240 {
                                frame.set_pixel(pixel_x, pixel_y, color);
                            }
                        }
                        xx += 1;
                    }
                    yy += 1;
                }
            }
            i += 1;
        }
    }
}

} // verus!
