//! The video unit: its registers, the scanline state machine and the
//! renderers that turn video memory into one line of pixels.
use crate::arm7tdmi::arm::Addr;
use crate::interrupt::{Interrupt, IrqBitmask};
use crate::memory::{lemma_halfword_bytes, mem_read_16, mem_read_8, read_16, read_8};
use crate::palette::{PixelFormat, Rgb15};
use crate::timer::sat_add_usize;
use vstd::prelude::*;

verus! {

pub const VRAM_ADDR: Addr = 0x0600_0000;

pub const SCREEN_BLOCK_SIZE: u32 = 0x800;

pub const DISPLAY_WIDTH: usize = 240;

pub const DISPLAY_HEIGHT: usize = 160;

pub const CYCLES_PIXEL: usize = 4;

pub const CYCLES_HDRAW: usize = 960;

pub const CYCLES_HBLANK: usize = 272;

pub const CYCLES_SCANLINE: usize = 1232;

pub const CYCLES_VDRAW: usize = 197120;

pub const CYCLES_VBLANK: usize = 83776;

pub const TILE_SIZE: u32 = 0x20;

/// The number of pixels of a frame.
pub const FRAME_PIXELS: usize = 38400;

/// DISPCNT. Bits 2..0 select the video mode, bit 4 the bitmap page, bits
/// 11..8 switch the four backgrounds on.
#[derive(Debug, Clone, Copy, PartialEq, Eq, Structural)]
pub struct DisplayControl(pub u16);

impl DisplayControl {
    pub open spec fn spec_mode(self) -> u16 {
        self.0 & 7
    }

    pub open spec fn spec_display_frame(self) -> bool {
        self.0 & 0x10 != 0
    }

    pub open spec fn spec_disp_bg(self, bg: int) -> bool {
        self.0 & (0x100u16 << (bg as u16)) != 0
    }

    pub fn mode(&self) -> (r: u16)
        ensures
            r == self.spec_mode(),
    {
        self.0 & 7
    }

    pub fn display_frame(&self) -> (r: bool)
        ensures
            r == self.spec_display_frame(),
    {
        self.0 & 0x10 != 0
    }

    pub fn disp_bg(&self, bg: usize) -> (r: bool)
        requires
            bg < 8,
        ensures
            r == self.spec_disp_bg(bg as int),
    {
        self.0 & (0x100u16 << (bg as u16)) != 0
    }
}

/// DISPSTAT, held field by field: the three status flags, the three
/// interrupt enables and the scanline that the counter is compared with.
#[derive(Debug, Clone, Copy, PartialEq, Eq, Structural)]
pub struct DisplayStatus {
    pub vblank: bool,
    pub hblank: bool,
    pub vcount: bool,
    pub vblank_irq_enable: bool,
    pub hblank_irq_enable: bool,
    pub vcount_irq_enable: bool,
    pub vcount_setting: u8,
}

pub open spec fn flag16(set: bool, mask: u16) -> u16 {
    if set {
        mask
    } else {
        0
    }
}

impl DisplayStatus {
    /// The halfword that the register reads as: the flags in bits 0..2, the
    /// enables in bits 3..5, the compare value in bits 15..8.
    pub open spec fn spec_get(self) -> u16 {
        flag16(self.vblank, 0x01) | flag16(self.hblank, 0x02) | flag16(self.vcount, 0x04) | flag16(
            self.vblank_irq_enable,
            0x08,
        ) | flag16(self.hblank_irq_enable, 0x10) | flag16(self.vcount_irq_enable, 0x20) | ((
        self.vcount_setting as u16) << 8u16)
    }

    /// The register after a write of `value`: the enables and the compare
    /// value are taken from it, the status flags stay.
    pub open spec fn spec_written(self, value: u16) -> DisplayStatus {
        DisplayStatus {
            vblank_irq_enable: value & 0x08 != 0,
            hblank_irq_enable: value & 0x10 != 0,
            vcount_irq_enable: value & 0x20 != 0,
            vcount_setting: (value >> 8u16) as u8,
            ..self
        }
    }

    /// The register with every bit clear.
    pub open spec fn spec_new() -> DisplayStatus {
        DisplayStatus {
            vblank: false,
            hblank: false,
            vcount: false,
            vblank_irq_enable: false,
            hblank_irq_enable: false,
            vcount_irq_enable: false,
            vcount_setting: 0,
        }
    }

    pub fn new() -> (r: DisplayStatus)
        ensures
            r == DisplayStatus::spec_new(),
    {
        DisplayStatus {
            vblank: false,
            hblank: false,
            vcount: false,
            vblank_irq_enable: false,
            hblank_irq_enable: false,
            vcount_irq_enable: false,
            vcount_setting: 0,
        }
    }

    pub fn get(&self) -> (r: u16)
        ensures
            r == self.spec_get(),
    {
        let a: u16 = if self.vblank { 0x01 } else { 0 };
        let b: u16 = if self.hblank { 0x02 } else { 0 };
        let c: u16 = if self.vcount { 0x04 } else { 0 };
        let d: u16 = if self.vblank_irq_enable { 0x08 } else { 0 };
        let e: u16 = if self.hblank_irq_enable { 0x10 } else { 0 };
        let f: u16 = if self.vcount_irq_enable { 0x20 } else { 0 };
        a | b | c | d | e | f | ((self.vcount_setting as u16) << 8u16)
    }

    pub fn write(&mut self, value: u16)
        ensures
            *final(self) == old(self).spec_written(value),
    {
        proof {
            lemma_halfword_bytes(value, 0, 0);
        }
        self.vblank_irq_enable = value & 0x08 != 0;
        self.hblank_irq_enable = value & 0x10 != 0;
        self.vcount_irq_enable = value & 0x20 != 0;
        self.vcount_setting = (value >> 8u16) as u8;
    }
}

/// BGxCNT. Bits 1..0 give the priority, bits 3..2 the block of tile data,
/// bit 7 the colour depth, bits 12..8 the block of the tile map, bits 15..14
/// the size.
#[derive(Debug, Clone, Copy, PartialEq, Eq, Structural)]
pub struct BgControl(pub u16);

proof fn lemma_bg_fields(x: u16)
    by (bit_vector)
    ensures
        x & 3 < 4,
        (x >> 2u16) & 3 < 4,
        (x >> 8u16) & 0x1f < 32,
        x >> 14u16 < 4,
        x & 0x3ff < 0x400,
        x >> 12u16 < 16,
{
}

impl BgControl {
    pub open spec fn spec_priority(self) -> u16 {
        self.0 & 3
    }

    pub open spec fn spec_character_base_block(self) -> u16 {
        (self.0 >> 2u16) & 3
    }

    pub open spec fn spec_palette256(self) -> bool {
        self.0 & 0x80 != 0
    }

    pub open spec fn spec_screen_base_block(self) -> u16 {
        (self.0 >> 8u16) & 0x1f
    }

    pub open spec fn spec_bg_size(self) -> u16 {
        self.0 >> 14u16
    }

    /// The bus address of the tile data: 16 KiB for each block.
    pub open spec fn spec_char_block(self) -> Addr {
        (VRAM_ADDR + self.spec_character_base_block() * 0x4000) as u32
    }

    /// The bus address of the tile map: 2 KiB for each block.
    pub open spec fn spec_screen_block(self) -> Addr {
        (VRAM_ADDR + self.spec_screen_base_block() * 0x800) as u32
    }

    /// Width and height in pixels of a text background.
    pub open spec fn spec_size_regular(self) -> (u32, u32) {
        let size = self.spec_bg_size();
        if size == 0 {
            (256, 256)
        } else if size == 1 {
            (512, 256)
        } else if size == 2 {
            (256, 512)
        } else {
            (512, 512)
        }
    }

    /// The bytes of one tile and the pixel format: 64 bytes at eight bits a
    /// pixel, 32 bytes at four.
    pub open spec fn spec_tile_format(self) -> (u32, PixelFormat) {
        if self.spec_palette256() {
            (64, PixelFormat::BPP8)
        } else {
            (32, PixelFormat::BPP4)
        }
    }

    pub fn bg_priority(&self) -> (r: u16)
        ensures
            r == self.spec_priority(),
            r < 4,
    {
        proof {
            lemma_bg_fields(self.0);
        }
        self.0 & 3
    }

    pub fn character_base_block(&self) -> (r: u16)
        ensures
            r == self.spec_character_base_block(),
            r < 4,
    {
        proof {
            lemma_bg_fields(self.0);
        }
        (self.0 >> 2u16) & 3
    }

    pub fn palette256(&self) -> (r: bool)
        ensures
            r == self.spec_palette256(),
    {
        self.0 & 0x80 != 0
    }

    pub fn screen_base_block(&self) -> (r: u16)
        ensures
            r == self.spec_screen_base_block(),
            r < 32,
    {
        proof {
            lemma_bg_fields(self.0);
        }
        (self.0 >> 8u16) & 0x1f
    }

    pub fn bg_size(&self) -> (r: u16)
        ensures
            r == self.spec_bg_size(),
            r < 4,
    {
        proof {
            lemma_bg_fields(self.0);
        }
        self.0 >> 14u16
    }

    pub fn char_block(&self) -> (r: Addr)
        ensures
            r == self.spec_char_block(),
            r == VRAM_ADDR + self.spec_character_base_block() * 0x4000,
    {
        VRAM_ADDR + (self.character_base_block() as u32) * 0x4000
    }

    pub fn screen_block(&self) -> (r: Addr)
        ensures
            r == self.spec_screen_block(),
            r == VRAM_ADDR + self.spec_screen_base_block() * 0x800,
    {
        VRAM_ADDR + (self.screen_base_block() as u32) * SCREEN_BLOCK_SIZE
    }

    pub fn size_regular(&self) -> (r: (u32, u32))
        ensures
            r == self.spec_size_regular(),
    {
        let size = self.bg_size();
        if size == 0 {
            (256, 256)
        } else if size == 1 {
            (512, 256)
        } else if size == 2 {
            (256, 512)
        } else {
            (512, 512)
        }
    }

    pub fn tile_format(&self) -> (r: (u32, PixelFormat))
        ensures
            r == self.spec_tile_format(),
    {
        if self.palette256() {
            (2 * TILE_SIZE, PixelFormat::BPP8)
        } else {
            (TILE_SIZE, PixelFormat::BPP4)
        }
    }
}

#[derive(Debug, Clone, Copy, PartialEq, Eq, Structural)]
pub enum GpuState {
    HDraw,
    HBlank,
    VBlank,
}

impl Default for GpuState {
    fn default() -> (r: GpuState)
        ensures
            r == GpuState::HDraw,
    {
        GpuState::HDraw
    }
}

/// The picture: 160 lines of 240 pixels, line after line.
#[derive(Debug, Clone, Copy)]
pub struct FrameBuffer {
    pub pixels: [Rgb15; 38400],
}

impl FrameBuffer {
    /// The pixel in column `x` of line `y`.
    pub open spec fn at(self, x: int, y: int) -> Rgb15 {
        self.pixels[y * 240 + x]
    }

    pub fn get(&self, index: usize) -> (r: Rgb15)
        requires
            index < 38400,
        ensures
            r == self.pixels[index as int],
    {
        self.pixels[index]
    }
}

/// An entry of a tile map. Bits 9..0 number the tile, bits 10 and 11 flip it
/// horizontally and vertically, bits 15..12 select its 16-colour palette.
#[derive(Debug, Clone, Copy, PartialEq, Eq, Structural)]
pub struct TileMapEntry(pub u16);

impl TileMapEntry {
    pub open spec fn spec_tile_index(self) -> u16 {
        self.0 & 0x3ff
    }

    pub open spec fn spec_x_flip(self) -> bool {
        self.0 & 0x400 != 0
    }

    pub open spec fn spec_y_flip(self) -> bool {
        self.0 & 0x800 != 0
    }

    pub open spec fn spec_palette_bank(self) -> u16 {
        self.0 >> 12u16
    }

    pub fn tile_index(&self) -> (r: u32)
        ensures
            r == self.spec_tile_index(),
            r < 0x400,
    {
        proof {
            lemma_bg_fields(self.0);
        }
        (self.0 & 0x3ff) as u32
    }

    pub fn x_flip(&self) -> (r: bool)
        ensures
            r == self.spec_x_flip(),
    {
        self.0 & 0x400 != 0
    }

    pub fn y_flip(&self) -> (r: bool)
        ensures
            r == self.spec_y_flip(),
    {
        self.0 & 0x800 != 0
    }

    pub fn palette_bank(&self) -> (r: u32)
        ensures
            r == self.spec_palette_bank(),
            r < 16,
    {
        proof {
            lemma_bg_fields(self.0);
        }
        (self.0 >> 12u16) as u32
    }
}

/// The palette index of pixel (`x`, `y`) of the tile stored at `ofs` in
/// video memory. At four bits a pixel a byte holds two pixels, the left one
/// in its low half.
pub open spec fn pixel_index(vram: Seq<u8>, ofs: int, x: int, y: int, format: PixelFormat) -> int {
    match format {
        PixelFormat::BPP4 => {
            let byte = mem_read_8(vram, ofs + y * 4 + x / 2);
            if x % 2 != 0 {
                (byte >> 4u8) as int
            } else {
                (byte & 0xf) as int
            }
        },
        PixelFormat::BPP8 => mem_read_8(vram, ofs + y * 8 + x) as int,
    }
}

/// The colour `index` of the 16-colour palette `bank`.
pub open spec fn palette_color(palette: Seq<u8>, index: int, bank: int) -> Rgb15 {
    Rgb15(mem_read_16(palette, 2 * index + 0x20 * bank))
}

/// Which of the up to four 256x256 blocks of a tile map holds the pixel
/// (`bx`, `by`) of a background of the given size.
pub open spec fn screen_block_index(size: u16, bx: int, by: int) -> int {
    if size == 0 {
        0
    } else if size == 1 {
        bx / 256
    } else if size == 2 {
        by / 256
    } else {
        bx / 256 + 2 * (by / 256)
    }
}

/// The pixel that a text background shows at screen position (`x`, `y`), or
/// `None` where the background is transparent.
///
/// The background is scrolled by (`hofs`, `vofs`) and wraps at its size. Its
/// tile map gives, for each 8x8 tile, the tile's number, whether it is
/// flipped and its palette. Palette index 0 is transparent.
pub open spec fn text_bg_pixel(
    vram: Seq<u8>,
    palette: Seq<u8>,
    cnt: BgControl,
    hofs: u16,
    vofs: u16,
    x: int,
    y: int,
) -> Option<Rgb15> {
    let size = cnt.spec_bg_size();
    let bx = if size == 1 || size == 3 {
        (x + hofs) % 512
    } else {
        (x + hofs) % 256
    };
    let by = if size == 2 || size == 3 {
        (y + vofs) % 512
    } else {
        (y + vofs) % 256
    };
    let map_ofs = cnt.spec_screen_base_block() * 0x800 + 0x800 * screen_block_index(size, bx, by)
        + 2 * (((by % 256) / 8) * 32 + (bx % 256) / 8);
    let entry = TileMapEntry(mem_read_16(vram, map_ofs));
    let px = if entry.spec_x_flip() {
        7 - bx % 8
    } else {
        bx % 8
    };
    let py = if entry.spec_y_flip() {
        7 - by % 8
    } else {
        by % 8
    };
    if cnt.spec_palette256() {
        let index = pixel_index(
            vram,
            cnt.spec_character_base_block() * 0x4000 + entry.spec_tile_index() * 64,
            px,
            py,
            PixelFormat::BPP8,
        );
        if index == 0 {
            None
        } else {
            Some(palette_color(palette, index, 0))
        }
    } else {
        let index = pixel_index(
            vram,
            cnt.spec_character_base_block() * 0x4000 + entry.spec_tile_index() * 32,
            px,
            py,
            PixelFormat::BPP4,
        );
        if index == 0 {
            None
        } else {
            Some(palette_color(palette, index, entry.spec_palette_bank() as int))
        }
    }
}

/// Whether background `bg` is a text background in video mode `mode`: all
/// four in mode 0, the first two in mode 1, none in the other modes.
pub open spec fn is_text_bg(mode: u16, bg: int) -> bool {
    mode == 0 || (mode == 1 && bg < 2)
}

/// The pixel of the 16-bit bitmap of mode 3.
pub open spec fn mode3_pixel(vram: Seq<u8>, x: int, y: int) -> Rgb15 {
    Rgb15(mem_read_16(vram, 2 * (y * 240 + x)))
}

/// The pixel of the paletted bitmap of mode 4, from the page at `page`.
pub open spec fn mode4_pixel(vram: Seq<u8>, palette: Seq<u8>, page: int, x: int, y: int) -> Rgb15 {
    palette_color(palette, mem_read_8(vram, page + y * 240 + x) as int, 0)
}

/// The pixel of the small 16-bit bitmap of mode 5, which is 160 pixels wide
/// and 128 high; around it the backdrop colour shows.
pub open spec fn mode5_pixel(vram: Seq<u8>, palette: Seq<u8>, page: int, x: int, y: int) -> Rgb15 {
    if x < 160 && y < 128 {
        Rgb15(mem_read_16(vram, page + 2 * (y * 160 + x)))
    } else {
        palette_color(palette, 0, 0)
    }
}

#[derive(Debug, Clone, Copy)]
pub struct Gpu {
    // registers
    pub dispcnt: DisplayControl,
    pub dispstat: DisplayStatus,
    pub bgcnt: [BgControl; 4],
    pub bgvofs: [u16; 4],
    pub bghofs: [u16; 4],
    pub win0h: u16,
    pub win1h: u16,
    pub win0v: u16,
    pub win1v: u16,
    pub winin: u16,
    pub winout: u16,
    pub mosaic: u16,
    pub bldcnt: u16,
    pub bldalpha: u16,
    pub bldy: u16,
    /// Cycles spent in the current state.
    pub cycles: usize,
    pub pixeldata: FrameBuffer,
    pub state: GpuState,
    pub current_scanline: usize,  // VCOUNT
}

impl Gpu {
    /// The scanline counter fits the state: below 160 while lines are drawn,
    /// 160 during the vertical blank.
    pub open spec fn wf(self) -> bool {
        if self.state == GpuState::VBlank {
            self.current_scanline == 160
        } else {
            self.current_scanline < 160
        }
    }

    /// The byte offset in video memory of the bitmap page on display.
    pub open spec fn spec_page(self) -> int {
        if self.dispcnt.spec_display_frame() {
            0xa000
        } else {
            0
        }
    }

    /// What background `bg` contributes at (`x`, `y`): its pixel if it is
    /// switched on and is a text background in the current mode.
    pub open spec fn layer_pixel(self, vram: Seq<u8>, palette: Seq<u8>, bg: int, x: int, y: int)
        -> Option<Rgb15> {
        if self.dispcnt.spec_disp_bg(bg) && is_text_bg(self.dispcnt.spec_mode(), bg) {
            text_bg_pixel(vram, palette, self.bgcnt[bg], self.bghofs[bg], self.bgvofs[bg], x, y)
        } else {
            None
        }
    }

    /// The colour at (`x`, `y`) after the first `k` of sixteen layers have
    /// been drawn over the backdrop. Layer `j` is background `3 - j % 4` if
    /// that has priority `3 - j / 4`: so priority 3 is drawn first and
    /// priority 0 last, and among equal priorities background 0 last.
    pub open spec fn composite(
        self,
        vram: Seq<u8>,
        palette: Seq<u8>,
        k: nat,
        x: int,
        y: int,
    ) -> Rgb15
        decreases k,
    {
        if k == 0 {
            palette_color(palette, 0, 0)
        } else {
            let j = (k - 1) as int;
            let bg = 3 - j % 4;
            let below = self.composite(vram, palette, (k - 1) as nat, x, y);
            if self.bgcnt[bg].spec_priority() == 3 - j / 4 {
                match self.layer_pixel(vram, palette, bg, x, y) {
                    Some(c) => c,
                    None => below,
                }
            } else {
                below
            }
        }
    }

    /// The pixel that the current registers put at (`x`, `y`).
    pub open spec fn scanline_pixel(self, vram: Seq<u8>, palette: Seq<u8>, x: int, y: int) -> Rgb15 {
        let mode = self.dispcnt.spec_mode();
        if mode == 3 {
            mode3_pixel(vram, x, y)
        } else if mode == 4 {
            mode4_pixel(vram, palette, self.spec_page(), x, y)
        } else if mode == 5 {
            mode5_pixel(vram, palette, self.spec_page(), x, y)
        } else {
            self.composite(vram, palette, 16, x, y)
        }
    }

    /// `self` differs from `before` at most in the first `n` pixels of line
    /// `y`, and pixel `x` of these is `f(x)`.
    pub open spec fn row_is(self, before: Gpu, y: int, n: int, f: spec_fn(int) -> Rgb15) -> bool {
        &&& self == (Gpu { pixeldata: self.pixeldata, ..before })
        &&& forall|i: int|
            0 <= i < 38400 ==> #[trigger] self.pixeldata.pixels[i] == if y * 240 <= i < y * 240 + n {
                f(i - y * 240)
            } else {
                before.pixeldata.pixels[i]
            }
    }

    /// The unit after power-on: at the start of line 0, the display
    /// blanked, every other register zero, the picture black.
    pub open spec fn is_power_on(self) -> bool {
        &&& self.state == GpuState::HDraw
        &&& self.current_scanline == 0
        &&& self.cycles == 0
        &&& self.dispcnt == DisplayControl(0x80)
        &&& self.dispstat == DisplayStatus::spec_new()
        &&& forall|i: int|
            0 <= i < 4 ==> self.bgcnt[i] == BgControl(0) && self.bgvofs[i] == 0 && self.bghofs[i]
                == 0
        &&& self.win0h == 0 && self.win1h == 0 && self.win0v == 0 && self.win1v == 0
        &&& self.winin == 0 && self.winout == 0 && self.mosaic == 0
        &&& self.bldcnt == 0 && self.bldalpha == 0 && self.bldy == 0
        &&& forall|i: int| 0 <= i < 38400 ==> self.pixeldata.pixels[i] == Rgb15(0)
    }

    pub fn new() -> (r: Gpu)
        ensures
            r.wf(),
            r.is_power_on(),
    {
        Gpu {
            dispcnt: DisplayControl(0x80),
            dispstat: DisplayStatus::new(),
            bgcnt: [BgControl(0), BgControl(0), BgControl(0), BgControl(0)],
            bgvofs: [0u16; 4],
            bghofs: [0u16; 4],
            win0h: 0,
            win1h: 0,
            win0v: 0,
            win1v: 0,
            winin: 0,
            winout: 0,
            mosaic: 0,
            bldcnt: 0,
            bldalpha: 0,
            bldy: 0,
            state: GpuState::HDraw,
            current_scanline: 0,
            cycles: 0,
            pixeldata: FrameBuffer { pixels: [Rgb15(0); 38400] },
        }
    }

    pub fn get_framebuffer(&self) -> (r: &FrameBuffer)
        ensures
            *r == self.pixeldata,
    {
        &self.pixeldata
    }

    /// helper method that reads the palette index from a base address and x + y
    pub fn read_pixel_index(
        &self,
        vram: &Vec<u8>,
        addr: Addr,
        x: u32,
        y: u32,
        format: PixelFormat,
    ) -> (r: usize)
        requires
            addr >= VRAM_ADDR,
        ensures
            r == pixel_index(vram@, addr - VRAM_ADDR, x as int, y as int, format),
            r < 256,
    {
        let ofs: u64 = (addr - VRAM_ADDR) as u64;
        match format {
            PixelFormat::BPP4 => {
                let byte = read_8(vram, ofs + (y as u64) * 4 + (x / 2) as u64);
                proof {
                    lemma_nibbles(byte);
                    lemma_odd(x);
                }
                if x & 1 != 0 {
                    (byte >> 4u8) as usize
                } else {
                    (byte & 0xf) as usize
                }
            },
            PixelFormat::BPP8 => read_8(vram, ofs + (y as u64) * 8 + x as u64) as usize,
        }
    }

    pub fn get_palette_color(&self, palette: &Vec<u8>, index: u32, palette_index: u32) -> (r: Rgb15)
        ensures
            r == palette_color(palette@, index as int, palette_index as int),
    {
        Rgb15(read_16(palette, 2 * (index as u64) + 0x20 * (palette_index as u64)))
    }
}

impl Gpu {
    /// `self` has the registers of `before` and its picture outside line
    /// `y`.
    pub open spec fn kept_outside_line(self, before: Gpu, y: int) -> bool {
        &&& self == (Gpu { pixeldata: self.pixeldata, ..before })
        &&& forall|i: int|
            0 <= i < 38400 && !(y * 240 <= i < y * 240 + 240) ==> #[trigger] self.pixeldata.pixels[i]
                == before.pixeldata.pixels[i]
    }

    /// `self` is `before` with the current line drawn anew from the
    /// registers, video memory and palette.
    pub open spec fn rendered(self, before: Gpu, vram: Seq<u8>, palette: Seq<u8>) -> bool {
        let y = before.current_scanline as int;
        &&& self.kept_outside_line(before, y)
        &&& forall|i: int|
            y * 240 <= i < y * 240 + 240 ==> #[trigger] self.pixeldata.pixels[i]
                == before.scanline_pixel(vram, palette, i - y * 240, y)
    }

    /// The unit with the current line drawn anew: the one state that
    /// `rendered` describes.
    pub open spec fn spec_scanline(self, vram: Seq<u8>, palette: Seq<u8>) -> Gpu {
        Gpu {
            pixeldata: choose|p: FrameBuffer|
                (Gpu { pixeldata: p, ..self }).rendered(self, vram, palette),
            ..self
        }
    }

    /// Two states that are both `before` with its current line drawn anew
    /// are the same state.
    pub proof fn lemma_rendered_unique(
        self,
        other: Gpu,
        before: Gpu,
        vram: Seq<u8>,
        palette: Seq<u8>,
    )
        requires
            self.rendered(before, vram, palette),
            other.rendered(before, vram, palette),
        ensures
            self == other,
    {
        assert(self.pixeldata.pixels =~= other.pixeldata.pixels);
    }

    /// A state that is `before` with its current line drawn anew is
    /// `spec_scanline` of `before`.
    pub proof fn lemma_rendered_is_scanline(
        self,
        before: Gpu,
        vram: Seq<u8>,
        palette: Seq<u8>,
    )
        requires
            self.rendered(before, vram, palette),
        ensures
            self == before.spec_scanline(vram, palette),
    {
        assert((Gpu { pixeldata: self.pixeldata, ..before }).rendered(before, vram, palette));
        let p = choose|p: FrameBuffer|
            (Gpu { pixeldata: p, ..before }).rendered(before, vram, palette);
        self.lemma_rendered_unique(Gpu { pixeldata: p, ..before }, before, vram, palette);
    }

    /// The pixel of text background `bg` at (`x`, `y`), `None` where it is
    /// transparent.
    pub fn text_pixel(&self, vram: &Vec<u8>, palette: &Vec<u8>, bg: usize, x: u32, y: u32) -> (r:
        Option<Rgb15>)
        requires
            bg < 4,
            x < 240,
            y < 160,
        ensures
            r == text_bg_pixel(
                vram@,
                palette@,
                self.bgcnt[bg as int],
                self.bghofs[bg as int],
                self.bgvofs[bg as int],
                x as int,
                y as int,
            ),
    {
        let cnt = self.bgcnt[bg];
        let size = cnt.bg_size();
        let tx: u32 = x + self.bghofs[bg] as u32;
        let ty: u32 = y + self.bgvofs[bg] as u32;
        let bx: u32 = if size == 1 || size == 3 {
            tx % 512
        } else {
            tx % 256
        };
        let by: u32 = if size == 2 || size == 3 {
            ty % 512
        } else {
            ty % 256
        };
        let block: u32 = if size == 0 {
            0
        } else if size == 1 {
            bx / 256
        } else if size == 2 {
            by / 256
        } else {
            bx / 256 + 2 * (by / 256)
        };
        let map_ofs: u32 = (cnt.screen_base_block() as u32) * 0x800 + 0x800 * block + 2 * (((by
            % 256) / 8) * 32 + (bx % 256) / 8);
        let entry = TileMapEntry(read_16(vram, map_ofs as u64));
        let px: u32 = if entry.x_flip() {
            7 - bx % 8
        } else {
            bx % 8
        };
        let py: u32 = if entry.y_flip() {
            7 - by % 8
        } else {
            by % 8
        };
        if cnt.palette256() {
            let tile_addr: Addr = cnt.char_block() + entry.tile_index() * 64;
            let index = self.read_pixel_index(vram, tile_addr, px, py, PixelFormat::BPP8);
            if index == 0 {
                None
            } else {
                Some(self.get_palette_color(palette, index as u32, 0))
            }
        } else {
            let tile_addr: Addr = cnt.char_block() + entry.tile_index() * 32;
            let index = self.read_pixel_index(vram, tile_addr, px, py, PixelFormat::BPP4);
            if index == 0 {
                None
            } else {
                Some(self.get_palette_color(palette, index as u32, entry.palette_bank()))
            }
        }
    }

    /// Fills the current line with the backdrop colour, the first colour of
    /// the palette.
    fn scanline_backdrop(&mut self, palette: &Vec<u8>)
        requires
            old(self).current_scanline < 160,
        ensures
            final(self).kept_outside_line(*old(self), old(self).current_scanline as int),
            forall|i: int|
                old(self).current_scanline * 240 <= i < old(self).current_scanline * 240 + 240
                    ==> #[trigger] final(self).pixeldata.pixels[i] == palette_color(palette@, 0, 0),
    {
        let y = self.current_scanline;
        let color = self.get_palette_color(palette, 0, 0);
        let mut x: usize = 0;
        while x < 240
            invariant
                x <= 240,
                y < 160,
                y == old(self).current_scanline,
                color == palette_color(palette@, 0, 0),
                self.kept_outside_line(*old(self), y as int),
                forall|i: int|
                    y * 240 <= i < y * 240 + x ==> #[trigger] self.pixeldata.pixels[i] == color,
            decreases 240 - x,
        {
            self.pixeldata.pixels[y * 240 + x] = color;
            x += 1;
        }
    }

    /// Draws text background `bg` over the current line: its pixels replace
    /// what the line holds, except where the background is transparent.
    pub fn scanline_mode0(&mut self, bg: usize, vram: &Vec<u8>, palette: &Vec<u8>)
        requires
            bg < 4,
            old(self).current_scanline < 160,
        ensures
            final(self).kept_outside_line(*old(self), old(self).current_scanline as int),
            forall|i: int|
                old(self).current_scanline * 240 <= i < old(self).current_scanline * 240 + 240
                    ==> #[trigger] final(self).pixeldata.pixels[i] == match text_bg_pixel(
                    vram@,
                    palette@,
                    old(self).bgcnt[bg as int],
                    old(self).bghofs[bg as int],
                    old(self).bgvofs[bg as int],
                    i - old(self).current_scanline * 240,
                    old(self).current_scanline as int,
                ) {
                    Some(c) => c,
                    None => old(self).pixeldata.pixels[i],
                },
    {
        let y = self.current_scanline;
        let mut x: usize = 0;
        while x < 240
            invariant
                x <= 240,
                bg < 4,
                y < 160,
                y == old(self).current_scanline,
                self.kept_outside_line(*old(self), y as int),
                forall|i: int|
                    y * 240 <= i < y * 240 + x ==> #[trigger] self.pixeldata.pixels[i]
                        == match text_bg_pixel(
                        vram@,
                        palette@,
                        old(self).bgcnt[bg as int],
                        old(self).bghofs[bg as int],
                        old(self).bgvofs[bg as int],
                        i - y * 240,
                        y as int,
                    ) {
                        Some(c) => c,
                        None => old(self).pixeldata.pixels[i],
                    },
                forall|i: int|
                    y * 240 + x <= i < y * 240 + 240 ==> #[trigger] self.pixeldata.pixels[i]
                        == old(self).pixeldata.pixels[i],
            decreases 240 - x,
        {
            match self.text_pixel(vram, palette, bg, x as u32, y as u32) {
                Some(c) => {
                    self.pixeldata.pixels[y * 240 + x] = c;
                },
                None => {},
            }
            x += 1;
        }
    }

    /// Draws the current line of the 16-bit bitmap.
    pub fn scanline_mode3(&mut self, vram: &Vec<u8>)
        requires
            old(self).current_scanline < 160,
        ensures
            final(self).kept_outside_line(*old(self), old(self).current_scanline as int),
            forall|i: int|
                old(self).current_scanline * 240 <= i < old(self).current_scanline * 240 + 240
                    ==> #[trigger] final(self).pixeldata.pixels[i] == mode3_pixel(
                    vram@,
                    i - old(self).current_scanline * 240,
                    old(self).current_scanline as int,
                ),
    {
        let y = self.current_scanline;
        let mut x: usize = 0;
        while x < 240
            invariant
                x <= 240,
                y < 160,
                y == old(self).current_scanline,
                self.kept_outside_line(*old(self), y as int),
                forall|i: int|
                    y * 240 <= i < y * 240 + x ==> #[trigger] self.pixeldata.pixels[i]
                        == mode3_pixel(vram@, i - y * 240, y as int),
            decreases 240 - x,
        {
            let pixel_index = y * 240 + x;
            let pixel_ofs = 2 * (pixel_index as u64);
            self.pixeldata.pixels[pixel_index] = Rgb15(read_16(vram, pixel_ofs));
            x += 1;
        }
    }

    /// Draws the current line of the paletted bitmap.
    pub fn scanline_mode4(&mut self, vram: &Vec<u8>, palette: &Vec<u8>)
        requires
            old(self).current_scanline < 160,
        ensures
            final(self).kept_outside_line(*old(self), old(self).current_scanline as int),
            forall|i: int|
                old(self).current_scanline * 240 <= i < old(self).current_scanline * 240 + 240
                    ==> #[trigger] final(self).pixeldata.pixels[i] == mode4_pixel(
                    vram@,
                    palette@,
                    old(self).spec_page(),
                    i - old(self).current_scanline * 240,
                    old(self).current_scanline as int,
                ),
    {
        let page_ofs: u64 = if self.dispcnt.display_frame() {
            0xa000
        } else {
            0
        };
        let y = self.current_scanline;
        let mut x: usize = 0;
        while x < 240
            invariant
                x <= 240,
                y < 160,
                y == old(self).current_scanline,
                page_ofs == old(self).spec_page(),
                self.kept_outside_line(*old(self), y as int),
                forall|i: int|
                    y * 240 <= i < y * 240 + x ==> #[trigger] self.pixeldata.pixels[i]
                        == mode4_pixel(vram@, palette@, page_ofs as int, i - y * 240, y as int),
            decreases 240 - x,
        {
            let bitmap_index = y * 240 + x;
            let bitmap_ofs = page_ofs + (bitmap_index as u64);
            let index = read_8(vram, bitmap_ofs) as u32;
            let color = self.get_palette_color(palette, index, 0);
            self.pixeldata.pixels[bitmap_index] = color;
            x += 1;
        }
    }

    /// Draws the current line of the small 16-bit bitmap.
    pub fn scanline_mode5(&mut self, vram: &Vec<u8>, palette: &Vec<u8>)
        requires
            old(self).current_scanline < 160,
        ensures
            final(self).kept_outside_line(*old(self), old(self).current_scanline as int),
            forall|i: int|
                old(self).current_scanline * 240 <= i < old(self).current_scanline * 240 + 240
                    ==> #[trigger] final(self).pixeldata.pixels[i] == mode5_pixel(
                    vram@,
                    palette@,
                    old(self).spec_page(),
                    i - old(self).current_scanline * 240,
                    old(self).current_scanline as int,
                ),
    {
        let page_ofs: u64 = if self.dispcnt.display_frame() {
            0xa000
        } else {
            0
        };
        let backdrop = self.get_palette_color(palette, 0, 0);
        let y = self.current_scanline;
        let mut x: usize = 0;
        while x < 240
            invariant
                x <= 240,
                y < 160,
                y == old(self).current_scanline,
                page_ofs == old(self).spec_page(),
                backdrop == palette_color(palette@, 0, 0),
                self.kept_outside_line(*old(self), y as int),
                forall|i: int|
                    y * 240 <= i < y * 240 + x ==> #[trigger] self.pixeldata.pixels[i]
                        == mode5_pixel(vram@, palette@, page_ofs as int, i - y * 240, y as int),
            decreases 240 - x,
        {
            let color = if x < 160 && y < 128 {
                Rgb15(read_16(vram, page_ofs + 2 * ((y * 160 + x) as u64)))
            } else {
                backdrop
            };
            self.pixeldata.pixels[y * 240 + x] = color;
            x += 1;
        }
    }

    /// Draws the text backgrounds of the current line, lowest priority
    /// first, over the backdrop.
    fn scanline_text(&mut self, vram: &Vec<u8>, palette: &Vec<u8>)
        requires
            old(self).current_scanline < 160,
        ensures
            final(self).kept_outside_line(*old(self), old(self).current_scanline as int),
            forall|i: int|
                old(self).current_scanline * 240 <= i < old(self).current_scanline * 240 + 240
                    ==> #[trigger] final(self).pixeldata.pixels[i] == old(self).composite(
                    vram@,
                    palette@,
                    16,
                    i - old(self).current_scanline * 240,
                    old(self).current_scanline as int,
                ),
    {
        let y = self.current_scanline;
        let mode = self.dispcnt.mode();
        self.scanline_backdrop(palette);
        let mut j: usize = 0;
        while j < 16
            invariant
                j <= 16,
                y < 160,
                y == old(self).current_scanline,
                mode == old(self).dispcnt.spec_mode(),
                self.kept_outside_line(*old(self), y as int),
                forall|i: int|
                    y * 240 <= i < y * 240 + 240 ==> #[trigger] self.pixeldata.pixels[i]
                        == old(self).composite(vram@, palette@, j as nat, i - y * 240, y as int),
            decreases 16 - j,
        {
            let bg: usize = 3 - j % 4;
            let priority: u16 = (3 - j / 4) as u16;
            let is_text = mode == 0 || (mode == 1 && bg < 2);
            if self.bgcnt[bg].bg_priority() == priority && self.dispcnt.disp_bg(bg) && is_text {
                self.scanline_mode0(bg, vram, palette);
            }
            j += 1;
        }
    }

    /// Draws the current line into the picture, as the video mode asks.
    pub fn scanline(&mut self, vram: &Vec<u8>, palette: &Vec<u8>)
        requires
            old(self).current_scanline < 160,
        ensures
            final(self).rendered(*old(self), vram@, palette@),
            *final(self) == old(self).spec_scanline(vram@, palette@),
    {
        let mode = self.dispcnt.mode();
        if mode == 3 {
            self.scanline_mode3(vram);
        } else if mode == 4 {
            self.scanline_mode4(vram, palette);
        } else if mode == 5 {
            self.scanline_mode5(vram, palette);
        } else {
            self.scanline_text(vram, palette);
        }
        proof {
            self.lemma_rendered_is_scanline(*old(self), vram@, palette@);
        }
    }

    /// The picture with eight bits per colour channel: one `0x00RRGGBB` word
    /// per pixel, line after line.
    pub fn render(&self) -> (buffer: Vec<u32>)
        ensures
            buffer@.len() == 38400,
            forall|i: int|
                0 <= i < 38400 ==> #[trigger] buffer@[i] == self.pixeldata.pixels[i].spec_rgb24(),
    {
        let mut buffer: Vec<u32> = Vec::with_capacity(38400);
        let mut i: usize = 0;
        while i < 38400
            invariant
                i <= 38400,
                buffer@.len() == i,
                forall|k: int|
                    0 <= k < i ==> #[trigger] buffer@[k] == self.pixeldata.pixels[k].spec_rgb24(),
            decreases 38400 - i,
        {
            buffer.push(self.pixeldata.pixels[i].rgb24());
            i += 1;
        }
        buffer
    }
}

impl Gpu {
    /// The scanline counter equals the compare value of DISPSTAT.
    pub open spec fn spec_vcount_match(self) -> bool {
        self.dispstat.vcount_setting as int == self.current_scanline as int
    }

    /// The cycles that the state will have seen after `cycles` more.
    pub open spec fn spec_elapsed(self, cycles: usize) -> usize {
        sat_add_usize(self.cycles, cycles)
    }

    /// How long the current state lasts.
    pub open spec fn spec_timeout(self) -> usize {
        match self.state {
            GpuState::HDraw => CYCLES_HDRAW,
            GpuState::HBlank => CYCLES_HBLANK,
            GpuState::VBlank => CYCLES_VBLANK,
        }
    }

    /// Whether a step of `cycles` cycles ends the current state.
    pub open spec fn spec_times_out(self, cycles: usize) -> bool {
        self.spec_elapsed(cycles) >= self.spec_timeout()
    }

    /// The unit after a step of `cycles` cycles, but for the picture, which
    /// this function leaves as it is.
    ///
    /// The step first brings the compare flag up to date. A state that has
    /// lasted its time then ends, and what it has lasted longer carries over:
    /// the draw period gives way to the horizontal blank; the horizontal
    /// blank to the next line, or after line 159 to the vertical blank; the
    /// vertical blank to line 0.
    pub open spec fn stepped(self, cycles: usize) -> Gpu {
        let elapsed = self.spec_elapsed(cycles);
        let stat = DisplayStatus { vcount: self.spec_vcount_match(), ..self.dispstat };
        if !self.spec_times_out(cycles) {
            Gpu { cycles: elapsed, dispstat: stat, ..self }
        } else {
            match self.state {
                GpuState::HDraw => Gpu {
                    cycles: (elapsed - CYCLES_HDRAW) as usize,
                    state: GpuState::HBlank,
                    dispstat: DisplayStatus { hblank: true, ..stat },
                    ..self
                },
                GpuState::HBlank => if self.current_scanline + 1 >= 160 {
                    Gpu {
                        cycles: (elapsed - CYCLES_HBLANK) as usize,
                        state: GpuState::VBlank,
                        current_scanline: 160,
                        dispstat: DisplayStatus { hblank: false, vblank: true, ..stat },
                        ..self
                    }
                } else {
                    Gpu {
                        cycles: (elapsed - CYCLES_HBLANK) as usize,
                        state: GpuState::HDraw,
                        current_scanline: (self.current_scanline + 1) as usize,
                        dispstat: DisplayStatus { hblank: false, ..stat },
                        ..self
                    }
                },
                GpuState::VBlank => Gpu {
                    cycles: (elapsed - CYCLES_VBLANK) as usize,
                    state: GpuState::HDraw,
                    current_scanline: 0,
                    dispstat: DisplayStatus { hblank: false, vblank: false, ..stat },
                    ..self
                },
            }
        }
    }

    /// The interrupt requests after a step of `cycles` cycles: the counter
    /// match while the counter equals the compare value, the horizontal
    /// blank when the draw period ends, the vertical blank when line 159
    /// ends; each only if DISPSTAT enables it.
    pub open spec fn step_irqs(self, cycles: usize, irqs: IrqBitmask) -> IrqBitmask {
        irqs.with_irq_if(
            self.dispstat.vcount_irq_enable && self.spec_vcount_match(),
            Interrupt::LCD_VCounterMatch,
        ).with_irq_if(
            self.state == GpuState::HDraw && self.spec_times_out(cycles)
                && self.dispstat.hblank_irq_enable,
            Interrupt::LCD_HBlank,
        ).with_irq_if(
            self.state == GpuState::HBlank && self.spec_times_out(cycles) && self.current_scanline
                + 1 >= 160 && self.dispstat.vblank_irq_enable,
            Interrupt::LCD_VBlank,
        )
    }

    /// The unit after a step of `cycles` cycles: as `stepped` says, with the
    /// line that was on display drawn into the picture if the step ends a
    /// draw period.
    pub open spec fn spec_step(self, cycles: usize, vram: Seq<u8>, palette: Seq<u8>) -> Gpu {
        Gpu {
            pixeldata: if self.state == GpuState::HDraw && self.spec_times_out(cycles) {
                self.spec_scanline(vram, palette).pixeldata
            } else {
                self.pixeldata
            },
            ..self.stepped(cycles)
        }
    }

    /// Advances the unit by `cycles` cycles. At the end of a draw period the
    /// line that was on display is drawn into the picture.
    pub fn step(&mut self, cycles: usize, vram: &Vec<u8>, palette: &Vec<u8>, irqs: &mut IrqBitmask)
        requires
            old(self).wf(),
        ensures
            final(self).wf(),
            *final(self) == old(self).spec_step(cycles, vram@, palette@),
            (Gpu { pixeldata: old(self).pixeldata, ..*final(self) }) == old(self).stepped(cycles),
            *final(irqs) == old(self).step_irqs(cycles, *old(irqs)),
            if old(self).state == GpuState::HDraw && old(self).spec_times_out(cycles) {
                (Gpu { pixeldata: final(self).pixeldata, ..*old(self) }).rendered(
                    *old(self),
                    vram@,
                    palette@,
                )
            } else {
                final(self).pixeldata == old(self).pixeldata
            },
    {
        let elapsed = self.cycles.saturating_add(cycles);
        if self.state == GpuState::HDraw && elapsed >= CYCLES_HDRAW {
            self.scanline(vram, palette);
        }
        self.cycles = elapsed;
        self.dispstat.vcount = self.dispstat.vcount_setting as usize == self.current_scanline;
        if self.dispstat.vcount_irq_enable && self.dispstat.vcount {
            irqs.add_irq(Interrupt::LCD_VCounterMatch);
        }
        match self.state {
            GpuState::HDraw => {
                if self.cycles >= CYCLES_HDRAW {
                    self.cycles -= CYCLES_HDRAW;
                    // HBlank
                    self.dispstat.hblank = true;
                    if self.dispstat.hblank_irq_enable {
                        irqs.add_irq(Interrupt::LCD_HBlank);
                    }
                    self.state = GpuState::HBlank;
                }
            },
            GpuState::HBlank => {
                if self.cycles >= CYCLES_HBLANK {
                    self.cycles -= CYCLES_HBLANK;
                    self.current_scanline += 1;
                    self.dispstat.hblank = false;
                    if self.current_scanline >= DISPLAY_HEIGHT {
                        self.dispstat.vblank = true;
                        if self.dispstat.vblank_irq_enable {
                            irqs.add_irq(Interrupt::LCD_VBlank);
                        }
                        self.state = GpuState::VBlank;
                    } else {
                        self.state = GpuState::HDraw;
                    }
                }
            },
            GpuState::VBlank => {
                if self.cycles >= CYCLES_VBLANK {
                    self.cycles -= CYCLES_VBLANK;
                    self.state = GpuState::HDraw;
                    self.dispstat.hblank = false;
                    self.dispstat.vblank = false;
                    self.current_scanline = 0;
                }
            },
        }
    }
}

proof fn lemma_nibbles(byte: u8)
    by (bit_vector)
    ensures
        byte >> 4u8 < 16,
        byte & 0xf < 16,
{
}

proof fn lemma_odd(x: u32)
    by (bit_vector)
    ensures
        (x & 1 != 0) == (x % 2 != 0),
{
}

} // verus!
