use rustboyadvance_core::gpu::{
    BgControl, DisplayControl, DisplayStatus, Gpu, GpuState, TileMapEntry, CYCLES_HBLANK,
    CYCLES_HDRAW, CYCLES_SCANLINE, CYCLES_VBLANK, CYCLES_VDRAW, DISPLAY_HEIGHT, DISPLAY_WIDTH,
    FRAME_PIXELS, VRAM_ADDR,
};
use rustboyadvance_core::interrupt::{Interrupt, IrqBitmask};
use rustboyadvance_core::palette::{PixelFormat, Rgb15};

fn blank_memories() -> (Vec<u8>, Vec<u8>) {
    (vec![0u8; 0x1_8000], vec![0u8; 0x400])
}

fn put16(mem: &mut Vec<u8>, ofs: usize, value: u16) {
    mem[ofs] = value as u8;
    mem[ofs + 1] = (value >> 8) as u8;
}

fn draw_line(gpu: &mut Gpu, vram: &Vec<u8>, palette: &Vec<u8>) {
    let mut irqs = IrqBitmask(0);
    assert_eq!(gpu.state, GpuState::HDraw);
    gpu.step(CYCLES_HDRAW, vram, palette, &mut irqs);
    assert_eq!(gpu.state, GpuState::HBlank);
}

#[test]
fn timing_constants() {
    assert_eq!(CYCLES_HDRAW, 960);
    assert_eq!(CYCLES_HBLANK, 272);
    assert_eq!(CYCLES_SCANLINE, CYCLES_HDRAW + CYCLES_HBLANK);
    assert_eq!(CYCLES_VDRAW, 160 * CYCLES_SCANLINE);
    assert_eq!(CYCLES_VBLANK, 68 * 1232);
    assert_eq!(FRAME_PIXELS, DISPLAY_WIDTH * DISPLAY_HEIGHT);
    assert_eq!(GpuState::default(), GpuState::HDraw);
}

#[test]
fn scanline_progression() {
    let (vram, palette) = blank_memories();
    let mut irqs = IrqBitmask(0);
    let mut gpu = Gpu::new();
    assert_eq!((gpu.state, gpu.current_scanline, gpu.cycles), (GpuState::HDraw, 0, 0));
    gpu.step(960, &vram, &palette, &mut irqs);
    assert_eq!(gpu.state, GpuState::HBlank);
    assert_eq!(gpu.current_scanline, 0);
    gpu.step(272, &vram, &palette, &mut irqs);
    assert_eq!(gpu.state, GpuState::HDraw);
    assert_eq!(gpu.current_scanline, 1);
    for line in 1..160 {
        assert_eq!(gpu.current_scanline, line);
        gpu.step(960, &vram, &palette, &mut irqs);
        assert_eq!(gpu.state, GpuState::HBlank);
        gpu.step(272, &vram, &palette, &mut irqs);
    }
    assert_eq!(gpu.current_scanline, 160);
    assert_eq!(gpu.state, GpuState::VBlank);
    assert_eq!(gpu.dispstat.vblank, true);
    gpu.step(68 * 1232, &vram, &palette, &mut irqs);
    assert_eq!(gpu.current_scanline, 0);
    assert_eq!(gpu.state, GpuState::HDraw);
    assert_eq!(gpu.dispstat.vblank, false);
    assert_eq!(gpu.cycles, 0);
    assert_eq!(irqs, IrqBitmask(0));
}

#[test]
fn a_state_ends_only_when_its_time_is_up_and_the_rest_carries_over() {
    let (vram, palette) = blank_memories();
    let mut irqs = IrqBitmask(0);
    let mut gpu = Gpu::new();
    gpu.step(959, &vram, &palette, &mut irqs);
    assert_eq!((gpu.state, gpu.cycles), (GpuState::HDraw, 959));
    gpu.step(6, &vram, &palette, &mut irqs);
    assert_eq!((gpu.state, gpu.cycles), (GpuState::HBlank, 5));
    assert_eq!(gpu.dispstat.hblank, true);
    gpu.step(266, &vram, &palette, &mut irqs);
    assert_eq!((gpu.state, gpu.cycles), (GpuState::HBlank, 271));
    gpu.step(1, &vram, &palette, &mut irqs);
    assert_eq!((gpu.state, gpu.cycles, gpu.current_scanline), (GpuState::HDraw, 0, 1));
    assert_eq!(gpu.dispstat.hblank, false);
    // one step never ends more than one state
    gpu.step(5000, &vram, &palette, &mut irqs);
    assert_eq!((gpu.state, gpu.cycles, gpu.current_scanline), (GpuState::HBlank, 4040, 1));
    gpu.step(0, &vram, &palette, &mut irqs);
    assert_eq!((gpu.state, gpu.cycles, gpu.current_scanline), (GpuState::HDraw, 3768, 2));
    // the vertical blank lasts 83776 cycles
    gpu.state = GpuState::VBlank;
    gpu.current_scanline = 160;
    gpu.cycles = 0;
    gpu.step(83775, &vram, &palette, &mut irqs);
    assert_eq!(gpu.state, GpuState::VBlank);
    assert_eq!(gpu.current_scanline, 160);
    gpu.step(usize::MAX, &vram, &palette, &mut irqs);
    assert_eq!((gpu.state, gpu.current_scanline), (GpuState::HDraw, 0));
    assert_eq!(gpu.cycles, usize::MAX - 83776);
}

#[test]
fn video_interrupts() {
    let (vram, palette) = blank_memories();
    let mut gpu = Gpu::new();
    gpu.dispstat.hblank_irq_enable = true;
    gpu.dispstat.vblank_irq_enable = true;
    gpu.dispstat.vcount_setting = 1;
    let mut irqs = IrqBitmask(0);
    gpu.step(959, &vram, &palette, &mut irqs);
    assert_eq!(irqs, IrqBitmask(0));
    gpu.step(1, &vram, &palette, &mut irqs);
    assert_eq!(irqs, IrqBitmask(Interrupt::LCD_HBlank.mask()));
    let mut irqs = IrqBitmask(0);
    gpu.step(272, &vram, &palette, &mut irqs);
    assert_eq!(irqs, IrqBitmask(0));
    assert_eq!(gpu.dispstat.vcount, false);
    // line 1 is the line that the counter is compared with
    gpu.dispstat.vcount_irq_enable = true;
    gpu.step(1, &vram, &palette, &mut irqs);
    assert_eq!(gpu.dispstat.vcount, true);
    assert_eq!(irqs, IrqBitmask(Interrupt::LCD_VCounterMatch.mask()));
    gpu.dispstat.vcount_irq_enable = false;
    // the end of line 159 begins the vertical blank
    gpu.state = GpuState::HBlank;
    gpu.current_scanline = 159;
    gpu.cycles = 0;
    let mut irqs = IrqBitmask(0x8000);
    gpu.step(272, &vram, &palette, &mut irqs);
    assert_eq!(gpu.state, GpuState::VBlank);
    assert_eq!(irqs, IrqBitmask(0x8000 | Interrupt::LCD_VBlank.mask()));
    // without the enables nothing is raised
    let mut quiet = Gpu::new();
    let mut irqs = IrqBitmask(0);
    quiet.dispstat.vcount_setting = 0;
    quiet.step(960, &vram, &palette, &mut irqs);
    assert_eq!(quiet.dispstat.vcount, true);
    assert_eq!(irqs, IrqBitmask(0));
}

#[test]
fn display_status_register() {
    let mut stat = DisplayStatus::new();
    assert_eq!(stat.get(), 0);
    stat.write(0xffff);
    assert_eq!(stat.get(), 0xff38);
    assert_eq!(stat.vcount_setting, 0xff);
    stat.vblank = true;
    stat.hblank = true;
    stat.vcount = true;
    stat.write(0x2a00);
    assert_eq!(stat.get(), 0x2a07);
    assert!(!stat.vblank_irq_enable && !stat.hblank_irq_enable && !stat.vcount_irq_enable);
    stat.write(0x0010);
    assert!(stat.hblank_irq_enable);
    assert_eq!(stat.get(), 0x0017);
}

#[test]
fn display_control_fields() {
    let cnt = DisplayControl(0x0a14);
    assert_eq!(cnt.mode(), 4);
    assert_eq!(cnt.display_frame(), true);
    assert_eq!(cnt.disp_bg(0), false);
    assert_eq!(cnt.disp_bg(1), true);
    assert_eq!(cnt.disp_bg(2), false);
    assert_eq!(cnt.disp_bg(3), true);
    assert_eq!(DisplayControl(0x0003).display_frame(), false);
}

#[test]
fn background_control_fields() {
    let cnt = BgControl(0b1001_1111_1000_1110);
    assert_eq!(cnt.bg_priority(), 2);
    assert_eq!(cnt.character_base_block(), 3);
    assert_eq!(cnt.palette256(), true);
    assert_eq!(cnt.screen_base_block(), 31);
    assert_eq!(cnt.bg_size(), 2);
    assert_eq!(cnt.char_block(), VRAM_ADDR + 0xc000);
    assert_eq!(cnt.screen_block(), VRAM_ADDR + 31 * 0x800);
    assert_eq!(cnt.size_regular(), (256, 512));
    assert_eq!(cnt.tile_format(), (0x40, PixelFormat::BPP8));
    assert_eq!(BgControl(0).size_regular(), (256, 256));
    assert_eq!(BgControl(0x4000).size_regular(), (512, 256));
    assert_eq!(BgControl(0xc000).size_regular(), (512, 512));
    assert_eq!(BgControl(0).tile_format(), (0x20, PixelFormat::BPP4));
    assert_eq!(BgControl(0).char_block(), VRAM_ADDR);
    assert_eq!(BgControl(0x0100).screen_block(), VRAM_ADDR + 0x800);
    let entry = TileMapEntry(0xa7ff);
    assert_eq!(entry.tile_index(), 0x3ff);
    assert_eq!(entry.x_flip(), true);
    assert_eq!(entry.y_flip(), false);
    assert_eq!(entry.palette_bank(), 10);
}

#[test]
fn pixel_index_and_palette() {
    let (mut vram, mut palette) = blank_memories();
    let gpu = Gpu::new();
    vram[0x40 + 3 * 4 + 1] = 0xa5;
    assert_eq!(gpu.read_pixel_index(&vram, VRAM_ADDR + 0x40, 2, 3, PixelFormat::BPP4), 5);
    assert_eq!(gpu.read_pixel_index(&vram, VRAM_ADDR + 0x40, 3, 3, PixelFormat::BPP4), 10);
    vram[0x80 + 2 * 8 + 7] = 0xc3;
    assert_eq!(gpu.read_pixel_index(&vram, VRAM_ADDR + 0x80, 7, 2, PixelFormat::BPP8), 0xc3);
    // outside video memory everything reads as zero
    assert_eq!(gpu.read_pixel_index(&vram, VRAM_ADDR + 0x1_8000, 0, 0, PixelFormat::BPP8), 0);
    put16(&mut palette, 2 * 3 + 0x20 * 2, 0x1234);
    assert_eq!(gpu.get_palette_color(&palette, 3, 2), Rgb15(0x1234));
    assert_eq!(gpu.get_palette_color(&palette, 0, 0), Rgb15(0));
    assert_eq!(gpu.get_palette_color(&palette, 0xffff_ffff, 0xffff_ffff), Rgb15(0));
}

#[test]
fn mode3_draws_the_bitmap() {
    let (mut vram, palette) = blank_memories();
    let mut gpu = Gpu::new();
    gpu.dispcnt = DisplayControl(3);
    gpu.current_scanline = 2;
    put16(&mut vram, 2 * (2 * 240 + 5), 0x7c1f);
    put16(&mut vram, 2 * (2 * 240 + 239), 0x03e0);
    put16(&mut vram, 2 * (3 * 240), 0x7fff);
    draw_line(&mut gpu, &vram, &palette);
    assert_eq!(gpu.pixeldata.get(2 * 240 + 5), Rgb15(0x7c1f));
    assert_eq!(gpu.pixeldata.get(2 * 240 + 239), Rgb15(0x03e0));
    assert_eq!(gpu.pixeldata.get(2 * 240 + 6), Rgb15(0));
    // the other lines stay as they were
    assert_eq!(gpu.pixeldata.get(3 * 240), Rgb15(0));
    assert_eq!(gpu.get_framebuffer().pixels[2 * 240 + 5], Rgb15(0x7c1f));
}

#[test]
fn mode4_draws_through_the_palette_from_the_selected_page() {
    let (mut vram, mut palette) = blank_memories();
    put16(&mut palette, 0, 0x0001);
    put16(&mut palette, 2, 0x03e0);
    put16(&mut palette, 4, 0x7c00);
    vram[7] = 1;
    vram[0xa000 + 7] = 2;
    let mut gpu = Gpu::new();
    gpu.dispcnt = DisplayControl(4);
    draw_line(&mut gpu, &vram, &palette);
    assert_eq!(gpu.pixeldata.get(7), Rgb15(0x03e0));
    assert_eq!(gpu.pixeldata.get(8), Rgb15(0x0001));
    let mut gpu = Gpu::new();
    gpu.dispcnt = DisplayControl(4 | 0x10);
    draw_line(&mut gpu, &vram, &palette);
    assert_eq!(gpu.pixeldata.get(7), Rgb15(0x7c00));
}

#[test]
fn mode5_is_a_small_bitmap_on_the_backdrop() {
    let (mut vram, mut palette) = blank_memories();
    put16(&mut palette, 0, 0x1111);
    put16(&mut vram, 2 * 159, 0x2222);
    put16(&mut vram, 2 * 160, 0x3333);
    put16(&mut vram, 0xa000 + 2 * (127 * 160 + 1), 0x4444);
    let mut gpu = Gpu::new();
    gpu.dispcnt = DisplayControl(5);
    draw_line(&mut gpu, &vram, &palette);
    assert_eq!(gpu.pixeldata.get(159), Rgb15(0x2222));
    assert_eq!(gpu.pixeldata.get(160), Rgb15(0x1111));
    assert_eq!(gpu.pixeldata.get(239), Rgb15(0x1111));
    let mut gpu = Gpu::new();
    gpu.dispcnt = DisplayControl(5 | 0x10);
    gpu.current_scanline = 127;
    draw_line(&mut gpu, &vram, &palette);
    assert_eq!(gpu.pixeldata.get(127 * 240 + 1), Rgb15(0x4444));
    let mut gpu = Gpu::new();
    gpu.dispcnt = DisplayControl(5);
    gpu.current_scanline = 128;
    draw_line(&mut gpu, &vram, &palette);
    assert_eq!(gpu.pixeldata.get(128 * 240), Rgb15(0x1111));
}

fn tiled_scene() -> (Vec<u8>, Vec<u8>) {
    let (mut vram, mut palette) = blank_memories();
    put16(&mut palette, 0, 0x7fff);
    put16(&mut palette, 2, 0x1234);
    put16(&mut palette, 4, 0x5678);
    put16(&mut palette, 0x20 * 3 + 2, 0x0bad);
    // tile 1 at four bits a pixel: row 0 starts with the indexes 1 and 2
    vram[0x20] = 0x21;
    // row 7 starts with index 2
    vram[0x20 + 7 * 4] = 0x02;
    // the first entry of the tile map in block 1 shows tile 1
    put16(&mut vram, 0x800, 0x0001);
    (vram, palette)
}

#[test]
fn mode0_draws_a_text_background_over_the_backdrop() {
    let (vram, palette) = tiled_scene();
    let mut gpu = Gpu::new();
    gpu.dispcnt = DisplayControl(0x0100);
    gpu.bgcnt[0] = BgControl(0x0100);
    draw_line(&mut gpu, &vram, &palette);
    assert_eq!(gpu.pixeldata.get(0), Rgb15(0x1234));
    assert_eq!(gpu.pixeldata.get(1), Rgb15(0x5678));
    // index 0 is transparent
    assert_eq!(gpu.pixeldata.get(2), Rgb15(0x7fff));
    assert_eq!(gpu.pixeldata.get(8), Rgb15(0x7fff));
    assert_eq!(gpu.pixeldata.get(239), Rgb15(0x7fff));
    assert_eq!(gpu.text_pixel(&vram, &palette, 0, 0, 0), Some(Rgb15(0x1234)));
    assert_eq!(gpu.text_pixel(&vram, &palette, 0, 2, 0), None);
    assert_eq!(gpu.text_pixel(&vram, &palette, 0, 0, 7), Some(Rgb15(0x5678)));
    // a background that is switched off is not drawn
    let mut off = Gpu::new();
    off.dispcnt = DisplayControl(0x0200);
    off.bgcnt[0] = BgControl(0x0100);
    draw_line(&mut off, &vram, &palette);
    assert_eq!(off.pixeldata.get(0), Rgb15(0x7fff));
}

#[test]
fn mode0_scrolls_flips_and_selects_palettes() {
    let (mut vram, palette) = tiled_scene();
    let mut gpu = Gpu::new();
    gpu.dispcnt = DisplayControl(0x0100);
    gpu.bgcnt[0] = BgControl(0x0100);
    gpu.bghofs[0] = 1;
    assert_eq!(gpu.text_pixel(&vram, &palette, 0, 0, 0), Some(Rgb15(0x5678)));
    // the background is 256 pixels wide and wraps
    assert_eq!(gpu.text_pixel(&vram, &palette, 0, 255, 0), Some(Rgb15(0x1234)));
    gpu.bghofs[0] = 0;
    gpu.bgvofs[0] = 7;
    assert_eq!(gpu.text_pixel(&vram, &palette, 0, 0, 0), Some(Rgb15(0x5678)));
    gpu.bgvofs[0] = 0;
    // flipped horizontally
    put16(&mut vram, 0x800, 0x0401);
    assert_eq!(gpu.text_pixel(&vram, &palette, 0, 7, 0), Some(Rgb15(0x1234)));
    assert_eq!(gpu.text_pixel(&vram, &palette, 0, 6, 0), Some(Rgb15(0x5678)));
    assert_eq!(gpu.text_pixel(&vram, &palette, 0, 0, 0), None);
    // flipped vertically
    put16(&mut vram, 0x800, 0x0801);
    assert_eq!(gpu.text_pixel(&vram, &palette, 0, 0, 0), Some(Rgb15(0x5678)));
    assert_eq!(gpu.text_pixel(&vram, &palette, 0, 0, 7), Some(Rgb15(0x1234)));
    // palette 3
    put16(&mut vram, 0x800, 0x3001);
    assert_eq!(gpu.text_pixel(&vram, &palette, 0, 0, 0), Some(Rgb15(0x0bad)));
}

#[test]
fn mode0_wide_backgrounds_use_more_screen_blocks() {
    let (mut vram, palette) = tiled_scene();
    let mut gpu = Gpu::new();
    gpu.dispcnt = DisplayControl(0x0100);
    // 512 pixels wide, tile map in block 1: the right half is block 2
    gpu.bgcnt[0] = BgControl(0x4100);
    put16(&mut vram, 0x800, 0);
    put16(&mut vram, 0x1000, 0x0001);
    gpu.bghofs[0] = 256;
    assert_eq!(gpu.text_pixel(&vram, &palette, 0, 0, 0), Some(Rgb15(0x1234)));
    gpu.bghofs[0] = 0;
    assert_eq!(gpu.text_pixel(&vram, &palette, 0, 0, 0), None);
    // 256 wide and 512 high: the lower half is block 2
    gpu.bgcnt[0] = BgControl(0x8100);
    gpu.bgvofs[0] = 256;
    assert_eq!(gpu.text_pixel(&vram, &palette, 0, 0, 0), Some(Rgb15(0x1234)));
    // 512 by 512: the lower right quarter is block 4
    gpu.bgcnt[0] = BgControl(0xc100);
    put16(&mut vram, 0x1000, 0);
    put16(&mut vram, 0x800 + 3 * 0x800, 0x0001);
    gpu.bghofs[0] = 256;
    assert_eq!(gpu.text_pixel(&vram, &palette, 0, 0, 0), Some(Rgb15(0x1234)));
    // the second row of tiles lies 32 entries further
    gpu.bgcnt[0] = BgControl(0x0100);
    gpu.bghofs[0] = 0;
    gpu.bgvofs[0] = 8;
    put16(&mut vram, 0x800 + 2 * 32 + 2 * 2, 0x0001);
    assert_eq!(gpu.text_pixel(&vram, &palette, 0, 16, 0), Some(Rgb15(0x1234)));
}

#[test]
fn mode0_at_eight_bits_a_pixel() {
    let (mut vram, mut palette) = blank_memories();
    put16(&mut palette, 2 * 200, 0x4321);
    // tile 1 takes 64 bytes from 0x4000 + 0x40
    vram[0x4000 + 0x40 + 8 + 3] = 200;
    put16(&mut vram, 0x800, 0xf001);
    let mut gpu = Gpu::new();
    gpu.dispcnt = DisplayControl(0x0100);
    gpu.bgcnt[0] = BgControl(0x0184);
    assert_eq!(gpu.text_pixel(&vram, &palette, 0, 3, 1), Some(Rgb15(0x4321)));
    assert_eq!(gpu.text_pixel(&vram, &palette, 0, 3, 0), None);
}

#[test]
fn mode0_priorities() {
    let (mut vram, mut palette) = tiled_scene();
    // background 1 shows tile 2, whose first pixel has index 3
    vram[0x40] = 0x03;
    put16(&mut vram, 0x1000, 0x0002);
    put16(&mut palette, 6, 0x0999);
    let mut gpu = Gpu::new();
    gpu.dispcnt = DisplayControl(0x0300);
    gpu.bgcnt[0] = BgControl(0x0100);
    gpu.bgcnt[1] = BgControl(0x0200);
    // equal priorities: background 0 is in front
    draw_line(&mut gpu, &vram, &palette);
    assert_eq!(gpu.pixeldata.get(0), Rgb15(0x1234));
    // background 1 shows where background 0 is transparent
    vram[0x40] = 0x33;
    let mut gpu2 = Gpu::new();
    gpu2.dispcnt = DisplayControl(0x0300);
    gpu2.bgcnt[0] = BgControl(0x0100);
    gpu2.bgcnt[1] = BgControl(0x0200);
    gpu2.bghofs[0] = 1;
    draw_line(&mut gpu2, &vram, &palette);
    assert_eq!(gpu2.pixeldata.get(0), Rgb15(0x5678));
    assert_eq!(gpu2.pixeldata.get(1), Rgb15(0x0999));
    assert_eq!(gpu2.pixeldata.get(2), Rgb15(0x7fff));
    // a lower priority number is in front
    let mut gpu3 = Gpu::new();
    gpu3.dispcnt = DisplayControl(0x0300);
    gpu3.bgcnt[0] = BgControl(0x0101);
    gpu3.bgcnt[1] = BgControl(0x0200);
    draw_line(&mut gpu3, &vram, &palette);
    assert_eq!(gpu3.pixeldata.get(0), Rgb15(0x0999));
    assert_eq!(gpu3.pixeldata.get(1), Rgb15(0x0999));
}

#[test]
fn text_backgrounds_of_the_other_modes() {
    let (mut vram, palette) = tiled_scene();
    put16(&mut vram, 0x1000, 0x0001);
    // in mode 1 the first two backgrounds are text backgrounds
    let mut gpu = Gpu::new();
    gpu.dispcnt = DisplayControl(0x0401);
    gpu.bgcnt[2] = BgControl(0x0100);
    draw_line(&mut gpu, &vram, &palette);
    assert_eq!(gpu.pixeldata.get(0), Rgb15(0x7fff));
    let mut gpu = Gpu::new();
    gpu.dispcnt = DisplayControl(0x0201);
    gpu.bgcnt[1] = BgControl(0x0100);
    draw_line(&mut gpu, &vram, &palette);
    assert_eq!(gpu.pixeldata.get(0), Rgb15(0x1234));
    // in mode 2 there are none
    let mut gpu = Gpu::new();
    gpu.dispcnt = DisplayControl(0x0f02);
    gpu.bgcnt[0] = BgControl(0x0100);
    draw_line(&mut gpu, &vram, &palette);
    assert_eq!(gpu.pixeldata.get(0), Rgb15(0x7fff));
}

#[test]
fn single_renderers_draw_one_line() {
    let (vram, palette) = tiled_scene();
    let mut gpu = Gpu::new();
    gpu.bgcnt[0] = BgControl(0x0100);
    gpu.current_scanline = 7;
    gpu.scanline_mode0(0, &vram, &palette);
    assert_eq!(gpu.pixeldata.get(7 * 240), Rgb15(0x5678));
    assert_eq!(gpu.pixeldata.get(7 * 240 + 1), Rgb15(0));
    assert_eq!(gpu.pixeldata.get(0), Rgb15(0));
    let mut gpu = Gpu::new();
    gpu.dispcnt = DisplayControl(3);
    gpu.scanline(&vram, &palette);
    assert_eq!(gpu.pixeldata.get(0x10), Rgb15(0x0021));
    let mut gpu = Gpu::new();
    gpu.scanline_mode3(&vram);
    assert_eq!(gpu.pixeldata.get(0x10), Rgb15(0x0021));
    gpu.scanline_mode4(&vram, &palette);
    assert_eq!(gpu.pixeldata.get(0x3c), Rgb15(0x5678));
    assert_eq!(gpu.pixeldata.get(0x20), Rgb15(0));
    assert_eq!(gpu.pixeldata.get(0), Rgb15(0x7fff));
    gpu.scanline_mode5(&vram, &palette);
    assert_eq!(gpu.pixeldata.get(0x10), Rgb15(0x0021));
    assert_eq!(gpu.pixeldata.get(160), Rgb15(0x7fff));
}

#[test]
fn render_gives_eight_bits_a_channel() {
    let mut gpu = Gpu::new();
    gpu.pixeldata.pixels[0] = Rgb15(0x7fff);
    gpu.pixeldata.pixels[1] = Rgb15(0x001f);
    gpu.pixeldata.pixels[240] = Rgb15(0x03e0);
    gpu.pixeldata.pixels[38399] = Rgb15(0x7c00);
    let picture = gpu.render();
    assert_eq!(picture.len(), 240 * 160);
    assert_eq!(picture[0], 0x00f8_f8f8);
    assert_eq!(picture[1], 0x00f8_0000);
    assert_eq!(picture[240], 0x0000_f800);
    assert_eq!(picture[38399], 0x0000_00f8);
    assert_eq!(picture[2], 0);
    assert_eq!(Rgb15(0x8000).rgb24(), 0);
    assert_eq!(Rgb15(0x0421).rgb24(), 0x0008_0808);
}

#[test]
fn display_control_bits_above_the_backgrounds() {
    let cnt = DisplayControl(0x9000);
    assert_eq!(cnt.disp_bg(3), false);
    assert_eq!(cnt.disp_bg(4), true);
    assert_eq!(cnt.disp_bg(5), false);
    assert_eq!(cnt.disp_bg(7), true);
}

#[test]
fn pixel_index_of_any_coordinates() {
    let (mut vram, _) = blank_memories();
    vram[0x100 + 20 * 4 + 5] = 0x7e;
    let gpu = Gpu::new();
    assert_eq!(gpu.read_pixel_index(&vram, VRAM_ADDR + 0x100, 10, 20, PixelFormat::BPP4), 0xe);
    assert_eq!(gpu.read_pixel_index(&vram, VRAM_ADDR + 0x100, 11, 20, PixelFormat::BPP4), 0x7);
    assert_eq!(gpu.read_pixel_index(&vram, VRAM_ADDR + 0x100, 85, 0, PixelFormat::BPP8), 0x7e);
    assert_eq!(
        gpu.read_pixel_index(&vram, 0xffff_ffff, 0xffff_ffff, 0xffff_ffff, PixelFormat::BPP8),
        0
    );
}
