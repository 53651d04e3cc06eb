use rustboyadvance_core::dma::DmaChannelCtrl;
use rustboyadvance_core::gba::IoDevices;
use rustboyadvance_core::gpu::{BgControl, DisplayControl, GpuState};
use rustboyadvance_core::interrupt::IrqBitmask;
use rustboyadvance_core::ioregs::{
    IoRegs, WaitControl, IO_BASE, KEYINPUT_ALL_RELEASED, REG_BG0CNT, REG_BG0HOFS, REG_BLDALPHA,
    REG_BLDCNT, REG_BLDY, REG_DISPCNT, REG_DISPSTAT, REG_DMA0SAD, REG_IE, REG_IF, REG_IME,
    REG_KEYINPUT, REG_MOSAIC, REG_POSTFLG, REG_TM0CNT_L, REG_VCOUNT, REG_WAITCNT, REG_WIN0H,
    REG_WIN0V, REG_WIN1H, REG_WIN1V, REG_WININ, REG_WINOUT,
};
use rustboyadvance_core::memory::{read_16, read_8, write_16, write_8};
use rustboyadvance_core::sysbus::{
    SysBus, BIOS_SIZE, EWRAM_ADDR, EWRAM_SIZE, GAMEPAK_ADDR, IWRAM_ADDR, IWRAM_SIZE, OAM_ADDR,
    OAM_SIZE, PALRAM_ADDR, PALRAM_SIZE, SRAM_ADDR, SRAM_SIZE, VRAM_SIZE,
};

fn bus_with(bios: Vec<u8>, rom: Vec<u8>) -> SysBus {
    SysBus::new(bios, rom, IoRegs::new(IoDevices::new()))
}

fn plain_bus() -> SysBus {
    bus_with(vec![0u8; 0x4000], vec![0x11, 0x22, 0x33, 0x44, 0x55])
}

#[test]
fn byte_memories() {
    let mut mem = vec![1u8, 2, 3];
    assert_eq!(read_8(&mem, 0), 1);
    assert_eq!(read_8(&mem, 3), 0);
    assert_eq!(read_8(&mem, u64::MAX), 0);
    assert_eq!(read_16(&mem, 1), 0x0302);
    assert_eq!(read_16(&mem, 2), 0x0003);
    write_8(&mut mem, 1, 9);
    write_8(&mut mem, 3, 9);
    assert_eq!(mem, vec![1, 9, 3]);
    write_16(&mut mem, 0, 0xbbaa);
    assert_eq!(mem, vec![0xaa, 0xbb, 3]);
    write_16(&mut mem, 2, 0xddcc);
    assert_eq!(mem, vec![0xaa, 0xbb, 0xcc]);
}

#[test]
fn a_new_bus_has_zeroed_memories_of_the_right_sizes() {
    let bus = plain_bus();
    assert_eq!(bus.bios.len(), BIOS_SIZE);
    assert_eq!(bus.onboard_work_ram, vec![0u8; EWRAM_SIZE]);
    assert_eq!(bus.internal_work_ram, vec![0u8; IWRAM_SIZE]);
    assert_eq!(bus.palette_ram, vec![0u8; PALRAM_SIZE]);
    assert_eq!(bus.vram, vec![0u8; VRAM_SIZE]);
    assert_eq!(bus.oam, vec![0u8; OAM_SIZE]);
    assert_eq!(bus.sram, vec![0u8; SRAM_SIZE]);
    assert_eq!(bus.gamepak, vec![0x11, 0x22, 0x33, 0x44, 0x55]);
    assert_eq!(bus.ioregs.keyinput, KEYINPUT_ALL_RELEASED);
    assert_eq!(bus.ioregs.post_boot_flag, false);
    assert_eq!(bus.ioregs.waitcnt, WaitControl(0));
    assert_eq!(bus.ioregs.io.gpu.state, GpuState::HDraw);
    assert_eq!(bus.ioregs.io.gpu.dispcnt, DisplayControl(0x80));
}

#[test]
fn every_memory_is_reached_at_its_address() {
    let mut bus = plain_bus();
    let places: [(u32, usize); 6] = [
        (EWRAM_ADDR, EWRAM_SIZE),
        (IWRAM_ADDR, IWRAM_SIZE),
        (PALRAM_ADDR, PALRAM_SIZE),
        (0x0600_0000, VRAM_SIZE),
        (OAM_ADDR, OAM_SIZE),
        (SRAM_ADDR, SRAM_SIZE),
    ];
    for (i, (base, size)) in places.iter().enumerate() {
        let last = base + *size as u32 - 4;
        bus.write_32(*base, 0x0101_0101 * (i as u32 + 1));
        bus.write_32(last, 0x1010_1010 * (i as u32 + 1));
        assert_eq!(bus.read_32(*base), 0x0101_0101 * (i as u32 + 1));
        assert_eq!(bus.read_32(last), 0x1010_1010 * (i as u32 + 1));
        // behind the end of the memory nothing is mapped
        bus.write_32(last + 4, 0xffff_ffff);
        assert_eq!(bus.read_32(last + 4), 0);
        assert_eq!(bus.read_8(last + 4), 0);
    }
    assert_eq!(bus.onboard_work_ram[0], 1);
    assert_eq!(bus.internal_work_ram[0], 2);
    assert_eq!(bus.palette_ram[0x3fc], 0x30);
    assert_eq!(bus.vram[0x1_7fff], 0x40);
    assert_eq!(bus.oam[3], 5);
    assert_eq!(bus.sram[0xffff], 0x60);
}

#[test]
fn little_endian_widths() {
    let mut bus = plain_bus();
    bus.write_32(0x0300_0000, 0x4433_2211);
    assert_eq!(bus.read_8(0x0300_0000), 0x11);
    assert_eq!(bus.read_8(0x0300_0003), 0x44);
    assert_eq!(bus.read_16(0x0300_0000), 0x2211);
    assert_eq!(bus.read_16(0x0300_0002), 0x4433);
    bus.write_16(0x0300_0002, 0xbbaa);
    assert_eq!(bus.read_32(0x0300_0000), 0xbbaa_2211);
    bus.write_8(0x0300_0001, 0xff);
    assert_eq!(bus.read_32(0x0300_0000), 0xbbaa_ff11);
    assert_eq!(bus.internal_work_ram[0..4], [0x11, 0xff, 0xaa, 0xbb]);
}

#[test]
fn misaligned_reads_rotate() {
    let mut bus = plain_bus();
    bus.write_32(0x0200_0000, 0x4433_2211);
    bus.write_32(0x0200_0004, 0x8877_6655);
    assert_eq!(bus.read_32(0x0200_0001), 0x1144_3322);
    assert_eq!(bus.read_32(0x0200_0002), 0x2211_4433);
    assert_eq!(bus.read_32(0x0200_0003), 0x3322_1144);
    assert_eq!(bus.read_32(0x0200_0005), 0x5588_7766);
    assert_eq!(bus.read_16(0x0200_0001), 0x1122);
    assert_eq!(bus.read_16(0x0200_0003), 0x3344);
    assert_eq!(bus.read_8(0x0200_0001), 0x22);
}

#[test]
fn misaligned_writes_go_to_the_aligned_address() {
    let mut bus = plain_bus();
    bus.write_32(0x0200_0013, 0xaabb_ccdd);
    assert_eq!(bus.read_32(0x0200_0010), 0xaabb_ccdd);
    assert_eq!(bus.read_32(0x0200_0014), 0);
    bus.write_16(0x0200_0021, 0x1234);
    assert_eq!(bus.read_32(0x0200_0020), 0x0000_1234);
}

#[test]
fn bios_and_cartridge_are_read_only() {
    let mut bios = vec![0u8; 0x4000];
    bios[4] = 0xaa;
    bios[0x3fff] = 0xbb;
    let mut bus = bus_with(bios, vec![0x11, 0x22, 0x33, 0x44, 0x55]);
    assert_eq!(bus.read_8(4), 0xaa);
    assert_eq!(bus.read_8(0x3fff), 0xbb);
    assert_eq!(bus.read_8(0x4000), 0);
    bus.write_32(4, 0xffff_ffff);
    assert_eq!(bus.read_32(4), 0xaa);
    assert_eq!(bus.read_32(GAMEPAK_ADDR), 0x4433_2211);
    // behind the end of the cartridge everything reads as zero
    assert_eq!(bus.read_32(GAMEPAK_ADDR + 4), 0x55);
    assert_eq!(bus.read_16(GAMEPAK_ADDR + 6), 0);
    assert_eq!(bus.read_32(0x09ff_fffc), 0);
    bus.write_32(GAMEPAK_ADDR, 0);
    bus.write_8(GAMEPAK_ADDR + 1, 0);
    assert_eq!(bus.read_32(GAMEPAK_ADDR), 0x4433_2211);
}

#[test]
fn unmapped_addresses_read_zero_and_drop_writes() {
    let mut bus = plain_bus();
    for addr in [0x0000_4000u32, 0x0100_0000, 0x0204_0000, 0x0300_8000, 0x0a00_0000, 0x0e01_0000, 0xffff_fffc] {
        bus.write_32(addr, 0xffff_ffff);
        bus.write_16(addr, 0xffff);
        bus.write_8(addr, 0xff);
        assert_eq!(bus.read_32(addr), 0, "{:08x}", addr);
        assert_eq!(bus.read_16(addr), 0);
        assert_eq!(bus.read_8(addr), 0);
    }
    assert_eq!(bus.read_32(0xffff_ffff), 0);
}

#[test]
fn access_cycles_by_region() {
    let bus = plain_bus();
    assert_eq!(bus.get_cycles(0), 1);
    assert_eq!(bus.get_cycles(0x0200_0000), 3);
    assert_eq!(bus.get_cycles(0x0203_ffff), 3);
    assert_eq!(bus.get_cycles(0x0204_0000), 1);
    assert_eq!(bus.get_cycles(0x0300_0000), 1);
    assert_eq!(bus.get_cycles(0x0400_0000), 1);
    assert_eq!(bus.get_cycles(0x0600_0000), 1);
    assert_eq!(bus.get_cycles(0x0800_0000), 5);
    assert_eq!(bus.get_cycles(0x09ff_ffff), 5);
    assert_eq!(bus.get_cycles(0x0e00_0000), 5);
    assert_eq!(bus.get_cycles(0x0e01_0000), 1);
}

#[test]
fn plain_registers_give_back_what_was_written() {
    let mut bus = plain_bus();
    let plain = [
        REG_DISPCNT,
        REG_BG0CNT,
        REG_BG0CNT + 2,
        REG_BG0CNT + 4,
        REG_BG0CNT + 6,
        REG_WIN0H,
        REG_WIN1H,
        REG_WIN0V,
        REG_WIN1V,
        REG_WININ,
        REG_WINOUT,
        REG_BLDCNT,
        REG_BLDALPHA,
        REG_DMA0SAD + 10,
        REG_DMA0SAD + 12 * 3 + 10,
        REG_TM0CNT_L,
        REG_TM0CNT_L + 2,
        REG_TM0CNT_L + 14,
        REG_IE,
        REG_WAITCNT,
        IO_BASE + 0x002,
        IO_BASE + 0x060,
        IO_BASE + 0x088,
        IO_BASE + 0x134,
        IO_BASE + 0x3fe,
    ];
    for (i, addr) in plain.iter().enumerate() {
        for x in [0xffffu16, 0x0000, 0xa5c3, i as u16] {
            bus.write_16(*addr, x);
            assert_eq!(bus.read_16(*addr), x, "{:08x}", addr);
            assert_eq!(bus.ioregs.read_16(addr - IO_BASE), x);
        }
    }
    // and the write goes where it belongs
    bus.write_16(REG_DISPCNT, 0x0403);
    assert_eq!(bus.ioregs.io.gpu.dispcnt, DisplayControl(0x0403));
    bus.write_16(REG_BG0CNT + 4, 0x1f0c);
    assert_eq!(bus.ioregs.io.gpu.bgcnt[2], BgControl(0x1f0c));
    bus.write_16(REG_IE, 0x3fff);
    assert_eq!(bus.ioregs.io.intc.interrupt_enable, IrqBitmask(0x3fff));
    bus.write_16(REG_WAITCNT, 0x4317);
    assert_eq!(bus.ioregs.waitcnt, WaitControl(0x4317));
    bus.write_16(REG_DMA0SAD + 12 + 10, 0x0400);
    assert_eq!(bus.ioregs.io.dmac.channels[1].ctrl, DmaChannelCtrl(0x0400));
    bus.write_16(REG_TM0CNT_L + 4, 0xff00);
    assert_eq!(bus.ioregs.io.timers.timers[1].data, 0xff00);
    assert_eq!(bus.ioregs.io.timers.timers[1].initial_data, 0xff00);
    bus.write_16(REG_TM0CNT_L + 6, 0x00c1);
    assert_eq!(bus.ioregs.io.timers.timers[1].ctrl, 0x00c1);
    bus.write_16(IO_BASE + 0x060, 0x1234);
    assert_eq!(bus.ioregs.mem[0x30], 0x1234);
}

#[test]
fn registers_with_a_different_reading() {
    let mut bus = plain_bus();
    // the status flags of DISPSTAT cannot be written
    bus.write_16(REG_DISPSTAT, 0xffff);
    assert_eq!(bus.read_16(REG_DISPSTAT), 0xff38);
    bus.ioregs.io.gpu.dispstat.vblank = true;
    assert_eq!(bus.read_16(REG_DISPSTAT), 0xff39);
    // the scanline counter is read-only
    bus.ioregs.io.gpu.current_scanline = 77;
    bus.write_16(REG_VCOUNT, 5);
    assert_eq!(bus.read_16(REG_VCOUNT), 77);
    assert_eq!(bus.ioregs.io.gpu.current_scanline, 77);
    // scroll, mosaic and brightness are write-only
    bus.write_16(REG_BG0HOFS, 0xffff);
    bus.write_16(REG_BG0HOFS + 2, 0x0123);
    bus.write_16(REG_BG0HOFS + 12, 0x0005);
    bus.write_16(REG_BG0HOFS + 14, 0xfe00);
    assert_eq!(bus.ioregs.io.gpu.bghofs, [0x1ff, 0, 0, 5]);
    assert_eq!(bus.ioregs.io.gpu.bgvofs, [0x123, 0, 0, 0]);
    assert_eq!(bus.read_16(REG_BG0HOFS), 0);
    bus.write_16(REG_MOSAIC, 0x1234);
    assert_eq!(bus.ioregs.io.gpu.mosaic, 0x1234);
    assert_eq!(bus.read_16(REG_MOSAIC), 0);
    bus.write_16(REG_BLDY, 0xffff);
    assert_eq!(bus.ioregs.io.gpu.bldy, 0x1f);
    assert_eq!(bus.read_16(REG_BLDY), 0);
    // the keys are read-only
    bus.write_16(REG_KEYINPUT, 0);
    assert_eq!(bus.read_16(REG_KEYINPUT), 0x03ff);
    bus.ioregs.keyinput = 0x03fe;
    assert_eq!(bus.read_16(REG_KEYINPUT), 0x03fe);
    // the master enable is one bit
    bus.write_16(REG_IME, 0xffff);
    assert_eq!(bus.read_16(REG_IME), 1);
    assert_eq!(bus.ioregs.io.intc.interrupt_master_enable, true);
    bus.write_16(REG_IME, 0xfffe);
    assert_eq!(bus.read_16(REG_IME), 0);
    bus.write_16(REG_POSTFLG, 1);
    assert_eq!(bus.ioregs.post_boot_flag, true);
    assert_eq!(bus.read_16(REG_POSTFLG), 1);
    // DMA addresses and counts are write-only
    bus.write_32(REG_DMA0SAD + 24, 0x0812_3456);
    bus.write_32(REG_DMA0SAD + 28, 0x0300_0000);
    bus.write_16(REG_DMA0SAD + 32, 0x0100);
    assert_eq!(bus.ioregs.io.dmac.channels[2].src, 0x0812_3456);
    assert_eq!(bus.ioregs.io.dmac.channels[2].dst, 0x0300_0000);
    assert_eq!(bus.ioregs.io.dmac.channels[2].wc, 0x100);
    assert_eq!(bus.read_32(REG_DMA0SAD + 24), 0);
    assert_eq!(bus.read_16(REG_DMA0SAD + 32), 0);
}

#[test]
fn writing_ones_to_the_request_flags_acknowledges() {
    let mut bus = plain_bus();
    bus.ioregs.io.intc.interrupt_flags = IrqBitmask(0b1011);
    bus.write_16(REG_IF, 0);
    assert_eq!(bus.read_16(REG_IF), 0b1011);
    bus.write_16(REG_IF, 0b0110);
    assert_eq!(bus.read_16(REG_IF), 0b1001);
    bus.write_16(REG_IF, 0xffff);
    assert_eq!(bus.read_16(REG_IF), 0);
}

#[test]
fn narrow_writes_keep_the_other_byte_of_a_register() {
    let mut bus = plain_bus();
    bus.write_16(REG_BLDCNT, 0xaabb);
    bus.write_8(REG_BLDCNT, 0x11);
    assert_eq!(bus.read_16(REG_BLDCNT), 0xaa11);
    bus.write_8(REG_BLDCNT + 1, 0x22);
    assert_eq!(bus.read_16(REG_BLDCNT), 0x2211);
    assert_eq!(bus.read_8(REG_BLDCNT), 0x11);
    assert_eq!(bus.read_8(REG_BLDCNT + 1), 0x22);
    // the neighbours are untouched
    bus.write_16(REG_BLDALPHA, 0x3344);
    bus.write_8(REG_BLDCNT + 1, 0x55);
    assert_eq!(bus.read_16(REG_BLDALPHA), 0x3344);
    // a word is two halfwords, the low one first
    bus.write_32(REG_WIN0H, 0x8765_4321);
    assert_eq!(bus.ioregs.io.gpu.win0h, 0x4321);
    assert_eq!(bus.ioregs.io.gpu.win1h, 0x8765);
    assert_eq!(bus.read_32(REG_WIN0H), 0x8765_4321);
    assert_eq!(bus.read_32(REG_WIN0H + 1), 0x2187_6543);
    assert_eq!(bus.read_16(REG_WIN0H + 1), 0x2143);
}

#[test]
fn offsets_outside_the_io_area() {
    let mut regs = IoRegs::new(IoDevices::new());
    regs.write_16(0x400, 0xffff);
    regs.write_16(0xffff_fffe, 0xffff);
    assert_eq!(regs.read_16(0x400), 0);
    assert_eq!(regs.read_16(0xffff_fffe), 0);
    regs.write_16(0x3fe, 0x1234);
    assert_eq!(regs.read_16(0x3fe), 0x1234);
    assert_eq!(regs.mem[511], 0x1234);
}

#[test]
fn halfword_access_at_the_very_end_of_the_offsets() {
    let mut mem = vec![7u8; 4];
    assert_eq!(read_16(&mem, u64::MAX), 0);
    write_16(&mut mem, u64::MAX, 0xffff);
    assert_eq!(mem, vec![7u8; 4]);
}
