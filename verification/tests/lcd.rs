use ti84ce::peripherals::lcd::{LcdCompare, LcdController, DEFAULT_VRAM_BASE};

const REG_UPBASE: u32 = 0x10;
const REG_CONTROL: u32 = 0x18;
const REG_IMSC: u32 = 0x1C;
const REG_RIS: u32 = 0x20;
const REG_MIS: u32 = 0x24;
const REG_ICR: u32 = 0x28;
const REG_UPCURR: u32 = 0x2C;

const CTRL_ENABLE: u32 = 1 << 0;
const CTRL_BGR: u32 = 1 << 8;

#[test]
fn lcd_test_new() {
    let lcd = LcdController::new();
    assert!(!lcd.is_enabled());
    assert_eq!(lcd.upbase(), DEFAULT_VRAM_BASE);
    assert_eq!(lcd.compare, LcdCompare::FrontPorch);
}

#[test]
fn lcd_test_reset() {
    let mut lcd = LcdController::new();
    lcd.control = CTRL_ENABLE;
    lcd.upbase = 0xD50000;
    lcd.imsc = 0x1E;
    lcd.compare = LcdCompare::ActiveVideo;

    lcd.reset();
    assert!(!lcd.is_enabled());
    assert_eq!(lcd.upbase(), DEFAULT_VRAM_BASE);
    assert_eq!(lcd.imsc, 0);
    assert_eq!(lcd.compare, LcdCompare::FrontPorch);
}

#[test]
fn test_enable_triggers_lcd_event_flag() {
    let mut lcd = LcdController::new();
    lcd.write(REG_CONTROL, CTRL_ENABLE as u8);
    assert!(lcd.is_enabled());
    assert!(lcd.needs_lcd_event);
    assert_eq!(lcd.compare, LcdCompare::Sync);
}

#[test]
fn test_disable_triggers_lcd_clear_flag() {
    let mut lcd = LcdController::new();
    lcd.control = CTRL_ENABLE;
    lcd.write(REG_CONTROL, 0x00);
    assert!(!lcd.is_enabled());
    assert!(lcd.needs_lcd_clear);
}

#[test]
fn test_upbase_write() {
    let mut lcd = LcdController::new();
    lcd.write(REG_UPBASE, 0x00);
    lcd.write(REG_UPBASE + 1, 0x00);
    lcd.write(REG_UPBASE + 2, 0xD5);
    assert_eq!(lcd.upbase(), 0xD50000);
}

#[test]
fn test_upbase_alignment() {
    let mut lcd = LcdController::new();
    lcd.write(REG_UPBASE, 0x07);
    assert_eq!(lcd.upbase & 0x07, 0);
}

#[test]
fn test_icr_clears_ris() {
    let mut lcd = LcdController::new();
    lcd.ris = 0x1E;
    lcd.write(REG_ICR, 0x08);
    assert_eq!(lcd.ris, 0x16);
    lcd.write(REG_ICR, 0x16);
    assert_eq!(lcd.ris, 0x00);
}

#[test]
fn test_imsc_masks_bit0() {
    let mut lcd = LcdController::new();
    lcd.write(REG_IMSC, 0x1F);
    assert_eq!(lcd.imsc, 0x1E);
    assert_eq!(lcd.read(REG_IMSC), 0x1E);
}

#[test]
fn test_ris_read_masks_bit0() {
    let mut lcd = LcdController::new();
    lcd.ris = 0x1F;
    assert_eq!(lcd.read(REG_RIS), 0x1E);
}

#[test]
fn test_mis_read() {
    let mut lcd = LcdController::new();
    lcd.imsc = 0x08;
    lcd.ris = 0x1E;
    assert_eq!(lcd.read(REG_MIS), 0x08);
}

#[test]
fn test_palette_read_write() {
    let mut lcd = LcdController::new();
    lcd.write(0x200, 0xAB);
    lcd.write(0x201, 0xCD);
    assert_eq!(lcd.read(0x200), 0xAB);
    assert_eq!(lcd.read(0x201), 0xCD);
    lcd.write(0x3FE, 0x12);
    lcd.write(0x3FF, 0x34);
    assert_eq!(lcd.read(0x3FE), 0x12);
    assert_eq!(lcd.read(0x3FF), 0x34);
}

#[test]
fn test_palette_preconversion_1555_to_565() {
    let mut lcd = LcdController::new();

    lcd.write(0x200, 0x1F);
    lcd.write(0x201, 0x00);

    assert_eq!(lcd.palette_bgr565[0], 0x001F);
    assert_eq!(lcd.palette_rgb565[0], 0xF800);

    lcd.write(0x202, 0x00);
    lcd.write(0x203, 0x7C);

    assert_eq!(lcd.palette_bgr565[1], 0xF800);

    lcd.write(0x204, 0xE0);
    lcd.write(0x205, 0x03);

    assert_eq!(lcd.palette_bgr565[2], 0x07C0);
}

#[test]
fn test_palette_for_mode_selects_by_bgr_bit() {
    let mut lcd = LcdController::new();
    lcd.write(0x200, 0x1F);
    lcd.write(0x201, 0x00);

    assert_eq!(lcd.palette_for_mode()[0], lcd.palette_bgr565[0]);

    lcd.control |= CTRL_BGR;
    assert_eq!(lcd.palette_for_mode()[0], lcd.palette_rgb565[0]);
}

#[test]
fn test_periph_id() {
    let lcd = LcdController::new();
    assert_eq!(lcd.read(0xFE0), 0x11);
    assert_eq!(lcd.read(0xFE4), 0x11);
    assert_eq!(lcd.read(0xFE8), 0x14);
    assert_eq!(lcd.read(0xFEC), 0x00);
    assert_eq!(lcd.read(0xFF0), 0x0D);
    assert_eq!(lcd.read(0xFF4), 0xF0);
    assert_eq!(lcd.read(0xFF8), 0x05);
    assert_eq!(lcd.read(0xFFC), 0xB1);
}

#[test]
fn test_extract_timing() {
    let mut lcd = LcdController::new();
    lcd.timing[0] = (19 << 2) | (0 << 8) | (0 << 16) | (0 << 24);
    lcd.timing[1] = 239 | (0 << 10) | (2 << 16) | (2 << 24);
    lcd.timing[2] = 0 | (319 << 16);
    lcd.control = CTRL_ENABLE;

    lcd.extract_timing();

    assert_eq!(lcd.ppl, 320);
    assert_eq!(lcd.hsw, 1);
    assert_eq!(lcd.hfp, 1);
    assert_eq!(lcd.hbp, 1);
    assert_eq!(lcd.lpp, 240);
    assert_eq!(lcd.vsw, 1);
    assert_eq!(lcd.vfp, 2);
    assert_eq!(lcd.vbp, 2);
    assert_eq!(lcd.pcd, 2);
    assert_eq!(lcd.cpl, 320);
}

#[test]
fn test_process_event_sync_to_lnbu() {
    let mut lcd = LcdController::new();
    lcd.timing[0] = (19 << 2) | (0 << 8) | (0 << 16) | (0 << 24);
    lcd.timing[1] = 239 | (0 << 10) | (2 << 16) | (2 << 24);
    lcd.timing[2] = 0 | (319 << 16);
    lcd.control = CTRL_ENABLE;
    lcd.compare = LcdCompare::Sync;

    let result = lcd.process_event();

    assert_eq!(lcd.compare, LcdCompare::Lnbu);
    assert!(lcd.prefill);
    assert_eq!(lcd.pos, 0);
    assert!(result.schedule_dma_offset.is_some());
    assert!(result.duration > 0);
}

#[test]
fn test_process_dma_prefill() {
    let mut lcd = LcdController::new();
    lcd.upbase = 0xD40000;
    lcd.prefill = true;
    lcd.pos = 0;
    lcd.lpp = 240;

    let result = lcd.process_dma();
    assert_eq!(lcd.upcurr, 0xD40000 + 64);
    assert_eq!(lcd.pos, 64);
    assert!(result.repeat_ticks.is_some());

    let result = lcd.process_dma();
    assert_eq!(lcd.pos, 128);
    assert!(result.repeat_ticks.is_some());
    assert_eq!(result.repeat_ticks.unwrap(), 22);

    let result = lcd.process_dma();
    assert_eq!(lcd.pos, 192);
    assert!(result.repeat_ticks.is_some());

    let result = lcd.process_dma();
    assert_eq!(lcd.pos, 0);
    assert!(!lcd.prefill);
    assert!(result.repeat_ticks.is_none());
}

#[test]
fn test_process_dma_active() {
    let mut lcd = LcdController::new();
    lcd.upbase = 0xD40000;
    lcd.upcurr = 0xD40000;
    lcd.prefill = false;
    lcd.lpp = 240;
    lcd.cpl = 320;
    lcd.bpp = 4;
    lcd.wtrmrk = 0;
    lcd.hsw = 1;
    lcd.hfp = 1;
    lcd.hbp = 1;
    lcd.pcd = 2;

    let result = lcd.process_dma();
    assert!(lcd.upcurr > 0xD40000);
    assert!(result.repeat_ticks.is_some());
}

#[test]
fn test_upcurr_read() {
    let mut lcd = LcdController::new();
    lcd.upcurr = 0xD40100;
    assert_eq!(lcd.read(REG_UPCURR), 0x00);
    assert_eq!(lcd.read(REG_UPCURR + 1), 0x01);
    assert_eq!(lcd.read(REG_UPCURR + 2), 0xD4);
}

#[test]
fn test_reconstruct_raw_palette_roundtrip() {
    let mut lcd = LcdController::new();

    let test_colors: [(u8, u8); 4] = [
        (0x1F, 0x00),
        (0x00, 0x7C),
        (0xE0, 0x03),
        (0xFF, 0x7F),
    ];
    for (i, &(lo, hi)) in test_colors.iter().enumerate() {
        lcd.write(0x200 + (i as u32) * 2, lo);
        lcd.write(0x201 + (i as u32) * 2, hi);
    }

    let saved_bgr = lcd.palette_bgr565;
    let saved_rgb = lcd.palette_rgb565;

    lcd.palette = [0; 512];
    lcd.palette_bgr565 = saved_bgr;
    lcd.palette_rgb565 = saved_rgb;

    lcd.reconstruct_raw_palette();

    let lo = lcd.palette[0];
    lcd.write(0x200, lo);
    assert_eq!(lcd.palette_bgr565[0], saved_bgr[0],
        "BGR565 entry 0 corrupted after single byte re-write");

    for i in 0..4 {
        assert_eq!(lcd.palette_bgr565[i], saved_bgr[i],
            "BGR565 mismatch at entry {}", i);
    }
}
