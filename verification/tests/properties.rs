use ti84ce::framebuffer::argb_to_rgba;
use ti84ce::peripherals::control::ControlPorts;
use ti84ce::peripherals::flash::FlashController;
use ti84ce::peripherals::interrupt::sources;
use ti84ce::peripherals::interrupt::InterruptController;
use ti84ce::peripherals::keypad::KeypadController;
use ti84ce::peripherals::lcd::{LcdCompare, LcdController};
use ti84ce::peripherals::rtc::RtcDatetime;
use ti84ce::peripherals::sha256::Sha256Controller;
use ti84ce::peripherals::spi::SpiController;
use ti84ce::peripherals::timer::GeneralTimers;
use ti84ce::peripherals::watchdog::WatchdogController;
use ti84ce::peripherals::Peripherals;
use ti84ce::scheduler::{ClockId, EventId, Scheduler};
use ti84ce::ti_file::{TiFile, TiFileError, TiVarEntry, VarType};

fn no_keys() -> [[bool; 8]; 8] {
    [[false; 8]; 8]
}

// ---- flash ----

#[test]
fn flash_written_register_reads_back_masked() {
    let mut flash = FlashController::new();
    flash.write(0x02, 0xFF);
    assert_eq!(flash.read(0x02), 0x0F);
    flash.write(0x05, 0x21);
    assert_eq!(flash.read(0x05), 0x21);
    flash.write(0x08, 0xFF);
    assert_eq!(flash.read(0x08), 0x01);
}

#[test]
fn flash_cache_agrees_with_registers() {
    let mut flash = FlashController::new();
    for &(addr, value) in &[(0x01u32, 0x07u8), (0x02, 0x03), (0x05, 0x40), (0x00, 0x00), (0x00, 0x01)] {
        flash.write(addr, value);
        assert_eq!(flash.cached_mapped_bytes(), flash.mapped_bytes());
        assert_eq!(flash.cached_total_wait_cycles(), flash.total_wait_cycles());
    }
}

// ---- interrupt controller ----

#[test]
fn interrupt_enable_byte_reads_back() {
    let mut ic = InterruptController::new();
    ic.write(0x06, 0x5A);
    assert_eq!(ic.read(0x06), 0x5A);
    assert_eq!(ic.read(0x04), 0x00);
    assert_eq!(ic.read(0x24), 0x00);
}

#[test]
fn interrupt_raised_enabled_source_is_pending() {
    let mut ic = InterruptController::new();
    ic.write(0x05, (sources::LCD >> 8) as u8);
    ic.raise(sources::LCD);
    assert!(ic.irq_pending());
}

#[test]
fn interrupt_acknowledge_clears_status_bits() {
    let mut ic = InterruptController::new();
    ic.raise(sources::TIMER1 | sources::TIMER2);
    ic.acknowledge(sources::TIMER1 | sources::TIMER2);
    assert_eq!(ic.status_word(0) & (sources::TIMER1 | sources::TIMER2), 0);
    assert_eq!(ic.status_word(1) & (sources::TIMER1 | sources::TIMER2), 0);
}

#[test]
fn interrupt_latched_status_persists() {
    let mut ic = InterruptController::new();
    ic.write(0x0C, sources::TIMER3 as u8);
    ic.raise(sources::TIMER3);
    ic.clear_raw(sources::TIMER3);
    assert_ne!(ic.status_word(0) & sources::TIMER3, 0);
    assert_eq!(ic.read(0x08) & sources::TIMER3 as u8, 0);
}

// ---- timers ----

#[test]
fn timer_disabled_does_not_move() {
    let mut gpt = GeneralTimers::new();
    gpt.timer[1].counter = 1234;
    gpt.control = 0x01;
    let fired = gpt.tick(10_000, 3);
    assert_eq!(fired, 0);
    assert_eq!(gpt.timer[1].counter, 1234);
}

#[test]
fn timer_counts_up_exactly() {
    let mut gpt = GeneralTimers::new();
    gpt.control = 0x08;
    gpt.timer[1].counter = 7;
    gpt.tick(993, 1);
    assert_eq!(gpt.timer[1].counter, 1000);
}

#[test]
fn timer_counts_down_with_reload() {
    let mut gpt = GeneralTimers::new();
    gpt.control = 0x01 | (1 << 2) | (1 << 9);
    gpt.timer[0].counter = 3;
    gpt.timer[0].reset = 50;
    gpt.tick(10, 3);
    assert_eq!(gpt.timer[0].counter, 50 - (10 - 3));
}

#[test]
fn timer_register_write_reads_back() {
    let mut gpt = GeneralTimers::new();
    gpt.write(0x16, 0xA5);
    assert_eq!(gpt.read(0x16), 0xA5);
    gpt.write(0x38, 0x3C);
    assert_eq!(gpt.read(0x38), 0x3C);
    gpt.status = 0x1FF;
    gpt.write(0x35, 0x01);
    assert_eq!(gpt.status, 0x0FF);
}

// ---- control ports ----

#[test]
fn control_address_registers_read_back() {
    let mut c = ControlPorts::new();
    for addr in [0x1Du32, 0x1E, 0x1F, 0x20, 0x21, 0x22, 0x23, 0x24, 0x25, 0x3A, 0x3B, 0x3C] {
        let v = (addr as u8).wrapping_mul(7);
        c.write(addr, v);
        assert_eq!(c.read(addr), v);
    }
}

#[test]
fn control_write_never_sets_flash_ready() {
    let mut c = ControlPorts::new();
    assert!(!c.flash_ready());
    for v in [0xFFu8, 0x08, 0x0C] {
        c.write(0x28, v);
        assert!(!c.flash_ready());
    }
    c.set_flash_ready();
    c.write(0x28, 0x08);
    assert!(c.flash_ready());
    c.write(0x28, 0x00);
    assert!(!c.flash_ready());
}

#[test]
fn control_cpu_speed_and_lcd_enable() {
    let mut c = ControlPorts::new();
    c.write(0x01, 0xF1);
    assert_eq!(c.cpu_speed(), 0x01);
    c.write(0x0D, 0x30);
    assert!(!c.lcd_enabled());
    c.write(0x0D, 0x02);
    assert!(c.lcd_enabled());
}

#[test]
fn control_power_on_all_privileged() {
    let c = ControlPorts::new();
    assert!(!c.is_unprivileged(0));
    assert!(!c.is_unprivileged(0xFFFFFF));
}

// ---- keypad ----

#[test]
fn keypad_quick_press_is_not_lost() {
    let mut kp = KeypadController::new();
    kp.set_key_edge(2, 5, true);
    kp.set_key_edge(2, 5, false);
    let data = kp.query_row_data(2, &no_keys());
    assert_ne!(data & (1 << 5), 0);
    let again = kp.query_row_data(2, &no_keys());
    assert_eq!(again & (1 << 5), 0);
}

#[test]
fn keypad_any_key_shows_in_every_row() {
    let mut kp = KeypadController::new();
    let mut keys = no_keys();
    keys[6][1] = true;
    kp.write(0x00, 1);
    kp.any_key_check(&keys);
    for row in 0..8u32 {
        assert_eq!(kp.read(0x10 + row * 2, &keys), 1 << 1);
    }
}

#[test]
fn keypad_pack_size_fields() {
    assert_eq!(KeypadController::pack_size(8, 8, 0xFFFF), 0xFFFF_0808);
    assert_eq!(KeypadController::pack_size(4, 6, 0x000F), 0x000F_0604);
}

// ---- LCD ----

#[test]
fn lcd_rgb_palette_swaps_red_and_blue() {
    let mut lcd = LcdController::new();
    lcd.write(0x200, 0x1F);
    lcd.write(0x201, 0x00);
    let bgr = lcd.palette_bgr565[0];
    let rgb = lcd.palette_rgb565[0];
    assert_eq!(rgb, ((bgr & 0x1F) << 11) | (bgr & 0x7E0) | (bgr >> 11));
    assert_ne!(bgr, rgb);
}

#[test]
fn lcd_palette_rebuild_round_trip() {
    let mut lcd = LcdController::new();
    lcd.write(0x202, 0x34);
    lcd.write(0x203, 0x52);
    let bgr = lcd.palette_bgr565[1];
    lcd.palette = [0; 512];
    lcd.reconstruct_raw_palette();
    let (lo, hi) = (lcd.palette[2], lcd.palette[3]);
    let mut again = LcdController::new();
    again.write(0x202, lo);
    again.write(0x203, hi);
    assert_eq!(again.palette_bgr565[1], bgr);
}

#[test]
fn lcd_palette_rebuild_keeps_low_green_bit() {
    let mut lcd = LcdController::new();
    lcd.write(0x200, 0x00);
    lcd.write(0x201, 0x80);
    assert_eq!(lcd.palette_bgr565[0], 0x0020);
    lcd.palette = [0; 512];
    lcd.reconstruct_raw_palette();
    assert_eq!(lcd.read(0x200), 0x00);
    assert_eq!(lcd.read(0x201), 0x80);
    let mut again = LcdController::new();
    again.write(0x200, lcd.read(0x200));
    again.write(0x201, lcd.read(0x201));
    assert_eq!(again.palette_bgr565[0], 0x0020);
}

#[test]
fn lcd_base_stays_aligned() {
    let mut lcd = LcdController::new();
    lcd.write(0x10, 0xFF);
    lcd.write(0x14, 0x0F);
    assert_eq!(lcd.upbase & 7, 0);
    assert_eq!(lcd.lpbase & 7, 0);
    assert_eq!(lcd.upbase & 0xFF, 0xF8);
}

#[test]
fn lcd_icr_clears_written_bits() {
    let mut lcd = LcdController::new();
    lcd.ris = 0x1E;
    lcd.write(0x28, 0x06);
    assert_eq!(lcd.ris, 0x18);
}

#[test]
fn lcd_enable_starts_sync() {
    let mut lcd = LcdController::new();
    lcd.write(0x18, 0x01);
    assert_eq!(lcd.compare, LcdCompare::Sync);
    assert!(lcd.needs_lcd_event);
}

#[test]
fn lcd_timing_fields_extracted() {
    let mut lcd = LcdController::new();
    let t0 = (0x13 << 2) | (0x01 << 8) | (0x02 << 16) | (0x03 << 24);
    let t1 = 0xEF | (1 << 10) | (5 << 16) | (6 << 24);
    let t2 = 1 | (0x13F << 16);
    lcd.set_timing([t0, t1, t2, 0]);
    lcd.set_control(0x0C);
    lcd.recompute_timing();
    assert_eq!((lcd.ppl, lcd.hsw, lcd.hfp, lcd.hbp), (320, 2, 3, 4));
    assert_eq!((lcd.lpp, lcd.vsw, lcd.vfp, lcd.vbp), (240, 2, 5, 6));
    assert_eq!((lcd.pcd, lcd.cpl), (3, 320));
    assert_eq!((lcd.lcdbpp, lcd.bpp, lcd.wtrmrk, lcd.ppf), (6, 4, 0, 16));
    assert_eq!(lcd.hline(), 2 + 4 + 320 + 3);
}

// ---- RTC ----

#[test]
fn rtc_datetime_round_trip() {
    let d = RtcDatetime::from_value(0xAB_1234_5678);
    assert_eq!(d.to_value(), 0xAB_1234_5678);
    let big = RtcDatetime::from_value(0xFFFF_FF01_0203_0405);
    assert_eq!(big.to_value(), 0x01_0203_0405);
}

// ---- SHA-256 ----

#[test]
fn sha256_block_write_reads_back() {
    let mut sha = Sha256Controller::new();
    let state_before = sha.state;
    sha.write(0x4D, 0x9C);
    assert_eq!(sha.read(0x4D), 0x9C);
    assert_eq!(sha.state, state_before);
}

#[test]
fn sha256_empty_message_digest() {
    let mut sha = Sha256Controller::new();
    sha.write(0x13, 0x80);
    sha.write(0x00, 0x0A);
    let expected: [u32; 8] = [
        0xe3b0c442, 0x98fc1c14, 0x9afbf4c8, 0x996fb924, 0x27ae41e4, 0x649b934c, 0xa495991b, 0x7852b855,
    ];
    assert_eq!(sha.state, expected);
}

// ---- SPI ----

#[test]
fn spi_cpu_clock_rates() {
    assert_eq!(SpiController::cpu_clock_hz(0), 6_000_000);
    assert_eq!(SpiController::cpu_clock_hz(1), 12_000_000);
    assert_eq!(SpiController::cpu_clock_hz(2), 24_000_000);
    assert_eq!(SpiController::cpu_clock_hz(7), 48_000_000);
}

#[test]
fn spi_same_clock_completion_is_exact() {
    let spi = SpiController::new();
    assert_eq!(spi.next_event_cycle(100, 2, 24, true), 124);
    assert_eq!(spi.next_event_cycle(100, 2, 24, false), 124);
    assert_eq!(spi.next_event_cycle(10, 0, 24, true), 16);
    assert_eq!(spi.next_event_cycle(10, 3, 1, false), 12);
}

#[test]
fn spi_fifo_counts_stay_within_depth() {
    let mut spi = SpiController::new();
    for _ in 0..40 {
        spi.write(0x18, 0x00, 0, 2);
    }
    assert_eq!(spi.tfve, 16);
    spi.write(0x08, 0x81, 0, 2);
    spi.write(0x09, 0x01, 0, 2);
    spi.read(0x0C, 1_000_000, 2);
    assert!(spi.tfve <= 16);
    assert!(spi.rfve <= 16);
}

// ---- watchdog ----

#[test]
fn watchdog_snapshot_round_trip() {
    let mut w = WatchdogController::new();
    w.count = 0x0102_0304;
    w.load = 0x0A0B_0C0D;
    w.control = 0x13;
    w.status = 1;
    w.pulse_load = 0x42;
    let bytes = w.to_bytes();
    let mut other = WatchdogController::new();
    assert_eq!(other.from_bytes(&bytes), Ok(()));
    assert_eq!(other.count, 0x0102_0304);
    assert_eq!(other.load, 0x0A0B_0C0D);
    assert_eq!(other.control, 0x13);
    assert_eq!(other.status, 1);
    assert_eq!(other.pulse_load, 0x42);
    assert_eq!(other.to_bytes(), bytes);
}

#[test]
fn watchdog_short_snapshot_rejected() {
    let mut w = WatchdogController::new();
    let before = w.to_bytes();
    assert_eq!(w.from_bytes(&[0u8; 31]), Err(-105));
    assert_eq!(w.to_bytes(), before);
}

#[test]
fn watchdog_snapshot_with_bad_mode_rejected_after_head() {
    let mut bytes = [0u8; 32];
    bytes[0] = 0x10;
    bytes[4] = 0x20;
    bytes[8] = 0x01;
    bytes[12] = 9;
    let mut w = WatchdogController::new();
    assert_eq!(w.from_bytes(&bytes), Err(-105));
    assert_eq!(w.count, 0x10);
    assert_eq!(w.load, 0x20);
    assert_eq!(w.control, 0x01);
}

#[test]
fn watchdog_counts_down_and_holds_when_disabled() {
    let mut w = WatchdogController::new();
    w.count = 1000;
    w.write(0x0C, 0x01);
    assert_eq!(w.tick(300, 3), 0);
    assert_eq!(w.count, 700);
    w.write(0x0C, 0x00);
    assert_eq!(w.tick(300, 3), 0);
    assert_eq!(w.count, 700);
}

#[test]
fn watchdog_restart_reloads() {
    let mut w = WatchdogController::new();
    w.load = 0x5555;
    w.count = 3;
    w.write(0x08, 0xB9);
    assert_eq!(w.count, 0x5555);
}

// ---- scheduler ----

#[test]
fn scheduler_ticks_per_tick_values() {
    assert_eq!(ClockId::Cpu.base_ticks_per_tick(3), 160);
    assert_eq!(ClockId::Cpu.base_ticks_per_tick(0), 1280);
    assert_eq!(ClockId::Clock32K.base_ticks_per_tick(2), 234_375);
    assert_eq!(ClockId::Clock24M.base_ticks_per_tick(1), 320);
}

#[test]
fn scheduler_set_then_remaining_and_fire() {
    let mut s = Scheduler::new();
    s.set_cpu_speed(2);
    s.set(EventId::Spi, 77);
    assert_eq!(s.ticks_remaining(EventId::Spi), 77);
    assert!(!s.has_fired(EventId::Spi));
    s.advance(76);
    assert!(!s.has_fired(EventId::Spi));
    s.advance(1);
    assert!(s.has_fired(EventId::Spi));
}

#[test]
fn scheduler_next_pending_is_first_of_pending() {
    let mut s = Scheduler::new();
    s.set_cpu_speed(3);
    s.set(EventId::Spi, 30);
    s.set(EventId::Rtc, 1);
    s.advance(10_000);
    let pending = s.pending_events();
    assert_eq!(pending.len(), 2);
    assert_eq!(s.next_pending_event(), Some(pending[0]));
}

#[test]
fn scheduler_snapshot_round_trip() {
    let mut s = Scheduler::new();
    s.set_cpu_speed(1);
    s.set(EventId::Rtc, 3);
    s.set(EventId::Spi, 500);
    s.advance(1234);
    let bytes = s.to_bytes();
    let mut t = Scheduler::new();
    assert_eq!(t.from_bytes(&bytes), Ok(()));
    assert_eq!(t.base_ticks, s.base_ticks);
    assert_eq!(t.cpu_speed(), 1);
    for k in 0..9 {
        assert_eq!(t.items[k].timestamp, s.items[k].timestamp);
    }
    assert_eq!(t.cycles_until_next_event(), s.cycles_until_next_event());
    assert_eq!(t.from_bytes(&bytes[..87]), Err(-105));
}

#[test]
fn scheduler_latch_distance() {
    let mut s = Scheduler::new();
    assert_eq!(s.ticks_until_next_latch(16_429), 16_429);
    s.base_ticks = 234_375 * 100;
    assert_eq!(s.ticks_until_next_latch(16_429), 16_329);
    s.base_ticks = 234_375 * 20_000;
    assert_eq!(s.ticks_until_next_latch(16_429), 32_768 - 20_000 + 16_429);
}

#[test]
fn scheduler_cpu_events_follow_speed_change() {
    let mut s = Scheduler::new();
    s.set_cpu_speed(0);
    s.set(EventId::TimerDelay, 10);
    s.set(EventId::Rtc, 1);
    assert_eq!(s.items[EventId::TimerDelay.index()].timestamp, 12_800);
    s.convert_cpu_events(48, 6);
    assert_eq!(s.items[EventId::TimerDelay.index()].timestamp, 1_600);
    assert_eq!(s.items[EventId::Rtc.index()].timestamp, 234_375);
    s.convert_cpu_events(48, 48);
    assert_eq!(s.items[EventId::TimerDelay.index()].timestamp, 1_600);
}

// ---- peripherals ----

#[test]
fn peripherals_unmapped_port_write_reads_back() {
    let mut p = Peripherals::new();
    p.write(0x0F_0042, 0x99, 0);
    assert_eq!(p.read(0x0F_0042, &no_keys(), 0), 0x99);
}

#[test]
fn peripherals_control_alias() {
    let mut p = Peripherals::new();
    p.write(0x1F_0001, 0x02, 0);
    assert_eq!(p.read(0x00_0001, &no_keys(), 0), 0x02);
    assert_eq!(p.control.cpu_speed(), 0x02);
}

#[test]
fn peripherals_snapshot_round_trip() {
    let mut p = Peripherals::new();
    p.timers.timer[2].counter = 0xDEAD;
    p.interrupt.write(0x04, 0x06);
    p.set_key(3, 4, true);
    let bytes = p.to_bytes();
    let mut q = Peripherals::new();
    assert_eq!(q.from_bytes(&bytes), Ok(()));
    assert_eq!(q.timers.timer[2].counter, 0xDEAD);
    assert_eq!(q.interrupt.read(0x04), 0x06);
    assert!(q.key_state()[3][4]);
    assert!(!q.key_state()[4][3]);
    assert_eq!(q.from_bytes(&bytes[..255]), Err(-105));
}

#[test]
fn peripherals_snapshot_reload_reproduces_bytes() {
    let mut p = Peripherals::new();
    p.control.write(0x06, 0x04);
    p.control.write(0x28, 0x0C);
    p.control.write(0x0D, 0x03);
    p.flash.write(0x02, 0x0B);
    p.lcd.write(0x18, 0x2D);
    p.set_key(7, 0, true);
    let bytes = p.to_bytes();
    let mut q = Peripherals::new();
    assert_eq!(q.from_bytes(&bytes), Ok(()));
    assert_eq!(q.to_bytes(), bytes);
}

#[test]
fn peripherals_snapshot_reload_drops_flash_ready() {
    let mut p = Peripherals::new();
    p.control.write(0x06, 0x04);
    p.control.write(0x28, 0x0C);
    p.control.set_flash_ready();
    let bytes = p.to_bytes();
    assert_eq!(bytes[7], 0x0C);
    let mut q = Peripherals::new();
    assert_eq!(q.from_bytes(&bytes), Ok(()));
    assert!(!q.control.flash_ready());
    let again = q.to_bytes();
    assert_eq!(again[7], 0x04);
    assert_eq!(again[..7], bytes[..7]);
    assert_eq!(again[8..], bytes[8..]);
}

#[test]
fn scheduler_snapshot_reload_reproduces_bytes() {
    let mut s = Scheduler::new();
    s.set_cpu_speed(2);
    s.set(EventId::Lcd, 40);
    s.set(EventId::Timer1, 9);
    s.advance(3);
    let bytes = s.to_bytes();
    let mut t = Scheduler::new();
    t.set(EventId::Spi, 5);
    assert_eq!(t.from_bytes(&bytes), Ok(()));
    assert_eq!(t.to_bytes(), bytes);
    assert_eq!(t.ticks_remaining(EventId::Lcd), s.ticks_remaining(EventId::Lcd));
    assert_eq!(t.is_active(EventId::Spi), s.is_active(EventId::Spi));
}

#[test]
fn lcd_fast_forward_moves_position() {
    let mut lcd = LcdController::new();
    let t0 = (0x13 << 2) | (0x01 << 8) | (0x02 << 16) | (0x03 << 24);
    let t1 = 0xEF | (1 << 10) | (5 << 16) | (6 << 24);
    let t2 = 1 | (0x13F << 16);
    lcd.set_timing([t0, t1, t2, 0]);
    lcd.set_control(0x2D);
    lcd.recompute_timing();
    lcd.set_prefill(false);
    lcd.set_cur_row(10);
    lcd.set_cur_col(300);
    lcd.set_upcurr(0x1000);
    let ppe = 8u32 << (5 - lcd.bpp);
    let before = lcd.cur_row() * lcd.cpl + lcd.cur_col();
    lcd.fast_forward_dma_events(3);
    assert_eq!(lcd.cur_row() * lcd.cpl + lcd.cur_col(), before + 3 * ppe);
    assert!(lcd.cur_col() < lcd.cpl);
    assert_eq!(lcd.upcurr(), 0x1000 + 3 * 32);
}

// ---- TI files ----

fn file_with(entry: &[u8]) -> Vec<u8> {
    let mut file = Vec::new();
    file.extend_from_slice(b"**TI83F*");
    file.extend_from_slice(&[0x1A, 0x0A, 0x00]);
    file.extend_from_slice(&[0u8; 42]);
    file.extend_from_slice(&(entry.len() as u16).to_le_bytes());
    file.extend_from_slice(entry);
    let sum = entry.iter().fold(0u16, |a, &b| a.wrapping_add(b as u16));
    file.extend_from_slice(&sum.to_le_bytes());
    file
}

#[test]
fn ti_file_type_codes_round_trip() {
    for code in 0..=255u8 {
        let t = VarType::from(code);
        assert_eq!(VarType::from(t.as_u8()), t);
    }
    assert_eq!(VarType::from(0x05), VarType::Program);
    assert_eq!(VarType::from(0x15), VarType::AppVar);
}

#[test]
fn ti_file_truncated_entry_rejected() {
    let mut entry = vec![0u8; 17];
    entry[2] = 10;
    entry[4] = 0x05;
    entry[5] = b'A';
    let file = file_with(&entry);
    assert_eq!(TiFile::parse(&file).unwrap_err(), TiFileError::TruncatedEntry);
}

#[test]
fn ti_file_declared_length_too_long() {
    let mut file = file_with(&[0u8; 20]);
    file[53] = 0xFF;
    assert_eq!(TiFile::parse(&file).unwrap_err(), TiFileError::TooShort);
}

#[test]
fn ti_file_checksum_values_reported() {
    let mut entry = vec![0u8; 19];
    entry[2] = 2;
    entry[4] = 0x05;
    entry[17] = 0x10;
    let mut file = file_with(&entry);
    let len = file.len();
    file[len - 2] = 0x00;
    file[len - 1] = 0x00;
    assert_eq!(
        TiFile::parse(&file).unwrap_err(),
        TiFileError::BadChecksum { expected: 0, actual: 2 + 5 + 0x10 }
    );
}

#[test]
fn ti_file_two_entries() {
    let mut entries = Vec::new();
    for (t, name, data) in [(0x05u8, b'P', vec![0x02, 0x00, 0xEF, 0x7B]), (0x15u8, b'V', vec![1, 2, 3])] {
        let mut e = vec![0u8; 17];
        e[2] = data.len() as u8;
        e[4] = t;
        e[5] = name;
        e[15] = data.len() as u8;
        e.extend_from_slice(&data);
        entries.extend_from_slice(&e);
    }
    let parsed = TiFile::parse(&file_with(&entries)).unwrap();
    assert_eq!(parsed.entries.len(), 2);
    assert_eq!(parsed.entries[0].name_str(), "P");
    assert_eq!(parsed.entries[0].data, vec![0x02, 0x00, 0xEF, 0x7B]);
    assert!(parsed.entries[0].is_asm_program());
    assert_eq!(parsed.entries[1].var_type, VarType::AppVar);
    assert_eq!(parsed.entries[1].data, vec![1, 2, 3]);
}

#[test]
fn ti_name_not_utf8_shows_placeholder() {
    let entry = TiVarEntry {
        var_type: VarType::Program,
        name: [0xFF, 0xFE, b'A', 0, 0, 0, 0, 0],
        version: 0,
        archived: false,
        data: vec![],
    };
    assert_eq!(entry.name_len(), 3);
    assert_eq!(entry.name_str(), "???");
    let full = TiVarEntry { name: *b"ABCDEFGH", ..entry.clone() };
    assert_eq!(full.name_len(), 8);
    assert_eq!(full.name_str(), "ABCDEFGH");
}

// ---- framebuffer ----

#[test]
fn framebuffer_argb_to_rgba_bytes() {
    let rgba = argb_to_rgba(&[0xFF112233, 0x80AABBCC]);
    assert_eq!(rgba, vec![0x11, 0x22, 0x33, 0xFF, 0xAA, 0xBB, 0xCC, 0x80]);
}

// ---- control port listing ----

#[test]
fn control_dump_lists_ports() {
    let mut c = ControlPorts::new();
    c.write(0x01, 0x03);
    c.write(0x0D, 0x01);
    c.privileged = 0x0123_4567;
    c.stack_limit = 0x00_00AB;
    let text = c.dump();
    assert!(text.starts_with("=== Control Ports (0xE000xx / 0xFF00xx) ===\n0x00 POWER:          0x"));
    assert!(text.contains("0x01 CPU_SPEED:      0x03 (48MHz)\n"));
    assert!(text.contains("0x0D LCD_ENABLE:     0x11 (lcd_enabled=true)\n"));
    assert!(text.contains("0x1D-1F PRIVILEGED:  0x1234567\n"));
    assert!(text.ends_with("0x3A-3C STACK_LIMIT: 0x0000AB\n"));
    assert_eq!(text.lines().count(), 22);
}

#[test]
fn ti_file_error_messages() {
    assert_eq!(TiFileError::TooShort.message(), "file too short");
    assert_eq!(TiFileError::BadMagic.message(), "bad magic (expected **TI83F*)");
    assert_eq!(TiFileError::TruncatedEntry.message(), "truncated variable entry");
    assert_eq!(
        TiFileError::BadChecksum { expected: 0x1A2B, actual: 0x0C }.message(),
        "bad checksum: expected 0x1A2B, got 0x000C"
    );
}
