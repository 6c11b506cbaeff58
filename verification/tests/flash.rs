use ti84ce::peripherals::flash::FlashController;

const REG_ENABLE: u32 = 0x00;
const REG_SIZE_CONFIG: u32 = 0x01;
const REG_MAP_SELECT: u32 = 0x02;
const REG_WAIT_STATES: u32 = 0x05;
const REG_CONTROL: u32 = 0x08;

#[test]
fn flash_test_new() {
    let flash = FlashController::new();
    assert!(flash.is_enabled());
    assert_eq!(flash.wait_states(), 0x04);
    assert_eq!(flash.total_wait_cycles(), 10);
    assert_eq!(flash.map_select(), 0x06);
}

#[test]
fn flash_test_reset() {
    let mut flash = FlashController::new();
    flash.enable = 0x00;
    flash.wait_states = 0x10;
    flash.map_select = 0x05;

    flash.reset();
    assert!(flash.is_enabled());
    assert_eq!(flash.wait_states(), 0x04);
    assert_eq!(flash.map_select(), 0x06);
}

#[test]
fn test_read_enable() {
    let flash = FlashController::new();
    assert_eq!(flash.read(REG_ENABLE), 0x01);
}

#[test]
fn test_write_enable() {
    let mut flash = FlashController::new();

    flash.write(REG_ENABLE, 0x00);
    assert!(!flash.is_enabled());
    assert_eq!(flash.read(REG_ENABLE), 0x00);

    flash.write(REG_ENABLE, 0x01);
    assert!(flash.is_enabled());
    assert_eq!(flash.read(REG_ENABLE), 0x01);
}

#[test]
fn flash_test_enable_masked() {
    let mut flash = FlashController::new();

    flash.write(REG_ENABLE, 0xFF);
    assert_eq!(flash.read(REG_ENABLE), 0x01);
}

#[test]
fn test_size_config() {
    let mut flash = FlashController::new();

    flash.write(REG_SIZE_CONFIG, 0x3F);
    assert_eq!(flash.read(REG_SIZE_CONFIG), 0x3F);

    flash.write(REG_SIZE_CONFIG, 0x07);
    assert_eq!(flash.read(REG_SIZE_CONFIG), 0x07);
}

#[test]
fn test_map_select() {
    let mut flash = FlashController::new();

    flash.write(REG_MAP_SELECT, 0x05);
    assert_eq!(flash.read(REG_MAP_SELECT), 0x05);
    assert_eq!(flash.map_select(), 0x05);
}

#[test]
fn test_map_select_masked() {
    let mut flash = FlashController::new();

    flash.write(REG_MAP_SELECT, 0xFF);
    assert_eq!(flash.read(REG_MAP_SELECT), 0x0F);
}

#[test]
fn test_wait_states() {
    let mut flash = FlashController::new();

    flash.write(REG_WAIT_STATES, 0x04);
    assert_eq!(flash.read(REG_WAIT_STATES), 0x04);
    assert_eq!(flash.wait_states(), 0x04);
    assert_eq!(flash.total_wait_cycles(), 10);
}

#[test]
fn test_wait_states_saturates() {
    let mut flash = FlashController::new();

    flash.write(REG_WAIT_STATES, 0xFF);
    assert_eq!(flash.wait_states(), 0xFF);
    assert_eq!(flash.total_wait_cycles(), 255);
}

#[test]
fn flash_test_control() {
    let mut flash = FlashController::new();

    flash.write(REG_CONTROL, 0x01);
    assert_eq!(flash.read(REG_CONTROL), 0x01);
}

#[test]
fn test_control_masked() {
    let mut flash = FlashController::new();

    flash.write(REG_CONTROL, 0xFF);
    assert_eq!(flash.read(REG_CONTROL), 0x01);
}

#[test]
fn test_unmapped_returns_ff() {
    let flash = FlashController::new();

    assert_eq!(flash.read(0x03), 0xFF);
    assert_eq!(flash.read(0x04), 0xFF);
    assert_eq!(flash.read(0x06), 0xFF);
    assert_eq!(flash.read(0x07), 0xFF);
    assert_eq!(flash.read(0x10), 0xFF);
}

#[test]
fn test_unmapped_writes_ignored() {
    let mut flash = FlashController::new();

    flash.write(0x03, 0x55);
    flash.write(0x04, 0x55);
    flash.write(0x10, 0x55);

    assert_eq!(flash.read(0x03), 0xFF);
    assert_eq!(flash.read(0x04), 0xFF);
    assert_eq!(flash.read(0x10), 0xFF);
}

#[test]
fn test_mapped_bytes() {
    let mut flash = FlashController::new();

    flash.write(REG_MAP_SELECT, 0x00);
    assert_eq!(flash.mapped_bytes(), 0x10000);

    flash.write(REG_MAP_SELECT, 0x01);
    assert_eq!(flash.mapped_bytes(), 0x20000);

    flash.write(REG_MAP_SELECT, 0x07);
    assert_eq!(flash.mapped_bytes(), 0x800000);

    flash.write(REG_MAP_SELECT, 0x08);
    assert_eq!(flash.mapped_bytes(), 0x10000);
}

#[test]
fn test_mapped_bytes_disabled() {
    let mut flash = FlashController::new();

    flash.write(REG_ENABLE, 0x00);
    assert_eq!(flash.mapped_bytes(), 0);
}

#[test]
fn test_mapped_bytes_invalid_size_config() {
    let mut flash = FlashController::new();

    flash.write(REG_SIZE_CONFIG, 0x40);
    assert_eq!(flash.mapped_bytes(), 0);
}

#[test]
fn test_default_values_for_boot() {
    let flash = FlashController::new();

    assert!(flash.is_enabled());
    assert_eq!(flash.read(REG_ENABLE), 0x01);

    assert_eq!(flash.read(REG_SIZE_CONFIG), 0x00);

    assert_eq!(flash.read(REG_WAIT_STATES), 0x04);

    assert_eq!(flash.read(REG_MAP_SELECT), 0x06);
}

#[test]
fn test_cached_values_initialized() {
    let flash = FlashController::new();

    assert!(flash.is_mapping_enabled());
    assert_eq!(flash.cached_mapped_bytes(), 0x400000);
    assert_eq!(flash.cached_total_wait_cycles(), 10);
}

#[test]
fn test_cached_values_match_computed() {
    let flash = FlashController::new();

    assert_eq!(flash.cached_mapped_bytes(), flash.mapped_bytes());
    assert_eq!(flash.cached_total_wait_cycles(), flash.total_wait_cycles());
    assert_eq!(flash.is_mapping_enabled(), flash.is_enabled());
}

#[test]
fn test_recalculate_on_enable_write() {
    let mut flash = FlashController::new();

    assert!(flash.is_mapping_enabled());
    assert_eq!(flash.cached_mapped_bytes(), 0x400000);

    flash.write(REG_ENABLE, 0x00);
    assert!(!flash.is_mapping_enabled());
    assert_eq!(flash.cached_mapped_bytes(), 0);

    flash.write(REG_ENABLE, 0x01);
    assert!(flash.is_mapping_enabled());
    assert_eq!(flash.cached_mapped_bytes(), 0x400000);
}

#[test]
fn test_recalculate_on_size_config_write() {
    let mut flash = FlashController::new();

    assert!(flash.is_mapping_enabled());
    assert_eq!(flash.cached_mapped_bytes(), 0x400000);

    flash.write(REG_SIZE_CONFIG, 0x40);
    assert!(!flash.is_mapping_enabled());
    assert_eq!(flash.cached_mapped_bytes(), 0);

    flash.write(REG_SIZE_CONFIG, 0x07);
    assert!(flash.is_mapping_enabled());
    assert_eq!(flash.cached_mapped_bytes(), 0x400000);
}

#[test]
fn test_recalculate_on_map_select_write() {
    let mut flash = FlashController::new();

    flash.write(REG_MAP_SELECT, 0x00);
    assert_eq!(flash.cached_mapped_bytes(), 0x10000);

    flash.write(REG_MAP_SELECT, 0x07);
    assert_eq!(flash.cached_mapped_bytes(), 0x800000);

    flash.write(REG_MAP_SELECT, 0x0F);
    assert_eq!(flash.cached_mapped_bytes(), 0x10000);
}

#[test]
fn test_recalculate_on_wait_states_write() {
    let mut flash = FlashController::new();

    assert_eq!(flash.cached_total_wait_cycles(), 10);

    flash.write(REG_WAIT_STATES, 0x00);
    assert_eq!(flash.cached_total_wait_cycles(), 6);

    flash.write(REG_WAIT_STATES, 0xFF);
    assert_eq!(flash.cached_total_wait_cycles(), 255);
}

#[test]
fn test_cached_matches_computed_after_writes() {
    let mut flash = FlashController::new();

    flash.write(REG_MAP_SELECT, 0x03);
    assert_eq!(flash.cached_mapped_bytes(), flash.mapped_bytes());
    assert_eq!(flash.cached_total_wait_cycles(), flash.total_wait_cycles());

    flash.write(REG_WAIT_STATES, 0x10);
    assert_eq!(flash.cached_mapped_bytes(), flash.mapped_bytes());
    assert_eq!(flash.cached_total_wait_cycles(), flash.total_wait_cycles());

    flash.write(REG_ENABLE, 0x00);
    assert_eq!(flash.cached_mapped_bytes(), flash.mapped_bytes());

    flash.write(REG_SIZE_CONFIG, 0x20);
    flash.write(REG_ENABLE, 0x01);
    assert_eq!(flash.cached_mapped_bytes(), flash.mapped_bytes());
}

#[test]
fn test_control_write_does_not_recalculate() {
    let mut flash = FlashController::new();
    let initial_cached_bytes = flash.cached_mapped_bytes();
    let initial_cached_wait = flash.cached_total_wait_cycles();

    flash.write(REG_CONTROL, 0x01);
    assert_eq!(flash.cached_mapped_bytes(), initial_cached_bytes);
    assert_eq!(flash.cached_total_wait_cycles(), initial_cached_wait);
}

#[test]
fn test_reset_recalculates() {
    let mut flash = FlashController::new();

    flash.write(REG_ENABLE, 0x00);
    flash.write(REG_MAP_SELECT, 0x02);
    flash.write(REG_WAIT_STATES, 0x20);

    assert!(!flash.is_mapping_enabled());
    assert_eq!(flash.cached_mapped_bytes(), 0);

    flash.reset();
    assert!(flash.is_mapping_enabled());
    assert_eq!(flash.cached_mapped_bytes(), 0x400000);
    assert_eq!(flash.cached_total_wait_cycles(), 10);
}
