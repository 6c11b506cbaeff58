use ti84ce::peripherals::spi::SpiController;

const CPU_SPEED_24MHZ: u8 = 0x02;

#[test]
fn spi_test_new() {
    let spi = SpiController::new();
    assert_eq!(spi.tfve, 0);
    assert_eq!(spi.rfve, 0);
}

#[test]
fn test_status_idle() {
    let mut spi = SpiController::new();
    let status0 = spi.read(0x0C, 0, CPU_SPEED_24MHZ);
    assert_eq!(status0 & 0x02, 0x02);

    let status1 = spi.read(0x0D, 0, CPU_SPEED_24MHZ);
    assert_eq!(status1, 0x00);
}

#[test]
fn test_data_write_increments_tfve() {
    let mut spi = SpiController::new();

    spi.write(0x18, 0x00, 0, CPU_SPEED_24MHZ);
    assert_eq!(spi.tfve, 1);

    let status1 = spi.read(0x0D, 0, CPU_SPEED_24MHZ);
    assert_eq!(status1, 0x10);
}

#[test]
fn test_transfer_completes_after_cycles() {
    let mut spi = SpiController::new();

    spi.write(0x08, 0x01, 0, CPU_SPEED_24MHZ);
    spi.write(0x09, 0x01, 0, CPU_SPEED_24MHZ);

    spi.write(0x04, 0x02, 0, CPU_SPEED_24MHZ);
    spi.write(0x06, 0x07, 0, CPU_SPEED_24MHZ);

    spi.write(0x18, 0x00, 0, CPU_SPEED_24MHZ);

    let status0 = spi.read(0x0C, 23, CPU_SPEED_24MHZ);
    assert_eq!(status0 & 0x04, 0x04);

    let status0_done = spi.read(0x0C, 24, CPU_SPEED_24MHZ);
    assert_eq!(status0_done & 0x04, 0x00);
}
