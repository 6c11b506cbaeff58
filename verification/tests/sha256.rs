use ti84ce::peripherals::sha256::Sha256Controller;

#[test]
fn sha256_test_new() {
    let sha = Sha256Controller::new();
    assert_eq!(sha.state, [0; 8]);
    assert_eq!(sha.block, [0; 16]);
}

#[test]
fn sha256_test_reset() {
    let mut sha = Sha256Controller::new();
    sha.block[0] = 0x12345678;
    sha.state[0] = 0xDEADBEEF;
    sha.reset();
    assert_eq!(sha.state, [0; 8]);
    assert_eq!(sha.block, [0; 16]);
}

#[test]
fn test_read_state() {
    let mut sha = Sha256Controller::new();
    sha.write(0x00, 0x0A);
    let s0 = sha.state[0];
    assert_eq!(sha.read(0x60), (s0 & 0xFF) as u8);
    assert_eq!(sha.read(0x61), ((s0 >> 8) & 0xFF) as u8);
    assert_eq!(sha.read(0x62), ((s0 >> 16) & 0xFF) as u8);
    assert_eq!(sha.read(0x63), ((s0 >> 24) & 0xFF) as u8);
}

#[test]
fn test_write_block() {
    let mut sha = Sha256Controller::new();
    sha.write(0x10, 0x78);
    sha.write(0x11, 0x56);
    sha.write(0x12, 0x34);
    sha.write(0x13, 0x12);
    assert_eq!(sha.block[0], 0x12345678);
}

#[test]
fn test_control_initialize_and_process() {
    let mut sha = Sha256Controller::new();
    sha.write(0x00, 0x0A);
    assert_ne!(sha.state, Sha256Controller::INITIAL_STATE);
    assert_ne!(sha.state, [0; 8]);
}

#[test]
fn test_control_clear() {
    let mut sha = Sha256Controller::new();
    sha.state[0] = 0xDEADBEEF;
    sha.write(0x00, 0x10);
    assert_eq!(sha.state, [0; 8]);
}

#[test]
fn test_control_process_only() {
    let mut sha = Sha256Controller::new();
    sha.state = Sha256Controller::INITIAL_STATE;
    sha.write(0x00, 0x0E);
    assert_ne!(sha.state, Sha256Controller::INITIAL_STATE);
}

#[test]
fn test_nist_single_block() {
    let mut sha = Sha256Controller::new();

    sha.block[0] = 0x61626380;
    for i in 1..15 {
        sha.block[i] = 0;
    }
    sha.block[15] = 0x18;

    sha.write(0x00, 0x0A);

    assert_eq!(sha.state[0], 0xba7816bf);
    assert_eq!(sha.state[1], 0x8f01cfea);
    assert_eq!(sha.state[2], 0x414140de);
    assert_eq!(sha.state[3], 0x5dae2223);
    assert_eq!(sha.state[4], 0xb00361a3);
    assert_eq!(sha.state[5], 0x96177a9c);
    assert_eq!(sha.state[6], 0xb410ff61);
    assert_eq!(sha.state[7], 0xf20015ad);
}

#[test]
fn test_quick_access_state7() {
    let mut sha = Sha256Controller::new();
    sha.state[7] = 0xDEADBEEF;
    assert_eq!(sha.read(0x0C), 0xEF);
    assert_eq!(sha.read(0x0D), 0xBE);
    assert_eq!(sha.read(0x0E), 0xAD);
    assert_eq!(sha.read(0x0F), 0xDE);
}
