use ti84ce::ti_file::{TiFile, TiFileError, VarType};

fn make_8xp(var_type: u8, name: &[u8; 8], version: u8, flag: u8, var_data: &[u8]) -> Vec<u8> {
    let mut file = Vec::new();
    file.extend_from_slice(b"**TI83F*");
    file.extend_from_slice(&[0x1A, 0x0A, 0x00]);
    file.extend_from_slice(&[0u8; 42]);
    let entry_len = 17 + var_data.len();
    file.extend_from_slice(&(entry_len as u16).to_le_bytes());
    file.extend_from_slice(&13u16.to_le_bytes());
    file.extend_from_slice(&(var_data.len() as u16).to_le_bytes());
    file.push(var_type);
    file.extend_from_slice(name);
    file.push(version);
    file.push(flag);
    file.extend_from_slice(&(var_data.len() as u16).to_le_bytes());
    file.extend_from_slice(var_data);
    let checksum: u16 = file[55..].iter().fold(0u16, |acc, &b| acc.wrapping_add(b as u16));
    file.extend_from_slice(&checksum.to_le_bytes());
    file
}

#[test]
fn test_parse_minimal_program() {
    let name = *b"TEST\0\0\0\0";
    let var_data = [0x03, 0x00, 0xEF, 0x7B, 0x00];
    let file = make_8xp(0x05, &name, 0, 0, &var_data);

    let parsed = TiFile::parse(&file).unwrap();
    assert_eq!(parsed.entries.len(), 1);
    let entry = &parsed.entries[0];
    assert_eq!(entry.var_type, VarType::Program);
    assert_eq!(entry.name_str(), "TEST");
    assert_eq!(entry.name_len(), 4);
    assert!(!entry.archived);
    assert_eq!(entry.version, 0);
    assert!(entry.is_asm_program());
    assert_eq!(entry.data, var_data);
}

#[test]
fn test_parse_archived_appvar() {
    let name = *b"GRAPHX\0\0";
    let var_data = [0x10, 0x00, 0x01, 0x02, 0x03, 0x04];
    let file = make_8xp(0x15, &name, 0, 0x80, &var_data);

    let parsed = TiFile::parse(&file).unwrap();
    assert_eq!(parsed.entries.len(), 1);
    let entry = &parsed.entries[0];
    assert_eq!(entry.var_type, VarType::AppVar);
    assert_eq!(entry.name_str(), "GRAPHX");
    assert!(entry.archived);
    assert!(entry.var_type.is_appvar());
    assert!(!entry.is_asm_program());
}

#[test]
fn test_parse_protected_program() {
    let name = *b"DOOM\0\0\0\0";
    let var_data = [0x02, 0x00, 0xEF, 0x7B];
    let file = make_8xp(0x06, &name, 0, 0, &var_data);

    let parsed = TiFile::parse(&file).unwrap();
    let entry = &parsed.entries[0];
    assert_eq!(entry.var_type, VarType::ProtectedProgram);
    assert!(entry.var_type.is_program());
    assert!(entry.is_asm_program());
}

#[test]
fn test_reject_bad_magic() {
    let mut file = make_8xp(0x05, b"TEST\0\0\0\0", 0, 0, &[0, 0]);
    file[0] = b'X';
    assert!(matches!(TiFile::parse(&file), Err(TiFileError::BadMagic)));
}

#[test]
fn test_reject_too_short() {
    assert!(matches!(TiFile::parse(&[0; 10]), Err(TiFileError::TooShort)));
}

#[test]
fn test_reject_bad_checksum() {
    let mut file = make_8xp(0x05, b"TEST\0\0\0\0", 0, 0, &[0, 0]);
    let len = file.len();
    file[len - 1] ^= 0xFF;
    match TiFile::parse(&file) {
        Err(TiFileError::BadChecksum { .. }) => {}
        other => panic!("expected BadChecksum, got {:?}", other),
    }
}
