use mcu_ipc::message::Message;

#[test]
fn checksum_of_empty_payload_is_zero() {
    assert_eq!(Message::calculate_checksum(&[]), 0);
}

#[test]
fn checksum_is_xor_of_bytes() {
    assert_eq!(Message::calculate_checksum(&[0x01, 0x02, 0x03]), 0x00);
    assert_eq!(Message::calculate_checksum(&[0x04, 0x05]), 0x01);
    assert_eq!(Message::calculate_checksum(&[0x06]), 0x06);
    assert_eq!(Message::calculate_checksum(&[0xF0, 0x0F, 0xAA]), 0x55);
}

#[test]
fn checksum_ignores_byte_order() {
    let base = [0x11u8, 0x22, 0x47, 0x80];
    let expected = Message::calculate_checksum(&base);
    let perms: [[u8; 4]; 4] = [
        [0x80, 0x47, 0x22, 0x11],
        [0x22, 0x11, 0x80, 0x47],
        [0x47, 0x80, 0x11, 0x22],
        [0x11, 0x80, 0x22, 0x47],
    ];
    for p in perms.iter() {
        assert_eq!(Message::calculate_checksum(p), expected);
    }
    assert_eq!(expected, 0x11 ^ 0x22 ^ 0x47 ^ 0x80);
}

#[test]
fn new_message_verifies() {
    let m = Message::new(7, vec![0x10, 0x20, 0x30]);
    assert_eq!(m.id, 7);
    assert_eq!(m.payload, vec![0x10, 0x20, 0x30]);
    assert_eq!(m.checksum, 0x10 ^ 0x20 ^ 0x30);
    assert!(m.verify_checksum());
    let empty = Message::new(0, vec![]);
    assert_eq!(empty.checksum, 0);
    assert!(empty.verify_checksum());
}

#[test]
fn single_byte_corruption_is_detected() {
    let payload = vec![0x01u8, 0x02, 0x03, 0x04];
    for i in 0..payload.len() {
        for b in [0x00u8, 0x01, 0x7F, 0xFF] {
            if b == payload[i] {
                continue;
            }
            let mut m = Message::new(1, payload.clone());
            m.payload[i] = b;
            assert!(!m.verify_checksum());
        }
    }
}

#[test]
fn cancelling_pair_of_flips_goes_unnoticed() {
    let mut m = Message::new(1, vec![0x01, 0x02]);
    m.payload[0] ^= 0x04;
    m.payload[1] ^= 0x04;
    assert!(m.verify_checksum());
}

#[test]
fn wrong_stored_checksum_fails() {
    let mut m = Message::new(3, vec![0x06]);
    m.checksum = 0x07;
    assert!(!m.verify_checksum());
}
