use mcu_ipc::buffer::ChannelError;
use mcu_ipc::protocol::CommunicationProtocol;

#[test]
fn zero_capacity_protocol_is_refused() {
    assert!(matches!(CommunicationProtocol::new(0), Err(ChannelError::ZeroCapacity)));
}

#[test]
fn end_to_end_three_messages() {
    let mut p = CommunicationProtocol::new(5).unwrap();
    assert_eq!(p.mcu1_send(vec![0x01, 0x02, 0x03]), Ok(1));
    assert_eq!(p.mcu1_send(vec![0x04, 0x05]), Ok(2));
    assert_eq!(p.mcu1_send(vec![0x06]), Ok(3));
    assert_eq!(p.get_buffer_status(), (3, false, false));

    let (m, valid) = p.mcu2_receive().unwrap();
    assert_eq!((m.id, m.payload, valid), (1, vec![0x01, 0x02, 0x03], true));
    let (m, valid) = p.mcu2_receive().unwrap();
    assert_eq!((m.id, m.payload, valid), (2, vec![0x04, 0x05], true));
    let (m, valid) = p.mcu2_receive().unwrap();
    assert_eq!((m.id, m.payload, valid), (3, vec![0x06], true));
    assert!(p.mcu2_receive().is_none());
    assert_eq!(p.get_buffer_status(), (0, true, false));
}

#[test]
fn overwrite_drops_oldest() {
    let mut p = CommunicationProtocol::new(2).unwrap();
    assert_eq!(p.mcu1_send(vec![0xA1]), Ok(1));
    assert_eq!(p.mcu1_send(vec![0xA2]), Ok(2));
    assert_eq!(p.mcu1_send(vec![0xA3]), Ok(3));
    assert_eq!(p.get_buffer_status(), (2, false, true));
    assert_eq!(p.mcu2_receive().unwrap().0.id, 2);
    assert_eq!(p.mcu2_receive().unwrap().0.id, 3);
    assert!(p.mcu2_receive().is_none());
}

#[test]
fn ids_wrap_at_sixteen_bits() {
    let mut p = CommunicationProtocol::new(1).unwrap();
    let mut expected: u16 = 1;
    for _ in 0..65537u32 {
        assert_eq!(p.mcu1_send(vec![]), Ok(expected));
        expected = expected.wrapping_add(1);
    }
    assert_eq!(p.mcu1_send(vec![]), Ok(2));
    assert_eq!(p.get_buffer_status(), (1, false, true));
}
