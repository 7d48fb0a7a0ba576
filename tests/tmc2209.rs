use crabroll::tmc2209::{
    align_reply, calc_uart_crc, construct_read_uart_message, construct_write_uart_message,
    decode_reply, find_reply_start, Tmc2209, UartError, IFCNT_REGISTER,
};

/// A reply frame as the chip sends it.
fn reply(register: u8, data: u32) -> [u8; 8] {
    let d = data.to_be_bytes();
    let mut f = [0x05, 0xFF, register, d[0], d[1], d[2], d[3], 0];
    f[7] = calc_uart_crc(&f[..7]);
    f
}

#[test]
fn crc_of_empty_and_known_frames() {
    assert_eq!(calc_uart_crc(&[]), 0);
    assert_eq!(calc_uart_crc(&[0xA5, 0x00, 0x80, 0x00, 0x00, 0x01, 0xC1]), 0xD5);
    assert_eq!(calc_uart_crc(&[0xA5, 0x00, 0x02]), 0x4F);
}

#[test]
fn gconf_write_frame() {
    let frame = construct_write_uart_message(0, 0x00, 0b0111000001);
    assert_eq!(frame, [0xA5, 0x00, 0x80, 0x00, 0x00, 0x01, 0xC1, 0xD5]);
    assert_eq!(calc_uart_crc(&frame[..7]), frame[7]);
    assert_eq!(u32::from_be_bytes([frame[3], frame[4], frame[5], frame[6]]), 0b0111000001);
}

#[test]
fn write_frame_sets_write_bit_and_payload_order() {
    let frame = construct_write_uart_message(3, 0x6C, 0x1234_5678);
    assert_eq!(&frame[..7], &[0xA5, 3, 0xEC, 0x12, 0x34, 0x56, 0x78]);
    assert_eq!(frame[7], calc_uart_crc(&frame[..7]));
}

#[test]
fn read_request_frame() {
    let frame = construct_read_uart_message(0x81, IFCNT_REGISTER);
    assert_eq!(frame, [0xA5, 0x01, 0x02, calc_uart_crc(&[0xA5, 0x01, 0x02])]);
    assert_eq!(construct_read_uart_message(0, IFCNT_REGISTER), [0xA5, 0x00, 0x02, 0x4F]);
}

#[test]
fn preamble_found_at_every_offset() {
    let full = reply(IFCNT_REGISTER, 7);
    for offset in 0..7usize {
        // The echo of the request comes first on the shared wire.
        let echo = construct_read_uart_message(0, IFCNT_REGISTER);
        let mut buffer = [0u8; 8];
        for (k, b) in buffer.iter_mut().enumerate().take(offset) {
            *b = echo[k % 4];
        }
        let len = 8;
        for k in offset..len {
            buffer[k] = full[k - offset];
        }
        assert_eq!(find_reply_start(&buffer, len), Some(offset));
        let end = align_reply(&mut buffer, len).unwrap();
        assert_eq!(end, len - offset);
        assert_eq!(&buffer[..end], &full[..end]);
        // The rest of the reply arrives after the fragment.
        buffer[end..].copy_from_slice(&full[end..]);
        assert_eq!(decode_reply::<()>(&buffer, IFCNT_REGISTER), Ok(7));
    }
}

#[test]
fn no_preamble_in_chunk() {
    let mut buffer = [0xA5, 0x00, 0x02, 0x4F, 0x05, 0x00, 0xFF, 0x05];
    assert_eq!(find_reply_start(&buffer, 8), None);
    assert_eq!(align_reply(&mut buffer, 8), None);
    assert_eq!(buffer, [0xA5, 0x00, 0x02, 0x4F, 0x05, 0x00, 0xFF, 0x05]);
    // Only the first `len` bytes count.
    let mut partial = [0x00, 0x05, 0xFF, 0, 0, 0, 0, 0];
    assert_eq!(align_reply(&mut partial, 2), None);
    assert_eq!(align_reply(&mut partial, 3), Some(2));
}

#[test]
fn reply_crc_mismatch() {
    let mut f = reply(0x6C, 0xDEAD_BEEF);
    f[7] ^= 0x01;
    assert_eq!(decode_reply::<()>(&f, 0x6C), Err(UartError::CrcMismatch));
}

#[test]
fn reply_from_other_register() {
    let f = reply(0x10, 5);
    assert_eq!(
        decode_reply::<()>(&f, 0x02),
        Err(UartError::UnexpectedAddress { expected: 0x02, got: 0x10 })
    );
}

#[test]
fn reply_value_decoded() {
    assert_eq!(decode_reply::<()>(&reply(0x6C, 0x1800_0193), 0x6C), Ok(0x1800_0193));
}

#[test]
fn shadow_table_tracks_writes() {
    let mut table = Tmc2209::new([true, false, false, false]);
    assert!(table.is_present(0));
    assert!(!table.is_present(1));
    assert!(!table.is_present(9));
    assert_eq!(table.ifcnt(0), Some(0));
    table.set_ifcnt(0, 0x1FF);
    assert_eq!(table.ifcnt(0), Some(0xFF));
    assert_eq!(
        table.write_frame::<()>(0, 0x00, 0b0111000001),
        Ok(construct_write_uart_message(0, 0x00, 0b0111000001))
    );
    table.record_write(0);
    assert_eq!(table.ifcnt(0), Some(0));
    assert_eq!(table.check_write::<()>(0, 0x100), Ok(()));
    assert_eq!(table.check_write::<()>(0, 0xFF), Err(UartError::IncorrectIfcnt));
}

#[test]
fn absent_address_refused() {
    let mut table = Tmc2209::new([true, false, false, false]);
    assert_eq!(table.write_frame::<()>(1, 0, 0), Err(UartError::UnpopulatedAddress));
    assert_eq!(table.write_frame::<()>(4, 0, 0), Err(UartError::UnpopulatedAddress));
    assert_eq!(table.check_write::<()>(2, 0), Err(UartError::UnpopulatedAddress));
    table.record_write(1);
    table.set_ifcnt(1, 5);
    assert_eq!(table.ifcnt(1), None);
}
