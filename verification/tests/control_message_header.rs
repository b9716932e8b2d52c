use mctp_header::{
    DecodeError, EncodeError, Field, MctpCommandCode, MctpCompletionCode,
    MctpControlMessageHeader, MctpMessageHeader, MctpMessageType,
};

#[test]
fn test_mctp_control_message_header_bit_register() {
    assert_eq!(
        MctpControlMessageHeader::try_from(u32::from_be_bytes([
            0b0000_0000,
            0b0000_0000,
            0b0000_0000,
            0b0000_0000,
        ]))
        .unwrap(),
        MctpControlMessageHeader {
            integrity_check: 0,
            ..Default::default()
        }
    );
    assert_eq!(
        MctpControlMessageHeader::try_from(u32::from_be_bytes([
            0b1000_0000,
            0b0000_0000,
            0b0000_0000,
            0b0000_0000,
        ]))
        .unwrap(),
        MctpControlMessageHeader {
            integrity_check: 1,
            ..Default::default()
        }
    );
}

fn control_roundtrip(
    integrity_check: u8,
    request_bit: u8,
    datagram_bit: u8,
    instance_id: u8,
    command_code: MctpCommandCode,
    completion_code: MctpCompletionCode,
) {
    let header = MctpControlMessageHeader {
        integrity_check,
        message_type: MctpMessageType::MctpControl,
        request_bit,
        datagram_bit,
        instance_id,
        command_code,
        completion_code,
    };

    let as_be_bytes = TryInto::<u32>::try_into(header).unwrap().to_be_bytes();
    let parsed = MctpControlMessageHeader::try_from(u32::from_be_bytes(as_be_bytes)).unwrap();
    assert_eq!(parsed, header);
}

#[test]
fn control_roundtrip_all_zero() {
    control_roundtrip(
        0,
        0,
        0,
        0,
        MctpCommandCode::SetEndpointId,
        MctpCompletionCode::Success,
    );
}

#[test]
fn control_roundtrip_all_flags_set() {
    control_roundtrip(
        1,
        1,
        1,
        0x1F,
        MctpCommandCode::GetEndpointId,
        MctpCompletionCode::Error,
    );
}

#[test]
fn control_roundtrip_command_specific_completion() {
    control_roundtrip(
        0,
        0,
        1,
        3,
        MctpCommandCode::QueryHop,
        MctpCompletionCode::CommandSpecific(0x80),
    );
}

#[test]
fn control_default_is_all_zero() {
    let header = MctpControlMessageHeader::default();
    assert_eq!(
        header,
        MctpControlMessageHeader {
            integrity_check: 0,
            message_type: MctpMessageType::MctpControl,
            request_bit: 0,
            datagram_bit: 0,
            instance_id: 0,
            command_code: MctpCommandCode::Reserved,
            completion_code: MctpCompletionCode::Success,
        }
    );
    assert_eq!(header.encode(), Ok(0));
    assert_eq!(header.encode().unwrap().to_be_bytes(), [0x00, 0x00, 0x00, 0x00]);
}

#[test]
fn control_integrity_check_is_the_top_bit() {
    let header = MctpControlMessageHeader {
        integrity_check: 1,
        ..Default::default()
    };
    assert_eq!(header.encode().unwrap().to_be_bytes(), [0x80, 0x00, 0x00, 0x00]);
}

#[test]
fn control_encode_places_every_field() {
    let header = MctpControlMessageHeader {
        integrity_check: 1,
        message_type: MctpMessageType::MctpControl,
        request_bit: 1,
        datagram_bit: 0,
        instance_id: 0x15,
        command_code: MctpCommandCode::GetEndpointId,
        completion_code: MctpCompletionCode::ErrorNotReady,
    };
    // 1 0000000 | 1 0 0 10101 | 00000010 | 00000100
    assert_eq!(header.encode(), Ok(0x8095_0204));
    assert_eq!(MctpControlMessageHeader::decode(0x8095_0204), Ok(header));

    let other = MctpControlMessageHeader {
        integrity_check: 0,
        message_type: MctpMessageType::MctpControl,
        request_bit: 0,
        datagram_bit: 1,
        instance_id: 0x1F,
        command_code: MctpCommandCode::QuerySupportedInterfaces,
        completion_code: MctpCompletionCode::CommandSpecific(0xFF),
    };
    assert_eq!(other.encode(), Ok(0x005F_14FF));
    assert_eq!(MctpControlMessageHeader::decode(0x005F_14FF), Ok(other));
}

#[test]
fn control_set_endpoint_id_has_code_one() {
    let header = MctpControlMessageHeader {
        command_code: MctpCommandCode::SetEndpointId,
        ..Default::default()
    };
    assert_eq!(header.encode().unwrap().to_be_bytes(), [0x00, 0x00, 0x01, 0x00]);
}

#[test]
fn control_decode_ignores_the_unused_bit() {
    let with_bit = MctpControlMessageHeader::decode(0x0020_0000).unwrap();
    assert_eq!(with_bit, MctpControlMessageHeader::default());
    assert_eq!(with_bit.encode(), Ok(0));
    assert_eq!(
        MctpControlMessageHeader::decode(0xFFFF_14FF & 0x80FF_FFFF),
        MctpControlMessageHeader::decode(0xFFDF_14FF & 0x80FF_FFFF)
    );
    assert_eq!(MctpControlMessageHeader::USED_BITS, 0xFFDF_FFFF);
}

#[test]
fn control_decode_rejects_unknown_message_type() {
    assert_eq!(
        MctpControlMessageHeader::decode(0x0900_0000),
        Err(DecodeError {
            field: Field::MessageType,
            raw_bits: 0x09
        })
    );
    assert_eq!(
        MctpControlMessageHeader::try_from(0xFD00_0000u32),
        Err(DecodeError {
            field: Field::MessageType,
            raw_bits: 0x7D
        })
    );
}

#[test]
fn control_decode_rejects_unknown_command_code() {
    assert_eq!(
        MctpControlMessageHeader::decode(0x0000_1500),
        Err(DecodeError {
            field: Field::CommandCode,
            raw_bits: 0x15
        })
    );
    assert_eq!(
        MctpControlMessageHeader::decode(0x0000_FF00),
        Err(DecodeError {
            field: Field::CommandCode,
            raw_bits: 0xFF
        })
    );
}

#[test]
fn control_decode_names_the_message_type_first() {
    assert_eq!(
        MctpControlMessageHeader::decode(0x0900_FF00),
        Err(DecodeError {
            field: Field::MessageType,
            raw_bits: 0x09
        })
    );
}

#[test]
fn control_decode_keeps_unnamed_completion_code() {
    let header = MctpControlMessageHeader::decode(0x0000_0080).unwrap();
    assert_eq!(
        header.completion_code,
        MctpCompletionCode::CommandSpecific(0x80)
    );
    assert_eq!(header.encode(), Ok(0x0000_0080));

    let lowest = MctpControlMessageHeader::decode(0x0000_0006).unwrap();
    assert_eq!(
        lowest.completion_code,
        MctpCompletionCode::CommandSpecific(0x06)
    );
    assert_eq!(lowest.encode(), Ok(0x0000_0006));

    let named = MctpControlMessageHeader::decode(0x0000_0005).unwrap();
    assert_eq!(named.completion_code, MctpCompletionCode::ErrorUnsupportedCmd);
}

#[test]
fn control_decode_accepts_every_completion_byte() {
    for byte in 0..=255u32 {
        let header = MctpControlMessageHeader::decode(byte).unwrap();
        assert_eq!(header.completion_code.code(), Some(byte as u8));
        assert_eq!(header.encode(), Ok(byte));
    }
}

#[test]
fn control_encode_rejects_fields_out_of_range() {
    let valid = MctpControlMessageHeader::default();
    assert!(valid.is_valid());

    let header = MctpControlMessageHeader {
        integrity_check: 2,
        ..valid
    };
    assert!(!header.is_valid());
    assert_eq!(
        header.encode(),
        Err(EncodeError {
            field: Field::IntegrityCheck
        })
    );

    let header = MctpControlMessageHeader {
        request_bit: 2,
        ..valid
    };
    assert_eq!(
        TryInto::<u32>::try_into(header),
        Err(EncodeError {
            field: Field::RequestBit
        })
    );

    let header = MctpControlMessageHeader {
        datagram_bit: 0xFF,
        ..valid
    };
    assert_eq!(
        header.encode(),
        Err(EncodeError {
            field: Field::DatagramBit
        })
    );

    let header = MctpControlMessageHeader {
        instance_id: 0x20,
        ..valid
    };
    assert!(!header.is_valid());
    assert_eq!(
        header.encode(),
        Err(EncodeError {
            field: Field::InstanceId
        })
    );

    let header = MctpControlMessageHeader {
        completion_code: MctpCompletionCode::CommandSpecific(0x00),
        ..valid
    };
    assert!(!header.is_valid());
    assert_eq!(
        header.encode(),
        Err(EncodeError {
            field: Field::CompletionCode
        })
    );
}

#[test]
fn control_encode_names_the_first_field_that_fails() {
    let header = MctpControlMessageHeader {
        integrity_check: 0,
        message_type: MctpMessageType::MctpControl,
        request_bit: 1,
        datagram_bit: 7,
        instance_id: 0x40,
        command_code: MctpCommandCode::Reserved,
        completion_code: MctpCompletionCode::CommandSpecific(0x01),
    };
    assert_eq!(
        header.encode(),
        Err(EncodeError {
            field: Field::DatagramBit
        })
    );
}

#[test]
fn test_into_mctp_message_header() {
    let header = MctpControlMessageHeader {
        integrity_check: 0,
        message_type: MctpMessageType::MctpControl,
        ..Default::default()
    };
    let message_header = MctpMessageHeader::from_control(header);
    assert_eq!(
        message_header,
        MctpMessageHeader {
            integrity_check: 0,
            message_type: MctpMessageType::MctpControl,
            ..Default::default()
        }
    );
}

#[test]
fn control_narrowing_keeps_the_specific_fields_as_bits() {
    let header = MctpControlMessageHeader {
        integrity_check: 1,
        message_type: MctpMessageType::MctpControl,
        request_bit: 1,
        datagram_bit: 0,
        instance_id: 0x15,
        command_code: MctpCommandCode::GetEndpointId,
        completion_code: MctpCompletionCode::ErrorNotReady,
    };
    let generic = MctpMessageHeader::from_control(header);
    assert_eq!(
        generic,
        MctpMessageHeader {
            integrity_check: 1,
            message_type: MctpMessageType::MctpControl,
            rest: 0x95_0204,
        }
    );
    assert_eq!(generic.encode(), header.encode());
}
