use mctp_header::{
    MctpCommandCode, MctpCompletionCode, MctpControlMessageHeader, MctpMessageHeader,
    MctpMessageType, MctpVendorDefinedPciMessageHeader,
};

const MESSAGE_TYPES: [MctpMessageType; 11] = [
    MctpMessageType::MctpControl,
    MctpMessageType::Pldm,
    MctpMessageType::NcSi,
    MctpMessageType::Ethernet,
    MctpMessageType::NvmExpressManagement,
    MctpMessageType::Spdm,
    MctpMessageType::SecuredMessages,
    MctpMessageType::CxlFmApi,
    MctpMessageType::CxlCci,
    MctpMessageType::VendorDefinedPci,
    MctpMessageType::VendorDefinedIana,
];

#[test]
fn generic_header_round_trips_for_every_message_type() {
    for message_type in MESSAGE_TYPES {
        for integrity_check in 0..=1u8 {
            for rest in [0u32, 1, 0x80_0000, 0x12_3456, 0xFF_FFFF] {
                let header = MctpMessageHeader {
                    integrity_check,
                    message_type,
                    rest,
                };
                assert!(header.is_valid());
                let word = header.encode().unwrap();
                assert_eq!(
                    word,
                    ((integrity_check as u32) << 31) | ((message_type.code() as u32) << 24) | rest
                );
                assert_eq!(MctpMessageHeader::decode(word), Ok(header));
            }
        }
    }
}

#[test]
fn control_header_round_trips_for_every_command_and_completion() {
    for command in 0..=MctpCommandCode::LAST_CODE {
        let command_code = MctpCommandCode::from_code(command).unwrap();
        for completion in 0..=255u8 {
            let completion_code = MctpCompletionCode::from_code(completion);
            let header = MctpControlMessageHeader {
                integrity_check: completion & 1,
                message_type: MctpMessageType::MctpControl,
                request_bit: (completion >> 1) & 1,
                datagram_bit: (completion >> 2) & 1,
                instance_id: completion & 0x1F,
                command_code,
                completion_code,
            };
            assert!(header.is_valid());
            let word = header.encode().unwrap();
            assert_eq!(word & 0x0020_0000, 0);
            assert_eq!(word & 0xFF, completion as u32);
            assert_eq!((word >> 8) & 0xFF, command as u32);
            assert_eq!(MctpControlMessageHeader::decode(word), Ok(header));
            assert_eq!(MctpControlMessageHeader::decode(word | 0x0020_0000), Ok(header));
        }
    }
}

#[test]
fn vendor_header_round_trips_for_every_vendor_id() {
    for pci_vendor_id in 0..=u16::MAX {
        let header = MctpVendorDefinedPciMessageHeader {
            integrity_check: (pci_vendor_id & 1) as u8,
            message_type: MctpMessageType::VendorDefinedPci,
            pci_vendor_id,
        };
        let word = header.encode().unwrap();
        assert_eq!(word & 0xFF, 0);
        assert_eq!(MctpVendorDefinedPciMessageHeader::decode(word), Ok(header));
        assert_eq!(MctpVendorDefinedPciMessageHeader::decode(word | 0xA5), Ok(header));
    }
}

#[test]
fn narrowing_never_fails_and_keeps_the_common_fields() {
    for message_type in MESSAGE_TYPES {
        for integrity_check in 0..=1u8 {
            let control = MctpControlMessageHeader {
                integrity_check,
                message_type,
                request_bit: 1,
                datagram_bit: 1,
                instance_id: 0x1F,
                command_code: MctpCommandCode::QuerySupportedInterfaces,
                completion_code: MctpCompletionCode::CommandSpecific(0xFF),
            };
            assert!(control.is_valid());
            let generic = MctpMessageHeader::from_control(control);
            assert_eq!(generic.integrity_check, integrity_check);
            assert_eq!(generic.message_type, message_type);
            assert_eq!(generic.rest, 0xDF_14FF);
            assert_eq!(generic.encode(), control.encode());

            let vendor = MctpVendorDefinedPciMessageHeader {
                integrity_check,
                message_type,
                pci_vendor_id: 0xFFFF,
            };
            assert!(vendor.is_valid());
            let generic = MctpMessageHeader::from_vendor_defined_pci(vendor);
            assert_eq!(generic.integrity_check, integrity_check);
            assert_eq!(generic.message_type, message_type);
            assert_eq!(generic.rest, 0xFF_FF00);
            assert_eq!(generic.encode(), vendor.encode());
        }
    }
}

#[test]
fn decoded_headers_are_valid_and_encode_to_the_used_bits() {
    let mut word: u32 = 0x1234_5678;
    for _ in 0..20_000 {
        word = word.wrapping_mul(1_664_525).wrapping_add(1_013_904_223);
        if let Ok(header) = MctpMessageHeader::decode(word) {
            assert!(header.is_valid());
            assert_eq!(header.encode(), Ok(word));
        }
        if let Ok(header) = MctpControlMessageHeader::decode(word) {
            assert!(header.is_valid());
            assert_eq!(
                header.encode(),
                Ok(word & MctpControlMessageHeader::USED_BITS)
            );
        }
        if let Ok(header) = MctpVendorDefinedPciMessageHeader::decode(word) {
            assert!(header.is_valid());
            assert_eq!(
                header.encode(),
                Ok(word & MctpVendorDefinedPciMessageHeader::USED_BITS)
            );
        }
    }
}
