use mctp_header::{
    DecodeError, EncodeError, Field, MctpMessageHeader, MctpMessageType,
    MctpVendorDefinedPciMessageHeader,
};

#[test]
fn test_mctp_vendor_defined_pci_message_header_bit_register() {
    let as_be_bytes = [
        0x7E, // vendor defined pci message type
        0x12, 0x34, // pci vendor id
        0x00, // unused
    ];
    let as_struct = MctpVendorDefinedPciMessageHeader {
        integrity_check: 0,
        message_type: MctpMessageType::VendorDefinedPci,
        pci_vendor_id: 0x1234,
    };

    assert_eq!(
        MctpVendorDefinedPciMessageHeader::try_from(u32::from_be_bytes(as_be_bytes)).unwrap(),
        as_struct
    );

    assert_eq!(
        TryInto::<u32>::try_into(as_struct).unwrap().to_be_bytes(),
        as_be_bytes
    );
}

fn vendor_roundtrip(integrity_check: u8, message_type: MctpMessageType, pci_vendor_id: u16) {
    let header = MctpVendorDefinedPciMessageHeader {
        integrity_check,
        message_type,
        pci_vendor_id,
    };
    let bytes = TryInto::<u32>::try_into(header).unwrap().to_be_bytes();
    let parsed = MctpVendorDefinedPciMessageHeader::try_from(u32::from_be_bytes(bytes)).unwrap();
    assert_eq!(parsed, header);
}

#[test]
fn vendor_roundtrip_zero_vendor_id() {
    vendor_roundtrip(0, MctpMessageType::VendorDefinedPci, 0x0000);
}

#[test]
fn vendor_roundtrip_highest_vendor_id() {
    vendor_roundtrip(1, MctpMessageType::VendorDefinedPci, 0xFFFF);
}

#[test]
fn vendor_roundtrip_some_vendor_id() {
    vendor_roundtrip(0, MctpMessageType::VendorDefinedPci, 0x1234);
}

#[test]
fn vendor_default_is_all_zero() {
    let header = MctpVendorDefinedPciMessageHeader::default();
    assert_eq!(
        header,
        MctpVendorDefinedPciMessageHeader {
            integrity_check: 0,
            message_type: MctpMessageType::MctpControl,
            pci_vendor_id: 0,
        }
    );
    assert_eq!(header.encode(), Ok(0));
    assert_eq!(MctpVendorDefinedPciMessageHeader::decode(0), Ok(header));
}

#[test]
fn vendor_encode_places_every_field() {
    let header = MctpVendorDefinedPciMessageHeader {
        integrity_check: 1,
        message_type: MctpMessageType::VendorDefinedPci,
        pci_vendor_id: 0xABCD,
    };
    assert_eq!(header.encode(), Ok(0xFEAB_CD00));
    assert_eq!(MctpVendorDefinedPciMessageHeader::decode(0xFEAB_CD00), Ok(header));
}

#[test]
fn vendor_decode_ignores_the_unused_bits() {
    let header = MctpVendorDefinedPciMessageHeader::decode(0x7E12_34FF).unwrap();
    assert_eq!(
        header,
        MctpVendorDefinedPciMessageHeader {
            integrity_check: 0,
            message_type: MctpMessageType::VendorDefinedPci,
            pci_vendor_id: 0x1234,
        }
    );
    assert_eq!(header.encode(), Ok(0x7E12_3400));
    assert_eq!(MctpVendorDefinedPciMessageHeader::USED_BITS, 0xFFFF_FF00);
}

#[test]
fn vendor_decode_rejects_unknown_message_type() {
    assert_eq!(
        MctpVendorDefinedPciMessageHeader::decode(0x7D12_3400),
        Err(DecodeError {
            field: Field::MessageType,
            raw_bits: 0x7D
        })
    );
    assert_eq!(
        MctpVendorDefinedPciMessageHeader::try_from(0x8912_3400u32),
        Err(DecodeError {
            field: Field::MessageType,
            raw_bits: 0x09
        })
    );
}

#[test]
fn vendor_encode_rejects_integrity_check_out_of_range() {
    let header = MctpVendorDefinedPciMessageHeader {
        integrity_check: 2,
        message_type: MctpMessageType::VendorDefinedPci,
        pci_vendor_id: 0x1234,
    };
    assert!(!header.is_valid());
    assert_eq!(
        header.encode(),
        Err(EncodeError {
            field: Field::IntegrityCheck
        })
    );
    assert_eq!(
        TryInto::<u32>::try_into(header),
        Err(EncodeError {
            field: Field::IntegrityCheck
        })
    );
}

#[test]
fn vendor_narrowing_keeps_the_vendor_id_as_bits() {
    let header = MctpVendorDefinedPciMessageHeader {
        integrity_check: 1,
        message_type: MctpMessageType::VendorDefinedPci,
        pci_vendor_id: 0x1234,
    };
    assert!(header.is_valid());
    let generic = MctpMessageHeader::from_vendor_defined_pci(header);
    assert_eq!(
        generic,
        MctpMessageHeader {
            integrity_check: 1,
            message_type: MctpMessageType::VendorDefinedPci,
            rest: 0x12_3400,
        }
    );
    assert_eq!(generic.encode(), header.encode());
}
