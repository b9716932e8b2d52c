//! The named fields of the MCTP message headers, and the errors that name them.
//!
//! Every header shape is a list of fields taken from this catalogue. A field knows its name
//! and its bit range; what the bits mean is decided by the header that uses it.

use crate::bit_field::{
    extract_bits, fits, max_value, place_bits, range_width, read_field, read_field_u16,
    read_field_u8, write_field,
};
use vstd::prelude::*;

verus! {

/// A field of one of the header shapes.
#[derive(Clone, Copy, Debug, PartialEq, Eq, Structural)]
pub enum Field {
    /// Bit 31 of every header.
    IntegrityCheck,
    /// Bits 24 to 30 of every header.
    MessageType,
    /// Bits 0 to 23 of the generic header: whatever the message type makes of them.
    Rest,
    /// Bit 23 of the control header.
    RequestBit,
    /// Bit 22 of the control header.
    DatagramBit,
    /// Bits 16 to 20 of the control header.
    InstanceId,
    /// Bits 8 to 15 of the control header.
    CommandCode,
    /// Bits 0 to 7 of the control header.
    CompletionCode,
    /// Bits 8 to 23 of the vendor-defined PCI header.
    PciVendorId,
}

/// The bits of `field` in a received word stand for no value of the field's type.
#[derive(Clone, Copy, Debug, PartialEq, Eq, Structural)]
pub struct DecodeError {
    /// The field that could not be decoded.
    pub field: Field,
    /// The number found in the field's bit range.
    pub raw_bits: u32,
}

/// The value of `field` has no numeric code, or one that is too large for the field's bit
/// range.
#[derive(Clone, Copy, Debug, PartialEq, Eq, Structural)]
pub struct EncodeError {
    /// The field that could not be encoded.
    pub field: Field,
}

impl Field {
    /// Lowest bit position of the field.
    pub open spec fn spec_low(self) -> u32 {
        match self {
            Field::IntegrityCheck => 31,
            Field::MessageType => 24,
            Field::Rest => 0,
            Field::RequestBit => 23,
            Field::DatagramBit => 22,
            Field::InstanceId => 16,
            Field::CommandCode => 8,
            Field::CompletionCode => 0,
            Field::PciVendorId => 8,
        }
    }

    /// Highest bit position of the field.
    pub open spec fn spec_high(self) -> u32 {
        match self {
            Field::IntegrityCheck => 31,
            Field::MessageType => 30,
            Field::Rest => 23,
            Field::RequestBit => 23,
            Field::DatagramBit => 22,
            Field::InstanceId => 20,
            Field::CommandCode => 15,
            Field::CompletionCode => 7,
            Field::PciVendorId => 23,
        }
    }

    /// The field's name as it is written in the header layouts.
    pub open spec fn spec_name(self) -> &'static str {
        match self {
            Field::IntegrityCheck => "integrity_check",
            Field::MessageType => "message_type",
            Field::Rest => "rest",
            Field::RequestBit => "request_bit",
            Field::DatagramBit => "datagram_bit",
            Field::InstanceId => "instance_id",
            Field::CommandCode => "command_code",
            Field::CompletionCode => "completion_code",
            Field::PciVendorId => "pci_vendor_id",
        }
    }

    /// Number of bits of the field.
    pub open spec fn spec_width(self) -> nat {
        range_width(self.spec_low(), self.spec_high())
    }

    /// The largest number that the field can hold.
    pub open spec fn spec_limit(self) -> u32 {
        max_value(self.spec_low(), self.spec_high())
    }

    /// Whether `value` can be stored in the field without losing a bit.
    pub open spec fn spec_fits(self, value: u32) -> bool {
        fits(value, self.spec_low(), self.spec_high())
    }

    /// The number that the field holds in `word`.
    pub open spec fn spec_extract(self, word: u32) -> u32 {
        extract_bits(word, self.spec_low(), self.spec_high())
    }

    /// `value` moved to the field's position in an otherwise clear word.
    pub open spec fn spec_place(self, value: u32) -> u32 {
        place_bits(value, self.spec_low())
    }

    /// `word` with `value` stored in the field, or the error that names the field when the
    /// value does not fit.
    pub open spec fn spec_insert(self, word: u32, value: u32) -> Result<u32, EncodeError> {
        if self.spec_fits(value) {
            Ok(word | self.spec_place(value))
        } else {
            Err(EncodeError { field: self })
        }
    }

    /// Lowest bit position of the field.
    #[verifier::when_used_as_spec(spec_low)]
    pub fn low(self) -> (low: u32)
        ensures
            low == self.spec_low(),
    {
        match self {
            Field::IntegrityCheck => 31,
            Field::MessageType => 24,
            Field::Rest => 0,
            Field::RequestBit => 23,
            Field::DatagramBit => 22,
            Field::InstanceId => 16,
            Field::CommandCode => 8,
            Field::CompletionCode => 0,
            Field::PciVendorId => 8,
        }
    }

    /// Highest bit position of the field.
    #[verifier::when_used_as_spec(spec_high)]
    pub fn high(self) -> (high: u32)
        ensures
            high == self.spec_high(),
    {
        match self {
            Field::IntegrityCheck => 31,
            Field::MessageType => 30,
            Field::Rest => 23,
            Field::RequestBit => 23,
            Field::DatagramBit => 22,
            Field::InstanceId => 20,
            Field::CommandCode => 15,
            Field::CompletionCode => 7,
            Field::PciVendorId => 23,
        }
    }

    /// The field's name as it is written in the header layouts.
    #[verifier::when_used_as_spec(spec_name)]
    pub fn name(self) -> (name: &'static str)
        ensures
            name == self.spec_name(),
    {
        match self {
            Field::IntegrityCheck => "integrity_check",
            Field::MessageType => "message_type",
            Field::Rest => "rest",
            Field::RequestBit => "request_bit",
            Field::DatagramBit => "datagram_bit",
            Field::InstanceId => "instance_id",
            Field::CommandCode => "command_code",
            Field::CompletionCode => "completion_code",
            Field::PciVendorId => "pci_vendor_id",
        }
    }

    /// Reads the field from `word`.
    pub fn extract(self, word: u32) -> (value: u32)
        ensures
            value == self.spec_extract(word),
            self.spec_fits(value),
    {
        read_field(word, self.low(), self.high())
    }

    /// Reads a field of at most eight bits from `word`.
    pub fn extract_u8(self, word: u32) -> (value: u8)
        requires
            self.spec_width() <= 8,
        ensures
            value == self.spec_extract(word),
    {
        read_field_u8(word, self.low(), self.high())
    }

    /// Reads a field of at most sixteen bits from `word`.
    pub fn extract_u16(self, word: u32) -> (value: u16)
        requires
            self.spec_width() <= 16,
        ensures
            value == self.spec_extract(word),
    {
        read_field_u16(word, self.low(), self.high())
    }

    /// Stores `value` in the field of `word` by bitwise or, so the field is expected to be
    /// clear in `word`. A value that does not fit is refused with the field named as the
    /// cause.
    pub fn insert(self, word: u32, value: u32) -> (written: Result<u32, EncodeError>)
        ensures
            written == self.spec_insert(word, value),
    {
        match write_field(word, value, self.low(), self.high()) {
            Some(written) => Ok(written),
            None => Err(EncodeError { field: self }),
        }
    }

    /// The error for a number found in the field that stands for no value of its type.
    pub fn reject(self, raw_bits: u32) -> (error: DecodeError)
        ensures
            error == (DecodeError { field: self, raw_bits }),
    {
        DecodeError { field: self, raw_bits }
    }

    /// The largest number of each field, written out: one for the three flags, and as many
    /// one bits as the field is wide for the others.
    pub proof fn lemma_limits()
        ensures
            Field::IntegrityCheck.spec_limit() == 1,
            Field::MessageType.spec_limit() == 0x7f,
            Field::Rest.spec_limit() == 0xff_ffff,
            Field::RequestBit.spec_limit() == 1,
            Field::DatagramBit.spec_limit() == 1,
            Field::InstanceId.spec_limit() == 0x1f,
            Field::CommandCode.spec_limit() == 0xff,
            Field::CompletionCode.spec_limit() == 0xff,
            Field::PciVendorId.spec_limit() == 0xffff,
    {
        Self::lemma_limit_values();
    }

    proof fn lemma_limit_values()
        by (bit_vector)
        ensures
            max_value(31, 31) == 1,
            max_value(24, 30) == 0x7f,
            max_value(0, 23) == 0xff_ffff,
            max_value(23, 23) == 1,
            max_value(22, 22) == 1,
            max_value(16, 20) == 0x1f,
            max_value(8, 15) == 0xff,
            max_value(0, 7) == 0xff,
            max_value(8, 23) == 0xffff,
    {
    }
}

} // verus!
