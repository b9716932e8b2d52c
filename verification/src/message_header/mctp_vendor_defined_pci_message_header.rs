//! The header of a vendor-defined MCTP message that is identified by a PCI vendor id.

use crate::bit_field::{extract_bits, fits, lemma_extract_fits, place_bits};
use crate::field::{DecodeError, EncodeError, Field};
use crate::mctp_message_type::MctpMessageType;
use crate::message_header::MctpMessageHeader;
use vstd::prelude::*;
use vstd::std_specs::convert::TryFromSpecImpl;

verus! {

/// The header of a message whose type is [`MctpMessageType::VendorDefinedPci`]: the generic
/// header with the vendor's PCI id in bits 8 to 23. Bits 0 to 7 belong to no field.
///
/// The message type is not held to be `VendorDefinedPci`.
#[derive(Clone, Copy, Debug, PartialEq, Eq, Structural)]
pub struct MctpVendorDefinedPciMessageHeader {
    /// Bit 31: whether the message carries an integrity check. Zero or one.
    pub integrity_check: u8,
    /// Bits 24 to 30: the kind of message.
    pub message_type: MctpMessageType,
    /// Bits 8 to 23: the PCI id of the vendor who defined the message.
    pub pci_vendor_id: u16,
}

impl MctpVendorDefinedPciMessageHeader {
    /// The bits of the word that belong to a field: all but the lowest eight.
    pub const USED_BITS: u32 = 0xffff_ff00;

    /// The first field, in the order of the layout, whose value is too large for its bit
    /// range; `None` when every field fits.
    pub open spec fn first_misfit(self) -> Option<Field> {
        if !Field::IntegrityCheck.spec_fits(self.integrity_check as u32) {
            Some(Field::IntegrityCheck)
        } else if !Field::MessageType.spec_fits(self.message_type.spec_code() as u32) {
            Some(Field::MessageType)
        } else if !Field::PciVendorId.spec_fits(self.pci_vendor_id as u32) {
            Some(Field::PciVendorId)
        } else {
            None
        }
    }

    /// A header is valid when each of its fields fits its bit range.
    pub open spec fn valid(self) -> bool {
        self.first_misfit() is None
    }

    /// The fields of the header, each at its position, combined into one word.
    pub open spec fn spec_word(self) -> u32 {
        Field::IntegrityCheck.spec_place(self.integrity_check as u32)
            | Field::MessageType.spec_place(self.message_type.spec_code() as u32)
            | Field::PciVendorId.spec_place(self.pci_vendor_id as u32)
    }

    /// What encoding the header gives: its word when the header is valid, else the error
    /// that names the first field that does not fit.
    pub open spec fn spec_encode(self) -> Result<u32, EncodeError> {
        match self.first_misfit() {
            Some(field) => Err(EncodeError { field }),
            None => Ok(self.spec_word()),
        }
    }

    /// What decoding `word` gives: the header whose fields are the values found in their bit
    /// ranges, or the error that names the message type when its bits stand for none. Bits 0
    /// to 7 are not looked at.
    pub open spec fn spec_decode(word: u32) -> Result<
        MctpVendorDefinedPciMessageHeader,
        DecodeError,
    > {
        let type_bits = Field::MessageType.spec_extract(word);
        match MctpMessageType::spec_from_code(type_bits as u8) {
            None => Err(DecodeError { field: Field::MessageType, raw_bits: type_bits }),
            Some(message_type) => Ok(
                MctpVendorDefinedPciMessageHeader {
                    integrity_check: Field::IntegrityCheck.spec_extract(word) as u8,
                    message_type,
                    pci_vendor_id: Field::PciVendorId.spec_extract(word) as u16,
                },
            ),
        }
    }

    /// Whether each field of the header fits its bit range.
    pub fn is_valid(self) -> (valid: bool)
        ensures
            valid == self.valid(),
    {
        proof {
            self.lemma_valid_bounds();
        }
        self.integrity_check <= 1
    }

    /// Decodes a received word. Every word whose message-type bits stand for a message type
    /// is accepted, and the header it gives encodes to the word with bits 0 to 7 cleared; any
    /// other word is refused with the message type named as the cause.
    pub fn decode(word: u32) -> (decoded: Result<MctpVendorDefinedPciMessageHeader, DecodeError>)
        ensures
            decoded == Self::spec_decode(word),
            decoded matches Ok(header) ==> header.valid() && header.spec_encode() === Ok(
                word & Self::USED_BITS,
            ),
            MctpMessageType::spec_from_code(Field::MessageType.spec_extract(word) as u8) is None
                ==> decoded === Err(
                DecodeError {
                    field: Field::MessageType,
                    raw_bits: Field::MessageType.spec_extract(word),
                },
            ),
    {
        proof {
            Self::lemma_decode_then_encode(word);
        }
        let integrity_check: u8 = Field::IntegrityCheck.extract_u8(word);
        let type_bits: u8 = Field::MessageType.extract_u8(word);
        let message_type = match MctpMessageType::from_code(type_bits) {
            Some(message_type) => message_type,
            None => {
                return Err(Field::MessageType.reject(type_bits as u32));
            },
        };
        let pci_vendor_id: u16 = Field::PciVendorId.extract_u16(word);
        Ok(MctpVendorDefinedPciMessageHeader { integrity_check, message_type, pci_vendor_id })
    }

    /// Encodes the header for sending. A valid header gives its word, in which bits 0 to 7
    /// are zero and which decodes to the same header again; an invalid one is refused with
    /// the first field that does not fit named as the cause.
    pub fn encode(self) -> (encoded: Result<u32, EncodeError>)
        ensures
            encoded == self.spec_encode(),
            encoded is Ok <==> self.valid(),
            encoded matches Ok(word) ==> Self::spec_decode(word) === Ok(self),
    {
        proof {
            if self.valid() {
                self.lemma_encode_then_decode();
            }
        }
        let word: u32 = 0;
        let word: u32 = Field::IntegrityCheck.insert(word, self.integrity_check as u32)?;
        let word: u32 = Field::MessageType.insert(word, self.message_type.code() as u32)?;
        let word: u32 = Field::PciVendorId.insert(word, self.pci_vendor_id as u32)?;
        assert(word == self.spec_word()) by {
            let first = Field::IntegrityCheck.spec_place(self.integrity_check as u32);
            assert(0u32 | first == first) by (bit_vector);
        }
        Ok(word)
    }

    /// A header is valid exactly when its integrity-check flag is a single bit. Every message
    /// type and every vendor id fits.
    pub proof fn lemma_valid_bounds(self)
        ensures
            self.valid() <==> self.integrity_check <= 1,
    {
        Field::lemma_limits();
    }

    /// The word of a valid header read as a number: each field times two to the power of its
    /// lowest bit position, added up.
    pub proof fn lemma_word_is_sum(self)
        requires
            self.valid(),
        ensures
            self.spec_word() == self.integrity_check * 0x8000_0000
                + self.message_type.spec_code() * 0x100_0000 + self.pci_vendor_id * 0x100,
    {
        Self::lemma_fields_add_up(
            self.integrity_check as u32,
            self.message_type.spec_code() as u32,
            self.pci_vendor_id as u32,
        );
    }

    /// Round trip from a header: a valid header is encoded, and decoding its word gives the
    /// same header back. Bits 0 to 7 of the word are zero.
    pub proof fn lemma_encode_then_decode(self)
        requires
            self.valid(),
        ensures
            self.spec_encode() === Ok(self.spec_word()),
            Self::spec_decode(self.spec_word()) === Ok(self),
            self.spec_word() & Self::USED_BITS == self.spec_word(),
    {
        self.message_type.lemma_code_round_trip();
        Self::lemma_fields_read_back(
            self.integrity_check as u32,
            self.message_type.spec_code() as u32,
            self.pci_vendor_id as u32,
        );
    }

    /// Round trip from a word: a header that was decoded is valid, and encoding it gives the
    /// word it came from with bits 0 to 7 cleared.
    pub proof fn lemma_decode_then_encode(word: u32)
        ensures
            Self::spec_decode(word) matches Ok(header) ==> header.valid()
                && header.spec_encode() === Ok(word & Self::USED_BITS),
    {
        Field::lemma_limits();
        lemma_extract_fits(word, 31, 31);
        lemma_extract_fits(word, 24, 30);
        lemma_extract_fits(word, 8, 23);
        MctpMessageType::lemma_from_code_is_inverse(Field::MessageType.spec_extract(word) as u8);
        Self::lemma_fields_cover_word(word);
    }

    /// Bits 0 to 7 have no influence on what a word decodes to.
    pub proof fn lemma_unused_bits_are_ignored(word: u32)
        ensures
            Self::spec_decode(word) == Self::spec_decode(word & Self::USED_BITS),
    {
        Self::lemma_fields_skip_unused(word);
    }

    /// Narrowing to the generic header: the word of a valid vendor-defined PCI header always
    /// decodes as a generic header. That header has the same integrity-check flag and message
    /// type, holds the lower 24 bits of the word as its rest, and encodes to the very same
    /// word.
    pub proof fn lemma_narrowing_is_total(self)
        requires
            self.valid(),
        ensures
            ({
                let generic = MctpMessageHeader {
                    integrity_check: self.integrity_check,
                    message_type: self.message_type,
                    rest: Field::Rest.spec_extract(self.spec_word()),
                };
                &&& MctpMessageHeader::spec_decode(self.spec_word()) === Ok(generic)
                &&& generic.spec_encode() === Ok(self.spec_word())
            }),
    {
        self.lemma_encode_then_decode();
        MctpMessageHeader::lemma_decode_then_encode(self.spec_word());
    }

    proof fn lemma_fields_read_back(integrity_check: u32, message_type: u32, pci_vendor_id: u32)
        by (bit_vector)
        requires
            fits(integrity_check, 31, 31),
            fits(message_type, 24, 30),
            fits(pci_vendor_id, 8, 23),
        ensures
            ({
                let word = place_bits(integrity_check, 31) | place_bits(message_type, 24)
                    | place_bits(pci_vendor_id, 8);
                &&& extract_bits(word, 31, 31) == integrity_check
                &&& extract_bits(word, 24, 30) == message_type
                &&& extract_bits(word, 8, 23) == pci_vendor_id
                &&& word & 0xffff_ff00 == word
            }),
    {
    }

    proof fn lemma_fields_add_up(integrity_check: u32, message_type: u32, pci_vendor_id: u32)
        by (bit_vector)
        requires
            fits(integrity_check, 31, 31),
            fits(message_type, 24, 30),
            fits(pci_vendor_id, 8, 23),
        ensures
            ({
                let word = place_bits(integrity_check, 31) | place_bits(message_type, 24)
                    | place_bits(pci_vendor_id, 8);
                word == integrity_check * 0x8000_0000 + message_type * 0x100_0000
                    + pci_vendor_id * 0x100
            }),
    {
    }

    proof fn lemma_fields_cover_word(word: u32)
        by (bit_vector)
        ensures
            ({
                let integrity_check = extract_bits(word, 31, 31);
                let message_type = extract_bits(word, 24, 30);
                let pci_vendor_id = extract_bits(word, 8, 23);
                place_bits(integrity_check, 31) | place_bits(message_type, 24) | place_bits(
                    pci_vendor_id,
                    8,
                ) == word & 0xffff_ff00
            }),
    {
    }

    proof fn lemma_fields_skip_unused(word: u32)
        by (bit_vector)
        ensures
            ({
                let used = word & 0xffff_ff00;
                &&& extract_bits(used, 31, 31) == extract_bits(word, 31, 31)
                &&& extract_bits(used, 24, 30) == extract_bits(word, 24, 30)
                &&& extract_bits(used, 8, 23) == extract_bits(word, 8, 23)
            }),
    {
    }
}

impl MctpMessageHeader {
    /// Narrows a valid vendor-defined PCI header to the generic header: encodes it and
    /// decodes the word as a generic header. This cannot fail. The vendor id ends up, as
    /// bits, in the rest of the generic header.
    pub fn from_vendor_defined_pci(header: MctpVendorDefinedPciMessageHeader) -> (generic:
        MctpMessageHeader)
        requires
            header.valid(),
        ensures
            Self::spec_decode(header.spec_word()) === Ok(generic),
            generic.integrity_check == header.integrity_check,
            generic.message_type == header.message_type,
            generic.rest == Field::Rest.spec_extract(header.spec_word()),
            generic.spec_encode() === Ok(header.spec_word()),
    {
        proof {
            header.lemma_narrowing_is_total();
        }
        let word: u32 = header.encode().unwrap();
        MctpMessageHeader::decode(word).unwrap()
    }
}

impl Default for MctpVendorDefinedPciMessageHeader {
    /// The header in which every field is zero.
    fn default() -> (header: MctpVendorDefinedPciMessageHeader)
        ensures
            header == (MctpVendorDefinedPciMessageHeader {
                integrity_check: 0,
                message_type: MctpMessageType::MctpControl,
                pci_vendor_id: 0,
            }),
    {
        MctpVendorDefinedPciMessageHeader {
            integrity_check: 0,
            message_type: MctpMessageType::default(),
            pci_vendor_id: 0,
        }
    }
}

impl TryFrom<u32> for MctpVendorDefinedPciMessageHeader {
    type Error = DecodeError;

    /// Decodes a received word, as [`MctpVendorDefinedPciMessageHeader::decode`] does.
    fn try_from(word: u32) -> (decoded: Result<MctpVendorDefinedPciMessageHeader, DecodeError>)
        ensures
            decoded == MctpVendorDefinedPciMessageHeader::spec_decode(word),
    {
        MctpVendorDefinedPciMessageHeader::decode(word)
    }
}

impl TryFromSpecImpl<u32> for MctpVendorDefinedPciMessageHeader {
    open spec fn obeys_try_from_spec() -> bool {
        true
    }

    open spec fn try_from_spec(word: u32) -> Result<
        MctpVendorDefinedPciMessageHeader,
        DecodeError,
    > {
        MctpVendorDefinedPciMessageHeader::spec_decode(word)
    }
}

impl TryFrom<MctpVendorDefinedPciMessageHeader> for u32 {
    type Error = EncodeError;

    /// Encodes a header, as [`MctpVendorDefinedPciMessageHeader::encode`] does.
    fn try_from(header: MctpVendorDefinedPciMessageHeader) -> (encoded: Result<u32, EncodeError>)
        ensures
            encoded == header.spec_encode(),
    {
        header.encode()
    }
}

impl TryFromSpecImpl<MctpVendorDefinedPciMessageHeader> for u32 {
    open spec fn obeys_try_from_spec() -> bool {
        true
    }

    open spec fn try_from_spec(header: MctpVendorDefinedPciMessageHeader) -> Result<
        u32,
        EncodeError,
    > {
        header.spec_encode()
    }
}

} // verus!
