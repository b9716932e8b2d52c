//! The generic header of an MCTP message, and the headers of the message types that refine it.
//!
//! Every message starts with one 32-bit word. Its two highest fields, the integrity-check bit
//! and the message type, mean the same in every message; what the lower 24 bits hold depends
//! on the message type. [`MctpMessageHeader`] keeps those 24 bits as they are, so that a
//! receiver can look at the message type first and then decode the word once more as the
//! header that belongs to it.

pub mod mctp_control_message_header;
pub mod mctp_vendor_defined_pci_message_header;

use crate::bit_field::{extract_bits, fits, lemma_extract_fits, place_bits};
use crate::field::{DecodeError, EncodeError, Field};
use crate::mctp_message_type::MctpMessageType;
use vstd::prelude::*;
use vstd::std_specs::convert::TryFromSpecImpl;

verus! {

/// The header that every MCTP message has.
#[derive(Clone, Copy, Debug, PartialEq, Eq, Structural)]
pub struct MctpMessageHeader {
    /// Bit 31: whether the message carries an integrity check. Zero or one.
    pub integrity_check: u8,
    /// Bits 24 to 30: the kind of message.
    pub message_type: MctpMessageType,
    /// Bits 0 to 23, not interpreted. Below `0x100_0000`.
    pub rest: u32,
}

impl MctpMessageHeader {
    /// The first field, in the order of the layout, whose value is too large for its bit
    /// range; `None` when every field fits.
    pub open spec fn first_misfit(self) -> Option<Field> {
        if !Field::IntegrityCheck.spec_fits(self.integrity_check as u32) {
            Some(Field::IntegrityCheck)
        } else if !Field::MessageType.spec_fits(self.message_type.spec_code() as u32) {
            Some(Field::MessageType)
        } else if !Field::Rest.spec_fits(self.rest) {
            Some(Field::Rest)
        } else {
            None
        }
    }

    /// A header is valid when each of its fields fits its bit range.
    pub open spec fn valid(self) -> bool {
        self.first_misfit() is None
    }

    /// The fields of the header, each at its position, combined into one word.
    pub open spec fn spec_word(self) -> u32 {
        Field::IntegrityCheck.spec_place(self.integrity_check as u32)
            | Field::MessageType.spec_place(self.message_type.spec_code() as u32)
            | Field::Rest.spec_place(self.rest)
    }

    /// What encoding the header gives: its word when the header is valid, else the error
    /// that names the first field that does not fit.
    pub open spec fn spec_encode(self) -> Result<u32, EncodeError> {
        match self.first_misfit() {
            Some(field) => Err(EncodeError { field }),
            None => Ok(self.spec_word()),
        }
    }

    /// What decoding `word` gives: the header whose fields are the numbers found in their bit
    /// ranges, or the error that names the message type when its bits stand for none.
    pub open spec fn spec_decode(word: u32) -> Result<MctpMessageHeader, DecodeError> {
        let type_bits = Field::MessageType.spec_extract(word);
        match MctpMessageType::spec_from_code(type_bits as u8) {
            None => Err(DecodeError { field: Field::MessageType, raw_bits: type_bits }),
            Some(message_type) => Ok(
                MctpMessageHeader {
                    integrity_check: Field::IntegrityCheck.spec_extract(word) as u8,
                    message_type,
                    rest: Field::Rest.spec_extract(word),
                },
            ),
        }
    }

    /// Whether each field of the header fits its bit range.
    pub fn is_valid(self) -> (valid: bool)
        ensures
            valid == self.valid(),
    {
        proof {
            self.lemma_valid_bounds();
        }
        self.integrity_check <= 1 && self.rest <= 0xff_ffff
    }

    /// Decodes a received word. Every word whose message-type bits stand for a message type
    /// is accepted, and the header it gives encodes to that very word; any other word is
    /// refused with the message type named as the cause.
    pub fn decode(word: u32) -> (decoded: Result<MctpMessageHeader, DecodeError>)
        ensures
            decoded == Self::spec_decode(word),
            decoded matches Ok(header) ==> header.valid() && header.spec_encode() === Ok(word),
            MctpMessageType::spec_from_code(Field::MessageType.spec_extract(word) as u8) is None
                ==> decoded === Err(
                DecodeError {
                    field: Field::MessageType,
                    raw_bits: Field::MessageType.spec_extract(word),
                },
            ),
    {
        proof {
            Self::lemma_decode_then_encode(word);
        }
        let integrity_check: u8 = Field::IntegrityCheck.extract_u8(word);
        let type_bits: u8 = Field::MessageType.extract_u8(word);
        let message_type = match MctpMessageType::from_code(type_bits) {
            Some(message_type) => message_type,
            None => {
                return Err(Field::MessageType.reject(type_bits as u32));
            },
        };
        let rest: u32 = Field::Rest.extract(word);
        Ok(MctpMessageHeader { integrity_check, message_type, rest })
    }

    /// Encodes the header for sending. A valid header gives its word, which decodes to the
    /// same header again; an invalid one is refused with the first field that does not fit
    /// named as the cause.
    pub fn encode(self) -> (encoded: Result<u32, EncodeError>)
        ensures
            encoded == self.spec_encode(),
            encoded is Ok <==> self.valid(),
            encoded matches Ok(word) ==> Self::spec_decode(word) === Ok(self),
    {
        proof {
            if self.valid() {
                self.lemma_encode_then_decode();
            }
        }
        let word: u32 = 0;
        let word: u32 = Field::IntegrityCheck.insert(word, self.integrity_check as u32)?;
        let word: u32 = Field::MessageType.insert(word, self.message_type.code() as u32)?;
        let word: u32 = Field::Rest.insert(word, self.rest)?;
        assert(word == self.spec_word()) by {
            let first = Field::IntegrityCheck.spec_place(self.integrity_check as u32);
            assert(0u32 | first == first) by (bit_vector);
        }
        Ok(word)
    }

    /// A header is valid exactly when its integrity-check flag is a single bit and its rest
    /// takes no more than 24 bits. Every message type fits.
    pub proof fn lemma_valid_bounds(self)
        ensures
            self.valid() <==> self.integrity_check <= 1 && self.rest <= 0xff_ffff,
    {
        Field::lemma_limits();
    }

    /// The word of a valid header read as a number: each field times two to the power of its
    /// lowest bit position, added up.
    pub proof fn lemma_word_is_sum(self)
        requires
            self.valid(),
        ensures
            self.spec_word() == self.integrity_check * 0x8000_0000
                + self.message_type.spec_code() * 0x100_0000 + self.rest,
    {
        Self::lemma_fields_add_up(
            self.integrity_check as u32,
            self.message_type.spec_code() as u32,
            self.rest,
        );
    }

    /// Round trip from a header: a valid header is encoded, and decoding its word gives the
    /// same header back.
    pub proof fn lemma_encode_then_decode(self)
        requires
            self.valid(),
        ensures
            self.spec_encode() === Ok(self.spec_word()),
            Self::spec_decode(self.spec_word()) === Ok(self),
    {
        self.message_type.lemma_code_round_trip();
        Self::lemma_fields_read_back(
            self.integrity_check as u32,
            self.message_type.spec_code() as u32,
            self.rest,
        );
    }

    /// Round trip from a word: a header that was decoded is valid, and encoding it gives the
    /// word it came from, bit for bit.
    pub proof fn lemma_decode_then_encode(word: u32)
        ensures
            Self::spec_decode(word) matches Ok(header) ==> header.valid()
                && header.spec_encode() === Ok(word),
    {
        Field::lemma_limits();
        lemma_extract_fits(word, 31, 31);
        lemma_extract_fits(word, 24, 30);
        lemma_extract_fits(word, 0, 23);
        MctpMessageType::lemma_from_code_is_inverse(Field::MessageType.spec_extract(word) as u8);
        Self::lemma_fields_cover_word(word);
    }

    proof fn lemma_fields_read_back(integrity_check: u32, message_type: u32, rest: u32)
        by (bit_vector)
        requires
            fits(integrity_check, 31, 31),
            fits(message_type, 24, 30),
            fits(rest, 0, 23),
        ensures
            ({
                let word = place_bits(integrity_check, 31) | place_bits(message_type, 24)
                    | place_bits(rest, 0);
                &&& extract_bits(word, 31, 31) == integrity_check
                &&& extract_bits(word, 24, 30) == message_type
                &&& extract_bits(word, 0, 23) == rest
            }),
    {
    }

    proof fn lemma_fields_add_up(integrity_check: u32, message_type: u32, rest: u32)
        by (bit_vector)
        requires
            fits(integrity_check, 31, 31),
            fits(message_type, 24, 30),
            fits(rest, 0, 23),
        ensures
            place_bits(integrity_check, 31) | place_bits(message_type, 24) | place_bits(rest, 0)
                == integrity_check * 0x8000_0000 + message_type * 0x100_0000 + rest,
    {
    }

    proof fn lemma_fields_cover_word(word: u32)
        by (bit_vector)
        ensures
            ({
                let integrity_check = extract_bits(word, 31, 31);
                let message_type = extract_bits(word, 24, 30);
                let rest = extract_bits(word, 0, 23);
                place_bits(integrity_check, 31) | place_bits(message_type, 24) | place_bits(
                    rest,
                    0,
                ) == word
            }),
    {
    }
}

impl Default for MctpMessageHeader {
    /// The header in which every field is zero.
    fn default() -> (header: MctpMessageHeader)
        ensures
            header == (MctpMessageHeader {
                integrity_check: 0,
                message_type: MctpMessageType::MctpControl,
                rest: 0,
            }),
    {
        MctpMessageHeader { integrity_check: 0, message_type: MctpMessageType::default(), rest: 0 }
    }
}

impl TryFrom<u32> for MctpMessageHeader {
    type Error = DecodeError;

    /// Decodes a received word, as [`MctpMessageHeader::decode`] does.
    fn try_from(word: u32) -> (decoded: Result<MctpMessageHeader, DecodeError>)
        ensures
            decoded == MctpMessageHeader::spec_decode(word),
    {
        MctpMessageHeader::decode(word)
    }
}

impl TryFromSpecImpl<u32> for MctpMessageHeader {
    open spec fn obeys_try_from_spec() -> bool {
        true
    }

    open spec fn try_from_spec(word: u32) -> Result<MctpMessageHeader, DecodeError> {
        MctpMessageHeader::spec_decode(word)
    }
}

impl TryFrom<MctpMessageHeader> for u32 {
    type Error = EncodeError;

    /// Encodes a header, as [`MctpMessageHeader::encode`] does.
    fn try_from(header: MctpMessageHeader) -> (encoded: Result<u32, EncodeError>)
        ensures
            encoded == header.spec_encode(),
    {
        header.encode()
    }
}

impl TryFromSpecImpl<MctpMessageHeader> for u32 {
    open spec fn obeys_try_from_spec() -> bool {
        true
    }

    open spec fn try_from_spec(header: MctpMessageHeader) -> Result<u32, EncodeError> {
        header.spec_encode()
    }
}

} // verus!
