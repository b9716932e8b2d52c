//! The header of an MCTP control message.

use crate::bit_field::{extract_bits, fits, lemma_extract_fits, place_bits};
use crate::field::{DecodeError, EncodeError, Field};
use crate::mctp_command_code::MctpCommandCode;
use crate::mctp_completion_code::MctpCompletionCode;
use crate::mctp_message_type::MctpMessageType;
use crate::message_header::MctpMessageHeader;
use vstd::prelude::*;
use vstd::std_specs::convert::TryFromSpecImpl;

verus! {

/// The header of a message whose type is [`MctpMessageType::MctpControl`]: the generic header
/// with its lower 24 bits split into the fields of a control message. Bit 21 belongs to no
/// field.
///
/// The fields are independent of each other: no command is tied to a completion code, and
/// the message type is not held to be `MctpControl`.
#[derive(Clone, Copy, Debug, PartialEq, Eq, Structural)]
pub struct MctpControlMessageHeader {
    /// Bit 31: whether the message carries an integrity check. Zero or one.
    pub integrity_check: u8,
    /// Bits 24 to 30: the kind of message.
    pub message_type: MctpMessageType,
    /// Bit 23: set in a request. Zero or one.
    pub request_bit: u8,
    /// Bit 22: set in a datagram. Zero or one.
    pub datagram_bit: u8,
    /// Bits 16 to 20: pairs a response with its request. At most `0x1F`.
    pub instance_id: u8,
    /// Bits 8 to 15: the command.
    pub command_code: MctpCommandCode,
    /// Bits 0 to 7: how the command ended.
    pub completion_code: MctpCompletionCode,
}

impl MctpControlMessageHeader {
    /// The bits of the word that belong to a field: all but bit 21.
    pub const USED_BITS: u32 = 0xffdf_ffff;

    /// The number that stands for the completion code in the word; zero for a completion
    /// code that has no code.
    pub open spec fn spec_completion_bits(self) -> u32 {
        match self.completion_code.spec_code() {
            Some(code) => code as u32,
            None => 0,
        }
    }

    /// The first field, in the order of the layout, that cannot be encoded: its value is too
    /// large for its bit range or, for the completion code, has no numeric code. `None` when
    /// every field can be encoded.
    pub open spec fn first_misfit(self) -> Option<Field> {
        if !Field::IntegrityCheck.spec_fits(self.integrity_check as u32) {
            Some(Field::IntegrityCheck)
        } else if !Field::MessageType.spec_fits(self.message_type.spec_code() as u32) {
            Some(Field::MessageType)
        } else if !Field::RequestBit.spec_fits(self.request_bit as u32) {
            Some(Field::RequestBit)
        } else if !Field::DatagramBit.spec_fits(self.datagram_bit as u32) {
            Some(Field::DatagramBit)
        } else if !Field::InstanceId.spec_fits(self.instance_id as u32) {
            Some(Field::InstanceId)
        } else if !Field::CommandCode.spec_fits(self.command_code.spec_code() as u32) {
            Some(Field::CommandCode)
        } else if self.completion_code.spec_code() is None
            || !Field::CompletionCode.spec_fits(self.spec_completion_bits()) {
            Some(Field::CompletionCode)
        } else {
            None
        }
    }

    /// A header is valid when each of its fields can be encoded.
    pub open spec fn valid(self) -> bool {
        self.first_misfit() is None
    }

    /// The fields of the header, each at its position, combined into one word.
    pub open spec fn spec_word(self) -> u32 {
        Field::IntegrityCheck.spec_place(self.integrity_check as u32)
            | Field::MessageType.spec_place(self.message_type.spec_code() as u32)
            | Field::RequestBit.spec_place(self.request_bit as u32)
            | Field::DatagramBit.spec_place(self.datagram_bit as u32)
            | Field::InstanceId.spec_place(self.instance_id as u32)
            | Field::CommandCode.spec_place(self.command_code.spec_code() as u32)
            | Field::CompletionCode.spec_place(self.spec_completion_bits())
    }

    /// What encoding the header gives: its word when the header is valid, else the error
    /// that names the first field that cannot be encoded.
    pub open spec fn spec_encode(self) -> Result<u32, EncodeError> {
        match self.first_misfit() {
            Some(field) => Err(EncodeError { field }),
            None => Ok(self.spec_word()),
        }
    }

    /// What decoding `word` gives: the header whose fields are the values found in their bit
    /// ranges, or the error that names the first of message type and command code whose bits
    /// stand for no value. Bit 21 is not looked at.
    pub open spec fn spec_decode(word: u32) -> Result<MctpControlMessageHeader, DecodeError> {
        let type_bits = Field::MessageType.spec_extract(word);
        let command_bits = Field::CommandCode.spec_extract(word);
        match MctpMessageType::spec_from_code(type_bits as u8) {
            None => Err(DecodeError { field: Field::MessageType, raw_bits: type_bits }),
            Some(message_type) => match MctpCommandCode::spec_from_code(command_bits as u8) {
                None => Err(DecodeError { field: Field::CommandCode, raw_bits: command_bits }),
                Some(command_code) => Ok(
                    MctpControlMessageHeader {
                        integrity_check: Field::IntegrityCheck.spec_extract(word) as u8,
                        message_type,
                        request_bit: Field::RequestBit.spec_extract(word) as u8,
                        datagram_bit: Field::DatagramBit.spec_extract(word) as u8,
                        instance_id: Field::InstanceId.spec_extract(word) as u8,
                        command_code,
                        completion_code: MctpCompletionCode::spec_from_code(
                            Field::CompletionCode.spec_extract(word) as u8,
                        ),
                    },
                ),
            },
        }
    }

    /// Whether each field of the header can be encoded.
    pub fn is_valid(self) -> (valid: bool)
        ensures
            valid == self.valid(),
    {
        proof {
            self.lemma_valid_bounds();
        }
        self.integrity_check <= 1 && self.request_bit <= 1 && self.datagram_bit <= 1
            && self.instance_id <= 0x1f && self.completion_code.is_valid()
    }

    /// Decodes a received word. A word is accepted when its message-type bits stand for a
    /// message type and its command bits for a command; every completion byte is accepted.
    /// The header it gives encodes to the word with bit 21 cleared. Any other word is
    /// refused, and the error names the first of the two fields that failed.
    pub fn decode(word: u32) -> (decoded: Result<MctpControlMessageHeader, DecodeError>)
        ensures
            decoded == Self::spec_decode(word),
            decoded matches Ok(header) ==> header.valid() && header.spec_encode() === Ok(
                word & Self::USED_BITS,
            ),
            MctpMessageType::spec_from_code(Field::MessageType.spec_extract(word) as u8) is None
                ==> decoded === Err(
                DecodeError {
                    field: Field::MessageType,
                    raw_bits: Field::MessageType.spec_extract(word),
                },
            ),
    {
        proof {
            Self::lemma_decode_then_encode(word);
        }
        let integrity_check: u8 = Field::IntegrityCheck.extract_u8(word);
        let type_bits: u8 = Field::MessageType.extract_u8(word);
        let message_type = match MctpMessageType::from_code(type_bits) {
            Some(message_type) => message_type,
            None => {
                return Err(Field::MessageType.reject(type_bits as u32));
            },
        };
        let request_bit: u8 = Field::RequestBit.extract_u8(word);
        let datagram_bit: u8 = Field::DatagramBit.extract_u8(word);
        let instance_id: u8 = Field::InstanceId.extract_u8(word);
        let command_bits: u8 = Field::CommandCode.extract_u8(word);
        let command_code = match MctpCommandCode::from_code(command_bits) {
            Some(command_code) => command_code,
            None => {
                return Err(Field::CommandCode.reject(command_bits as u32));
            },
        };
        let completion_code = MctpCompletionCode::from_code(
            Field::CompletionCode.extract_u8(word),
        );
        Ok(
            MctpControlMessageHeader {
                integrity_check,
                message_type,
                request_bit,
                datagram_bit,
                instance_id,
                command_code,
                completion_code,
            },
        )
    }

    /// Encodes the header for sending. A valid header gives its word, in which bit 21 is
    /// zero and which decodes to the same header again; an invalid one is refused with the
    /// first field that cannot be encoded named as the cause.
    pub fn encode(self) -> (encoded: Result<u32, EncodeError>)
        ensures
            encoded == self.spec_encode(),
            encoded is Ok <==> self.valid(),
            encoded matches Ok(word) ==> Self::spec_decode(word) === Ok(self),
    {
        proof {
            if self.valid() {
                self.lemma_encode_then_decode();
            }
        }
        let word: u32 = 0;
        let word: u32 = Field::IntegrityCheck.insert(word, self.integrity_check as u32)?;
        let word: u32 = Field::MessageType.insert(word, self.message_type.code() as u32)?;
        let word: u32 = Field::RequestBit.insert(word, self.request_bit as u32)?;
        let word: u32 = Field::DatagramBit.insert(word, self.datagram_bit as u32)?;
        let word: u32 = Field::InstanceId.insert(word, self.instance_id as u32)?;
        let word: u32 = Field::CommandCode.insert(word, self.command_code.code() as u32)?;
        let completion_bits: u8 = match self.completion_code.code() {
            Some(code) => code,
            None => {
                return Err(EncodeError { field: Field::CompletionCode });
            },
        };
        let word: u32 = Field::CompletionCode.insert(word, completion_bits as u32)?;
        assert(word == self.spec_word()) by {
            let first = Field::IntegrityCheck.spec_place(self.integrity_check as u32);
            assert(0u32 | first == first) by (bit_vector);
        }
        Ok(word)
    }

    /// A header is valid exactly when its three flags are single bits, its instance id takes
    /// no more than five bits and its completion code is valid. Every message type and every
    /// command fits.
    pub proof fn lemma_valid_bounds(self)
        ensures
            self.valid() <==> self.integrity_check <= 1 && self.request_bit <= 1
                && self.datagram_bit <= 1 && self.instance_id <= 0x1f
                && self.completion_code.valid(),
    {
        Field::lemma_limits();
    }

    /// The word of a valid header read as a number: each field times two to the power of its
    /// lowest bit position, added up.
    pub proof fn lemma_word_is_sum(self)
        requires
            self.valid(),
        ensures
            self.spec_word() == self.integrity_check * 0x8000_0000
                + self.message_type.spec_code() * 0x100_0000 + self.request_bit * 0x80_0000
                + self.datagram_bit * 0x40_0000 + self.instance_id * 0x1_0000
                + self.command_code.spec_code() * 0x100 + self.spec_completion_bits(),
    {
        Self::lemma_fields_add_up(
            self.integrity_check as u32,
            self.message_type.spec_code() as u32,
            self.request_bit as u32,
            self.datagram_bit as u32,
            self.instance_id as u32,
            self.command_code.spec_code() as u32,
            self.spec_completion_bits(),
        );
    }

    /// Round trip from a header: a valid header is encoded, and decoding its word gives the
    /// same header back. Bit 21 of the word is zero.
    pub proof fn lemma_encode_then_decode(self)
        requires
            self.valid(),
        ensures
            self.spec_encode() === Ok(self.spec_word()),
            Self::spec_decode(self.spec_word()) === Ok(self),
            self.spec_word() & Self::USED_BITS == self.spec_word(),
    {
        self.message_type.lemma_code_round_trip();
        self.command_code.lemma_code_round_trip();
        self.completion_code.lemma_code_round_trip();
        Self::lemma_fields_read_back(
            self.integrity_check as u32,
            self.message_type.spec_code() as u32,
            self.request_bit as u32,
            self.datagram_bit as u32,
            self.instance_id as u32,
            self.command_code.spec_code() as u32,
            self.spec_completion_bits(),
        );
    }

    /// Round trip from a word: a header that was decoded is valid, and encoding it gives the
    /// word it came from with bit 21 cleared.
    pub proof fn lemma_decode_then_encode(word: u32)
        ensures
            Self::spec_decode(word) matches Ok(header) ==> header.valid()
                && header.spec_encode() === Ok(word & Self::USED_BITS),
    {
        Field::lemma_limits();
        lemma_extract_fits(word, 31, 31);
        lemma_extract_fits(word, 24, 30);
        lemma_extract_fits(word, 23, 23);
        lemma_extract_fits(word, 22, 22);
        lemma_extract_fits(word, 16, 20);
        lemma_extract_fits(word, 8, 15);
        lemma_extract_fits(word, 0, 7);
        MctpMessageType::lemma_from_code_is_inverse(Field::MessageType.spec_extract(word) as u8);
        MctpCommandCode::lemma_from_code_is_inverse(Field::CommandCode.spec_extract(word) as u8);
        MctpCompletionCode::lemma_from_code_is_total(
            Field::CompletionCode.spec_extract(word) as u8,
        );
        Self::lemma_fields_cover_word(word);
    }

    /// Bit 21 has no influence on what a word decodes to.
    pub proof fn lemma_unused_bit_is_ignored(word: u32)
        ensures
            Self::spec_decode(word) == Self::spec_decode(word & Self::USED_BITS),
    {
        Self::lemma_fields_skip_unused(word);
    }

    /// A completion byte without a name is decoded as the command-specific code that carries
    /// it, and encoding the decoded header puts the same byte back.
    pub proof fn lemma_unnamed_completion_is_kept(word: u32)
        requires
            Self::spec_decode(word) is Ok,
            !MctpCompletionCode::spec_is_named(Field::CompletionCode.spec_extract(word) as u8),
        ensures
            ({
                let header = Self::spec_decode(word).unwrap();
                let byte = Field::CompletionCode.spec_extract(word);
                &&& header.completion_code == MctpCompletionCode::CommandSpecific(byte as u8)
                &&& header.spec_encode() === Ok(header.spec_word())
                &&& Field::CompletionCode.spec_extract(header.spec_word()) == byte
            }),
    {
        Self::lemma_decode_then_encode(word);
        Self::lemma_fields_skip_unused(word);
    }

    /// Narrowing to the generic header: the word of a valid control header always decodes as
    /// a generic header. That header has the same integrity-check flag and message type,
    /// holds the lower 24 bits of the word as its rest, and encodes to the very same word.
    pub proof fn lemma_narrowing_is_total(self)
        requires
            self.valid(),
        ensures
            ({
                let generic = MctpMessageHeader {
                    integrity_check: self.integrity_check,
                    message_type: self.message_type,
                    rest: Field::Rest.spec_extract(self.spec_word()),
                };
                &&& MctpMessageHeader::spec_decode(self.spec_word()) === Ok(generic)
                &&& generic.spec_encode() === Ok(self.spec_word())
            }),
    {
        self.lemma_encode_then_decode();
        MctpMessageHeader::lemma_decode_then_encode(self.spec_word());
    }

    proof fn lemma_fields_read_back(
        integrity_check: u32,
        message_type: u32,
        request_bit: u32,
        datagram_bit: u32,
        instance_id: u32,
        command_code: u32,
        completion_code: u32,
    )
        by (bit_vector)
        requires
            fits(integrity_check, 31, 31),
            fits(message_type, 24, 30),
            fits(request_bit, 23, 23),
            fits(datagram_bit, 22, 22),
            fits(instance_id, 16, 20),
            fits(command_code, 8, 15),
            fits(completion_code, 0, 7),
        ensures
            ({
                let word = place_bits(integrity_check, 31) | place_bits(message_type, 24)
                    | place_bits(request_bit, 23) | place_bits(datagram_bit, 22)
                    | place_bits(instance_id, 16) | place_bits(command_code, 8)
                    | place_bits(completion_code, 0);
                &&& extract_bits(word, 31, 31) == integrity_check
                &&& extract_bits(word, 24, 30) == message_type
                &&& extract_bits(word, 23, 23) == request_bit
                &&& extract_bits(word, 22, 22) == datagram_bit
                &&& extract_bits(word, 16, 20) == instance_id
                &&& extract_bits(word, 8, 15) == command_code
                &&& extract_bits(word, 0, 7) == completion_code
                &&& word & 0xffdf_ffff == word
            }),
    {
    }

    proof fn lemma_fields_add_up(
        integrity_check: u32,
        message_type: u32,
        request_bit: u32,
        datagram_bit: u32,
        instance_id: u32,
        command_code: u32,
        completion_code: u32,
    )
        by (bit_vector)
        requires
            fits(integrity_check, 31, 31),
            fits(message_type, 24, 30),
            fits(request_bit, 23, 23),
            fits(datagram_bit, 22, 22),
            fits(instance_id, 16, 20),
            fits(command_code, 8, 15),
            fits(completion_code, 0, 7),
        ensures
            ({
                let word = place_bits(integrity_check, 31) | place_bits(message_type, 24)
                    | place_bits(request_bit, 23) | place_bits(datagram_bit, 22)
                    | place_bits(instance_id, 16) | place_bits(command_code, 8)
                    | place_bits(completion_code, 0);
                word == integrity_check * 0x8000_0000 + message_type * 0x100_0000 + request_bit
                    * 0x80_0000 + datagram_bit * 0x40_0000 + instance_id * 0x1_0000
                    + command_code * 0x100 + completion_code
            }),
    {
    }

    proof fn lemma_fields_cover_word(word: u32)
        by (bit_vector)
        ensures
            ({
                let integrity_check = extract_bits(word, 31, 31);
                let message_type = extract_bits(word, 24, 30);
                let request_bit = extract_bits(word, 23, 23);
                let datagram_bit = extract_bits(word, 22, 22);
                let instance_id = extract_bits(word, 16, 20);
                let command_code = extract_bits(word, 8, 15);
                let completion_code = extract_bits(word, 0, 7);
                place_bits(integrity_check, 31) | place_bits(message_type, 24) | place_bits(
                    request_bit,
                    23,
                ) | place_bits(datagram_bit, 22) | place_bits(instance_id, 16) | place_bits(
                    command_code,
                    8,
                ) | place_bits(completion_code, 0) == word & 0xffdf_ffff
            }),
    {
    }

    proof fn lemma_fields_skip_unused(word: u32)
        by (bit_vector)
        ensures
            ({
                let used = word & 0xffdf_ffff;
                &&& extract_bits(used, 31, 31) == extract_bits(word, 31, 31)
                &&& extract_bits(used, 24, 30) == extract_bits(word, 24, 30)
                &&& extract_bits(used, 23, 23) == extract_bits(word, 23, 23)
                &&& extract_bits(used, 22, 22) == extract_bits(word, 22, 22)
                &&& extract_bits(used, 16, 20) == extract_bits(word, 16, 20)
                &&& extract_bits(used, 8, 15) == extract_bits(word, 8, 15)
                &&& extract_bits(used, 0, 7) == extract_bits(word, 0, 7)
            }),
    {
    }
}

impl MctpMessageHeader {
    /// Narrows a valid control header to the generic header: encodes it and decodes the word
    /// as a generic header. This cannot fail. The fields that only the control header knows
    /// end up, as bits, in the rest of the generic header.
    pub fn from_control(header: MctpControlMessageHeader) -> (generic: MctpMessageHeader)
        requires
            header.valid(),
        ensures
            Self::spec_decode(header.spec_word()) === Ok(generic),
            generic.integrity_check == header.integrity_check,
            generic.message_type == header.message_type,
            generic.rest == Field::Rest.spec_extract(header.spec_word()),
            generic.spec_encode() === Ok(header.spec_word()),
    {
        proof {
            header.lemma_narrowing_is_total();
        }
        let word: u32 = header.encode().unwrap();
        MctpMessageHeader::decode(word).unwrap()
    }
}

impl Default for MctpControlMessageHeader {
    /// The header in which every field is zero.
    fn default() -> (header: MctpControlMessageHeader)
        ensures
            header == (MctpControlMessageHeader {
                integrity_check: 0,
                message_type: MctpMessageType::MctpControl,
                request_bit: 0,
                datagram_bit: 0,
                instance_id: 0,
                command_code: MctpCommandCode::Reserved,
                completion_code: MctpCompletionCode::Success,
            }),
    {
        MctpControlMessageHeader {
            integrity_check: 0,
            message_type: MctpMessageType::default(),
            request_bit: 0,
            datagram_bit: 0,
            instance_id: 0,
            command_code: MctpCommandCode::default(),
            completion_code: MctpCompletionCode::default(),
        }
    }
}

impl TryFrom<u32> for MctpControlMessageHeader {
    type Error = DecodeError;

    /// Decodes a received word, as [`MctpControlMessageHeader::decode`] does.
    fn try_from(word: u32) -> (decoded: Result<MctpControlMessageHeader, DecodeError>)
        ensures
            decoded == MctpControlMessageHeader::spec_decode(word),
    {
        MctpControlMessageHeader::decode(word)
    }
}

impl TryFromSpecImpl<u32> for MctpControlMessageHeader {
    open spec fn obeys_try_from_spec() -> bool {
        true
    }

    open spec fn try_from_spec(word: u32) -> Result<MctpControlMessageHeader, DecodeError> {
        MctpControlMessageHeader::spec_decode(word)
    }
}

impl TryFrom<MctpControlMessageHeader> for u32 {
    type Error = EncodeError;

    /// Encodes a header, as [`MctpControlMessageHeader::encode`] does.
    fn try_from(header: MctpControlMessageHeader) -> (encoded: Result<u32, EncodeError>)
        ensures
            encoded == header.spec_encode(),
    {
        header.encode()
    }
}

impl TryFromSpecImpl<MctpControlMessageHeader> for u32 {
    open spec fn obeys_try_from_spec() -> bool {
        true
    }

    open spec fn try_from_spec(header: MctpControlMessageHeader) -> Result<u32, EncodeError> {
        header.spec_encode()
    }
}

} // verus!
