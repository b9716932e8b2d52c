//! The message type carried in bits 24 to 30 of every MCTP message header.

use vstd::prelude::*;

verus! {

/// What kind of message follows the header. Each type has one 7-bit code; a code that is not
/// listed here stands for no message type.
#[derive(Clone, Copy, Debug, PartialEq, Eq, Structural)]
pub enum MctpMessageType {
    /// MCTP control messages, code `0x00`.
    MctpControl,
    /// Platform Level Data Model, code `0x01`.
    Pldm,
    /// NC-SI over MCTP, code `0x02`.
    NcSi,
    /// Ethernet over MCTP, code `0x03`.
    Ethernet,
    /// NVM Express management messages, code `0x04`.
    NvmExpressManagement,
    /// Security Protocol and Data Model, code `0x05`.
    Spdm,
    /// Secured messages, code `0x06`.
    SecuredMessages,
    /// CXL fabric manager API, code `0x07`.
    CxlFmApi,
    /// CXL component command interface, code `0x08`.
    CxlCci,
    /// Vendor-defined messages identified by a PCI vendor id, code `0x7E`.
    VendorDefinedPci,
    /// Vendor-defined messages identified by an IANA enterprise number, code `0x7F`.
    VendorDefinedIana,
}

impl MctpMessageType {
    /// The numeric code of the message type.
    pub open spec fn spec_code(self) -> u8 {
        match self {
            MctpMessageType::MctpControl => 0x00,
            MctpMessageType::Pldm => 0x01,
            MctpMessageType::NcSi => 0x02,
            MctpMessageType::Ethernet => 0x03,
            MctpMessageType::NvmExpressManagement => 0x04,
            MctpMessageType::Spdm => 0x05,
            MctpMessageType::SecuredMessages => 0x06,
            MctpMessageType::CxlFmApi => 0x07,
            MctpMessageType::CxlCci => 0x08,
            MctpMessageType::VendorDefinedPci => 0x7E,
            MctpMessageType::VendorDefinedIana => 0x7F,
        }
    }

    /// The message type that `code` stands for, if there is one: the type whose code it is.
    pub open spec fn spec_from_code(code: u8) -> Option<MctpMessageType> {
        if code == 0x00 {
            Some(MctpMessageType::MctpControl)
        } else if code == 0x01 {
            Some(MctpMessageType::Pldm)
        } else if code == 0x02 {
            Some(MctpMessageType::NcSi)
        } else if code == 0x03 {
            Some(MctpMessageType::Ethernet)
        } else if code == 0x04 {
            Some(MctpMessageType::NvmExpressManagement)
        } else if code == 0x05 {
            Some(MctpMessageType::Spdm)
        } else if code == 0x06 {
            Some(MctpMessageType::SecuredMessages)
        } else if code == 0x07 {
            Some(MctpMessageType::CxlFmApi)
        } else if code == 0x08 {
            Some(MctpMessageType::CxlCci)
        } else if code == 0x7E {
            Some(MctpMessageType::VendorDefinedPci)
        } else if code == 0x7F {
            Some(MctpMessageType::VendorDefinedIana)
        } else {
            None
        }
    }

    /// The numeric code of the message type.
    #[verifier::when_used_as_spec(spec_code)]
    pub fn code(self) -> (code: u8)
        ensures
            code == self.spec_code(),
            code <= 0x7F,
    {
        match self {
            MctpMessageType::MctpControl => 0x00,
            MctpMessageType::Pldm => 0x01,
            MctpMessageType::NcSi => 0x02,
            MctpMessageType::Ethernet => 0x03,
            MctpMessageType::NvmExpressManagement => 0x04,
            MctpMessageType::Spdm => 0x05,
            MctpMessageType::SecuredMessages => 0x06,
            MctpMessageType::CxlFmApi => 0x07,
            MctpMessageType::CxlCci => 0x08,
            MctpMessageType::VendorDefinedPci => 0x7E,
            MctpMessageType::VendorDefinedIana => 0x7F,
        }
    }

    /// Finds the message type with the given code. `None` for a code that no type has.
    pub fn from_code(code: u8) -> (found: Option<MctpMessageType>)
        ensures
            found == Self::spec_from_code(code),
            found matches Some(message_type) ==> message_type.spec_code() == code,
            found is None <==> (0x08 < code && code < 0x7E) || 0x7F < code,
    {
        match code {
            0x00 => Some(MctpMessageType::MctpControl),
            0x01 => Some(MctpMessageType::Pldm),
            0x02 => Some(MctpMessageType::NcSi),
            0x03 => Some(MctpMessageType::Ethernet),
            0x04 => Some(MctpMessageType::NvmExpressManagement),
            0x05 => Some(MctpMessageType::Spdm),
            0x06 => Some(MctpMessageType::SecuredMessages),
            0x07 => Some(MctpMessageType::CxlFmApi),
            0x08 => Some(MctpMessageType::CxlCci),
            0x7E => Some(MctpMessageType::VendorDefinedPci),
            0x7F => Some(MctpMessageType::VendorDefinedIana),
            _ => None,
        }
    }

    /// A message type is found again from its code, and every code fits in seven bits.
    pub proof fn lemma_code_round_trip(self)
        ensures
            Self::spec_from_code(self.spec_code()) == Some(self),
            self.spec_code() <= 0x7F,
    {
    }

    /// A code that stands for a message type is the code of that type and of no other.
    pub proof fn lemma_from_code_is_inverse(code: u8)
        ensures
            Self::spec_from_code(code) matches Some(message_type) ==> message_type.spec_code()
                == code,
            Self::spec_from_code(code) is None ==> forall|message_type: MctpMessageType|
                message_type.spec_code() != code,
    {
    }
}

impl Default for MctpMessageType {
    /// The type with code zero.
    fn default() -> (message_type: MctpMessageType)
        ensures
            message_type == MctpMessageType::MctpControl,
    {
        MctpMessageType::MctpControl
    }
}

} // verus!
