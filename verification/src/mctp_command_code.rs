//! The command code carried in bits 8 to 15 of an MCTP control message header.

use vstd::prelude::*;

verus! {

/// The command of an MCTP control message. Each command has one 8-bit code; a code that is
/// not listed here stands for no command.
#[derive(Clone, Copy, Debug, PartialEq, Eq, Structural)]
pub enum MctpCommandCode {
    /// Code `0x00`.
    Reserved,
    /// Code `0x01`.
    SetEndpointId,
    /// Code `0x02`.
    GetEndpointId,
    /// Code `0x03`.
    GetEndpointUuid,
    /// Code `0x04`.
    GetMctpVersionSupport,
    /// Code `0x05`.
    GetMessageTypeSupport,
    /// Code `0x06`.
    GetVendorDefinedMessageSupport,
    /// Code `0x07`.
    ResolveEndpointId,
    /// Code `0x08`.
    AllocateEndpointIds,
    /// Code `0x09`.
    RoutingInformationUpdate,
    /// Code `0x0A`.
    GetRoutingTableEntries,
    /// Code `0x0B`.
    PrepareForEndpointDiscovery,
    /// Code `0x0C`.
    EndpointDiscovery,
    /// Code `0x0D`.
    DiscoveryNotify,
    /// Code `0x0E`.
    GetNetworkId,
    /// Code `0x0F`.
    QueryHop,
    /// Code `0x10`.
    ResolveUuid,
    /// Code `0x11`.
    QueryRateLimit,
    /// Code `0x12`.
    RequestTxRateLimit,
    /// Code `0x13`.
    UpdateRateLimit,
    /// Code `0x14`.
    QuerySupportedInterfaces,
}

impl MctpCommandCode {
    /// The highest code that stands for a command. The codes from zero up to this one are
    /// all in use.
    pub const LAST_CODE: u8 = 0x14;

    /// The numeric code of the command.
    pub open spec fn spec_code(self) -> u8 {
        match self {
            MctpCommandCode::Reserved => 0x00,
            MctpCommandCode::SetEndpointId => 0x01,
            MctpCommandCode::GetEndpointId => 0x02,
            MctpCommandCode::GetEndpointUuid => 0x03,
            MctpCommandCode::GetMctpVersionSupport => 0x04,
            MctpCommandCode::GetMessageTypeSupport => 0x05,
            MctpCommandCode::GetVendorDefinedMessageSupport => 0x06,
            MctpCommandCode::ResolveEndpointId => 0x07,
            MctpCommandCode::AllocateEndpointIds => 0x08,
            MctpCommandCode::RoutingInformationUpdate => 0x09,
            MctpCommandCode::GetRoutingTableEntries => 0x0A,
            MctpCommandCode::PrepareForEndpointDiscovery => 0x0B,
            MctpCommandCode::EndpointDiscovery => 0x0C,
            MctpCommandCode::DiscoveryNotify => 0x0D,
            MctpCommandCode::GetNetworkId => 0x0E,
            MctpCommandCode::QueryHop => 0x0F,
            MctpCommandCode::ResolveUuid => 0x10,
            MctpCommandCode::QueryRateLimit => 0x11,
            MctpCommandCode::RequestTxRateLimit => 0x12,
            MctpCommandCode::UpdateRateLimit => 0x13,
            MctpCommandCode::QuerySupportedInterfaces => 0x14,
        }
    }

    /// The command that `code` stands for, if there is one: the command whose code it is.
    pub open spec fn spec_from_code(code: u8) -> Option<MctpCommandCode> {
        if code == 0x00 {
            Some(MctpCommandCode::Reserved)
        } else if code == 0x01 {
            Some(MctpCommandCode::SetEndpointId)
        } else if code == 0x02 {
            Some(MctpCommandCode::GetEndpointId)
        } else if code == 0x03 {
            Some(MctpCommandCode::GetEndpointUuid)
        } else if code == 0x04 {
            Some(MctpCommandCode::GetMctpVersionSupport)
        } else if code == 0x05 {
            Some(MctpCommandCode::GetMessageTypeSupport)
        } else if code == 0x06 {
            Some(MctpCommandCode::GetVendorDefinedMessageSupport)
        } else if code == 0x07 {
            Some(MctpCommandCode::ResolveEndpointId)
        } else if code == 0x08 {
            Some(MctpCommandCode::AllocateEndpointIds)
        } else if code == 0x09 {
            Some(MctpCommandCode::RoutingInformationUpdate)
        } else if code == 0x0A {
            Some(MctpCommandCode::GetRoutingTableEntries)
        } else if code == 0x0B {
            Some(MctpCommandCode::PrepareForEndpointDiscovery)
        } else if code == 0x0C {
            Some(MctpCommandCode::EndpointDiscovery)
        } else if code == 0x0D {
            Some(MctpCommandCode::DiscoveryNotify)
        } else if code == 0x0E {
            Some(MctpCommandCode::GetNetworkId)
        } else if code == 0x0F {
            Some(MctpCommandCode::QueryHop)
        } else if code == 0x10 {
            Some(MctpCommandCode::ResolveUuid)
        } else if code == 0x11 {
            Some(MctpCommandCode::QueryRateLimit)
        } else if code == 0x12 {
            Some(MctpCommandCode::RequestTxRateLimit)
        } else if code == 0x13 {
            Some(MctpCommandCode::UpdateRateLimit)
        } else if code == 0x14 {
            Some(MctpCommandCode::QuerySupportedInterfaces)
        } else {
            None
        }
    }

    /// The numeric code of the command.
    #[verifier::when_used_as_spec(spec_code)]
    pub fn code(self) -> (code: u8)
        ensures
            code == self.spec_code(),
            code <= Self::LAST_CODE,
    {
        match self {
            MctpCommandCode::Reserved => 0x00,
            MctpCommandCode::SetEndpointId => 0x01,
            MctpCommandCode::GetEndpointId => 0x02,
            MctpCommandCode::GetEndpointUuid => 0x03,
            MctpCommandCode::GetMctpVersionSupport => 0x04,
            MctpCommandCode::GetMessageTypeSupport => 0x05,
            MctpCommandCode::GetVendorDefinedMessageSupport => 0x06,
            MctpCommandCode::ResolveEndpointId => 0x07,
            MctpCommandCode::AllocateEndpointIds => 0x08,
            MctpCommandCode::RoutingInformationUpdate => 0x09,
            MctpCommandCode::GetRoutingTableEntries => 0x0A,
            MctpCommandCode::PrepareForEndpointDiscovery => 0x0B,
            MctpCommandCode::EndpointDiscovery => 0x0C,
            MctpCommandCode::DiscoveryNotify => 0x0D,
            MctpCommandCode::GetNetworkId => 0x0E,
            MctpCommandCode::QueryHop => 0x0F,
            MctpCommandCode::ResolveUuid => 0x10,
            MctpCommandCode::QueryRateLimit => 0x11,
            MctpCommandCode::RequestTxRateLimit => 0x12,
            MctpCommandCode::UpdateRateLimit => 0x13,
            MctpCommandCode::QuerySupportedInterfaces => 0x14,
        }
    }

    /// Finds the command with the given code. `None` for a code that no command has.
    pub fn from_code(code: u8) -> (found: Option<MctpCommandCode>)
        ensures
            found == Self::spec_from_code(code),
            found matches Some(command) ==> command.spec_code() == code,
            found is None <==> code > Self::LAST_CODE,
    {
        match code {
            0x00 => Some(MctpCommandCode::Reserved),
            0x01 => Some(MctpCommandCode::SetEndpointId),
            0x02 => Some(MctpCommandCode::GetEndpointId),
            0x03 => Some(MctpCommandCode::GetEndpointUuid),
            0x04 => Some(MctpCommandCode::GetMctpVersionSupport),
            0x05 => Some(MctpCommandCode::GetMessageTypeSupport),
            0x06 => Some(MctpCommandCode::GetVendorDefinedMessageSupport),
            0x07 => Some(MctpCommandCode::ResolveEndpointId),
            0x08 => Some(MctpCommandCode::AllocateEndpointIds),
            0x09 => Some(MctpCommandCode::RoutingInformationUpdate),
            0x0A => Some(MctpCommandCode::GetRoutingTableEntries),
            0x0B => Some(MctpCommandCode::PrepareForEndpointDiscovery),
            0x0C => Some(MctpCommandCode::EndpointDiscovery),
            0x0D => Some(MctpCommandCode::DiscoveryNotify),
            0x0E => Some(MctpCommandCode::GetNetworkId),
            0x0F => Some(MctpCommandCode::QueryHop),
            0x10 => Some(MctpCommandCode::ResolveUuid),
            0x11 => Some(MctpCommandCode::QueryRateLimit),
            0x12 => Some(MctpCommandCode::RequestTxRateLimit),
            0x13 => Some(MctpCommandCode::UpdateRateLimit),
            0x14 => Some(MctpCommandCode::QuerySupportedInterfaces),
            _ => None,
        }
    }

    /// A command is found again from its code.
    pub proof fn lemma_code_round_trip(self)
        ensures
            Self::spec_from_code(self.spec_code()) == Some(self),
            self.spec_code() <= Self::LAST_CODE,
    {
    }

    /// A code that stands for a command is the code of that command and of no other.
    pub proof fn lemma_from_code_is_inverse(code: u8)
        ensures
            Self::spec_from_code(code) matches Some(command) ==> command.spec_code() == code,
            Self::spec_from_code(code) is None ==> forall|command: MctpCommandCode|
                command.spec_code() != code,
    {
    }
}

impl Default for MctpCommandCode {
    /// The command with code zero.
    fn default() -> (command: MctpCommandCode)
        ensures
            command == MctpCommandCode::Reserved,
    {
        MctpCommandCode::Reserved
    }
}

} // verus!
