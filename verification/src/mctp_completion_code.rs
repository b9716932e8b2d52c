//! The completion code carried in bits 0 to 7 of an MCTP control message header.

use vstd::prelude::*;

verus! {

/// How a control command ended. Six codes have a name; every other byte is a code whose
/// meaning the command defines, and is kept as it is.
#[derive(Clone, Copy, Debug, PartialEq, Eq, Structural)]
pub enum MctpCompletionCode {
    /// Code `0x00`.
    Success,
    /// Code `0x01`.
    Error,
    /// Code `0x02`.
    ErrorInvalidData,
    /// Code `0x03`.
    ErrorInvalidLength,
    /// Code `0x04`.
    ErrorNotReady,
    /// Code `0x05`.
    ErrorUnsupportedCmd,
    /// A code outside the named ones, carried as a number.
    CommandSpecific(u8),
}

impl MctpCompletionCode {
    /// The highest code that has a name. The codes from zero up to this one are all named.
    pub const LAST_NAMED_CODE: u8 = 0x05;

    /// Whether `code` is the code of one of the named variants.
    pub open spec fn spec_is_named(code: u8) -> bool {
        code <= Self::LAST_NAMED_CODE
    }

    /// A completion code is valid unless it is `CommandSpecific` with a number that belongs
    /// to a named variant.
    pub open spec fn valid(self) -> bool {
        match self {
            MctpCompletionCode::CommandSpecific(code) => !Self::spec_is_named(code),
            _ => true,
        }
    }

    /// The numeric code of a valid completion code; an invalid one has none.
    pub open spec fn spec_code(self) -> Option<u8> {
        match self {
            MctpCompletionCode::Success => Some(0x00),
            MctpCompletionCode::Error => Some(0x01),
            MctpCompletionCode::ErrorInvalidData => Some(0x02),
            MctpCompletionCode::ErrorInvalidLength => Some(0x03),
            MctpCompletionCode::ErrorNotReady => Some(0x04),
            MctpCompletionCode::ErrorUnsupportedCmd => Some(0x05),
            MctpCompletionCode::CommandSpecific(code) => if Self::spec_is_named(code) {
                None
            } else {
                Some(code)
            },
        }
    }

    /// The completion code that `code` stands for: the named variant with that code, or
    /// `CommandSpecific` with the code itself where there is none.
    pub open spec fn spec_from_code(code: u8) -> MctpCompletionCode {
        if code == 0x00 {
            MctpCompletionCode::Success
        } else if code == 0x01 {
            MctpCompletionCode::Error
        } else if code == 0x02 {
            MctpCompletionCode::ErrorInvalidData
        } else if code == 0x03 {
            MctpCompletionCode::ErrorInvalidLength
        } else if code == 0x04 {
            MctpCompletionCode::ErrorNotReady
        } else if code == 0x05 {
            MctpCompletionCode::ErrorUnsupportedCmd
        } else {
            MctpCompletionCode::CommandSpecific(code)
        }
    }

    /// Whether `code` is the code of one of the named variants.
    #[verifier::when_used_as_spec(spec_is_named)]
    pub fn is_named(code: u8) -> (named: bool)
        ensures
            named == Self::spec_is_named(code),
    {
        code <= Self::LAST_NAMED_CODE
    }

    /// Whether the completion code is valid.
    pub fn is_valid(self) -> (valid: bool)
        ensures
            valid == self.valid(),
    {
        match self {
            MctpCompletionCode::CommandSpecific(code) => !Self::is_named(code),
            _ => true,
        }
    }

    /// Makes the command-specific completion code with the given number. A number that
    /// belongs to a named variant is refused.
    pub fn command_specific(code: u8) -> (made: Option<MctpCompletionCode>)
        ensures
            made == (if Self::spec_is_named(code) {
                None
            } else {
                Some(MctpCompletionCode::CommandSpecific(code))
            }),
            made matches Some(completion) ==> completion.valid(),
    {
        if Self::is_named(code) {
            None
        } else {
            Some(MctpCompletionCode::CommandSpecific(code))
        }
    }

    /// The numeric code of the completion code. `None` exactly when it is not valid.
    pub fn code(self) -> (code: Option<u8>)
        ensures
            code == self.spec_code(),
            code is Some <==> self.valid(),
    {
        match self {
            MctpCompletionCode::Success => Some(0x00),
            MctpCompletionCode::Error => Some(0x01),
            MctpCompletionCode::ErrorInvalidData => Some(0x02),
            MctpCompletionCode::ErrorInvalidLength => Some(0x03),
            MctpCompletionCode::ErrorNotReady => Some(0x04),
            MctpCompletionCode::ErrorUnsupportedCmd => Some(0x05),
            MctpCompletionCode::CommandSpecific(code) => if Self::is_named(code) {
                None
            } else {
                Some(code)
            },
        }
    }

    /// Finds the completion code that `code` stands for. Every byte stands for one: a byte
    /// without a name comes back as `CommandSpecific` with that byte.
    pub fn from_code(code: u8) -> (completion: MctpCompletionCode)
        ensures
            completion == Self::spec_from_code(code),
            completion.valid(),
            completion.spec_code() == Some(code),
            !Self::spec_is_named(code) ==> completion == MctpCompletionCode::CommandSpecific(
                code,
            ),
    {
        match code {
            0x00 => MctpCompletionCode::Success,
            0x01 => MctpCompletionCode::Error,
            0x02 => MctpCompletionCode::ErrorInvalidData,
            0x03 => MctpCompletionCode::ErrorInvalidLength,
            0x04 => MctpCompletionCode::ErrorNotReady,
            0x05 => MctpCompletionCode::ErrorUnsupportedCmd,
            _ => MctpCompletionCode::CommandSpecific(code),
        }
    }

    /// A valid completion code is found again from its code.
    pub proof fn lemma_code_round_trip(self)
        requires
            self.valid(),
        ensures
            self.spec_code() is Some,
            Self::spec_from_code(self.spec_code()->Some_0) == self,
    {
    }

    /// Every byte stands for a valid completion code whose code is that byte, and a byte
    /// without a name stands for the command-specific code that carries it.
    pub proof fn lemma_from_code_is_total(code: u8)
        ensures
            Self::spec_from_code(code).valid(),
            Self::spec_from_code(code).spec_code() == Some(code),
            !Self::spec_is_named(code) ==> Self::spec_from_code(code)
                == MctpCompletionCode::CommandSpecific(code),
    {
    }
}

impl Default for MctpCompletionCode {
    /// The code of success, which is zero.
    fn default() -> (completion: MctpCompletionCode)
        ensures
            completion == MctpCompletionCode::Success,
    {
        MctpCompletionCode::Success
    }
}

} // verus!
