//! Bit-exact codec for the 32-bit headers of MCTP messages.
//!
//! A header is one 32-bit word. Decoding turns a received word into a record of named fields
//! and refuses a word in which a field holds no value of its type; encoding turns a record
//! back into its word and refuses a record in which a field does not fit its bits. The
//! contracts state both directions exactly, and the proof functions of each header state
//! that the two undo each other.

pub mod bit_field;
pub mod field;
pub mod mctp_command_code;
pub mod mctp_completion_code;
pub mod mctp_message_type;
pub mod message_header;

pub use field::{DecodeError, EncodeError, Field};
pub use mctp_command_code::MctpCommandCode;
pub use mctp_completion_code::MctpCompletionCode;
pub use mctp_message_type::MctpMessageType;
pub use message_header::mctp_control_message_header::MctpControlMessageHeader;
pub use message_header::mctp_vendor_defined_pci_message_header::MctpVendorDefinedPciMessageHeader;
pub use message_header::MctpMessageHeader;
