//! The failures that a decode can report.
use crate::wire_type::WireTypeError;
use vstd::prelude::*;
use vstd::std_specs::convert::FromSpecImpl;

verus! {

/// Why a decode produced no value.
#[derive(Debug, PartialEq, Eq, Structural)]
pub enum ProtobufZeroError {
    /// The three low bits of a tag name no supported wire type.
    InvalidWireType,
    /// Nothing was left to read. No decoder of this crate returns it: to them no bytes
    /// are too few bytes, a `ShortBuffer`.
    EmptyBuffer,
    /// The bytes ran out before the value was complete.
    ShortBuffer,
    /// A decoded varint does not fit the integer type that was asked for, or the field
    /// number of a tag does not fit its 32 bits.
    ConversionU128Error,
}

impl ProtobufZeroError {
    /// The text that describes this failure to a reader.
    pub open spec fn message_text(self) -> Seq<char> {
        match self {
            ProtobufZeroError::InvalidWireType => "Failed to parse WireType from protobuf"@,
            ProtobufZeroError::EmptyBuffer => "Can not read beyond end of buffer"@,
            ProtobufZeroError::ShortBuffer => "Expected more bytes but the buffer was too short"@,
            ProtobufZeroError::ConversionU128Error => "Converting u128 to another type failed"@,
        }
    }

    /// Describes this failure in one sentence.
    pub fn message(&self) -> (text: &'static str)
        ensures
            text@ == self.message_text(),
    {
        match self {
            ProtobufZeroError::InvalidWireType => "Failed to parse WireType from protobuf",
            ProtobufZeroError::EmptyBuffer => "Can not read beyond end of buffer",
            ProtobufZeroError::ShortBuffer => "Expected more bytes but the buffer was too short",
            ProtobufZeroError::ConversionU128Error => "Converting u128 to another type failed",
        }
    }
}

/// A rejected wire type code, deprecated or unknown, is an invalid wire type to a decoder.
impl From<WireTypeError> for ProtobufZeroError {
    fn from(error: WireTypeError) -> (result: Self)
        ensures
            result == ProtobufZeroError::InvalidWireType,
    {
        ProtobufZeroError::InvalidWireType
    }
}

impl FromSpecImpl<WireTypeError> for ProtobufZeroError {
    open spec fn obeys_from_spec() -> bool {
        true
    }

    open spec fn from_spec(error: WireTypeError) -> Self {
        ProtobufZeroError::InvalidWireType
    }
}

} // verus!
