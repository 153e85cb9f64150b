//! The wire types that a tag can announce, and the codes that stand for them.
use vstd::prelude::*;
use vstd::std_specs::convert::TryFromSpecImpl;

verus! {

/// How the value that follows a tag is laid out on the wire. The code of a wire type is
/// what `code` returns, not its place in this list.
#[derive(Eq, PartialEq, Copy, Clone, Debug, Structural)]
pub enum WireType {
    /// A varint, code 0.
    VarInt,
    /// Eight bytes, least significant first, code 1.
    Fixed64,
    /// A varint length and that many bytes, code 2.
    LengthDelimited,
    /// Four bytes, least significant first, code 5.
    Fixed32,
}

/// Why a code is no wire type.
#[derive(Debug, Eq, PartialEq, Copy, Clone, Structural)]
pub enum WireTypeError {
    /// The code was never assigned.
    Unknown(u8),
    /// The code once marked the start or the end of a group.
    Deprecated(u8),
}

impl WireType {
    /// The code that stands for this wire type in the three low bits of a tag.
    pub open spec fn spec_code(self) -> u8 {
        match self {
            WireType::VarInt => 0,
            WireType::Fixed64 => 1,
            WireType::LengthDelimited => 2,
            WireType::Fixed32 => 5,
        }
    }

    /// The code that stands for this wire type in the three low bits of a tag.
    #[verifier::when_used_as_spec(spec_code)]
    pub fn code(self) -> (code: u8)
        ensures
            code == self.spec_code(),
    {
        match self {
            WireType::VarInt => 0,
            WireType::Fixed64 => 1,
            WireType::LengthDelimited => 2,
            WireType::Fixed32 => 5,
        }
    }
}

/// The wire type that `code` stands for, or the reason why it stands for none.
pub open spec fn wire_type_of(code: u8) -> Result<WireType, WireTypeError> {
    if code == 0 {
        Ok(WireType::VarInt)
    } else if code == 1 {
        Ok(WireType::Fixed64)
    } else if code == 2 {
        Ok(WireType::LengthDelimited)
    } else if code == 5 {
        Ok(WireType::Fixed32)
    } else if code == 3 || code == 4 {
        Err(WireTypeError::Deprecated(code))
    } else {
        Err(WireTypeError::Unknown(code))
    }
}

impl TryFrom<u8> for WireType {
    type Error = WireTypeError;

    /// The wire type that `value` stands for, or the reason why it stands for none.
    fn try_from(value: u8) -> (result: Result<Self, WireTypeError>)
        ensures
            result == wire_type_of(value),
    {
        match value {
            0 => Ok(WireType::VarInt),
            1 => Ok(WireType::Fixed64),
            2 => Ok(WireType::LengthDelimited),
            5 => Ok(WireType::Fixed32),
            3 | 4 => Err(WireTypeError::Deprecated(value)),
            _ => Err(WireTypeError::Unknown(value)),
        }
    }
}

impl TryFromSpecImpl<u8> for WireType {
    open spec fn obeys_try_from_spec() -> bool {
        true
    }

    open spec fn try_from_spec(value: u8) -> Result<Self, WireTypeError> {
        wire_type_of(value)
    }
}

/// Every wire type is found again from its code, and a code names at most one wire type.
pub proof fn lemma_code_round_trip(wire_type: WireType, code: u8)
    ensures
        wire_type_of(wire_type.spec_code()) == Ok::<WireType, WireTypeError>(wire_type),
        wire_type_of(code) == Ok::<WireType, WireTypeError>(wire_type) <==> code
            == wire_type.spec_code(),
{
}

} // verus!
