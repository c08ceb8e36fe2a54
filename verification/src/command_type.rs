//! The type of an application command, as one open enumeration domain.
//!
//! The wire representation is a single unsigned byte inside a larger
//! serialized record; the outer record format is handled elsewhere and only
//! ever hands this module a plain `u8` (and takes one back).

use vstd::prelude::*;

verus! {

/// The type of an application command.
///
/// This is an open enum: codes outside the known set are preserved verbatim
/// in [`CommandType::Unknown`], so decoding never fails and every value
/// re-encodes to the byte it was decoded from, even for codes introduced by
/// the remote side after this library was built.
#[derive(Clone, Copy, Debug, Eq, Hash, PartialEq, Structural)]
pub enum CommandType {
    /// Slash command.
    ///
    /// Text-based command that appears when a user types `/`.
    ChatInput,
    /// UI-based command.
    ///
    /// Appears when a user right clicks or taps on a user.
    User,
    /// UI-based command.
    ///
    /// Appears when a user right clicks or taps on a message.
    Message,
    /// A command type not known to this library, carrying its wire code
    /// verbatim.
    Unknown(u8),
}

/// The wire codes bound to a known variant.
pub open spec fn known_code(c: u8) -> bool {
    c == 1 || c == 2 || c == 3
}

/// Whether a value is one of the known variants rather than the fallback.
pub open spec fn is_known(v: CommandType) -> bool {
    !(v matches CommandType::Unknown(_))
}

/// A well-formed value never hides a known code inside the fallback variant:
/// the fallback is used exactly for codes outside the known set.
pub open spec fn wf(v: CommandType) -> bool {
    v matches CommandType::Unknown(u) ==> !known_code(u)
}

/// The decoding map: the known variant bound to `c` when there is one,
/// otherwise the fallback carrying `c` verbatim. Total over all of `u8`.
pub open spec fn from_code(c: u8) -> CommandType {
    if c == 1 {
        CommandType::ChatInput
    } else if c == 2 {
        CommandType::User
    } else if c == 3 {
        CommandType::Message
    } else {
        CommandType::Unknown(c)
    }
}

/// The encoding map: the code bound to a known variant, or the code the
/// fallback carries. Total over all variants.
pub open spec fn to_code(v: CommandType) -> u8 {
    match v {
        CommandType::ChatInput => 1,
        CommandType::User => 2,
        CommandType::Message => 3,
        CommandType::Unknown(u) => u,
    }
}

/// The diagnostic label of a value: one fixed label per known variant, and
/// one fixed label for the whole fallback category, independent of the code
/// it carries. Labels are for diagnostics only and are no part of the wire
/// contract.
pub open spec fn label(v: CommandType) -> Seq<char> {
    match v {
        CommandType::ChatInput => "ChatInput"@,
        CommandType::User => "User"@,
        CommandType::Message => "Message"@,
        CommandType::Unknown(_) => "Unknown interaction type"@,
    }
}

impl CommandType {
    /// The diagnostic label of this value.
    pub fn kind(self) -> (r: &'static str)
        ensures
            r@ == label(self),
    {
        match self {
            Self::ChatInput => "ChatInput",
            Self::User => "User",
            Self::Message => "Message",
            Self::Unknown(_) => "Unknown interaction type",
        }
    }
}

impl From<u8> for CommandType {
    /// Decode one wire code. Total: an unrecognized code is defined
    /// behaviour, not an error, and lands in the fallback variant.
    fn from(value: u8) -> (r: Self)
        ensures
            r == from_code(value),
            wf(r),
    {
        match value {
            1 => Self::ChatInput,
            2 => Self::User,
            3 => Self::Message,
            unknown => Self::Unknown(unknown),
        }
    }
}

impl vstd::std_specs::convert::FromSpecImpl<u8> for CommandType {
    open spec fn obeys_from_spec() -> bool {
        true
    }

    open spec fn from_spec(v: u8) -> Self {
        from_code(v)
    }
}

impl From<CommandType> for u8 {
    /// Encode one value back to its wire code. Total and exhaustive over all
    /// variants, the fallback included.
    fn from(value: CommandType) -> (r: Self)
        ensures
            r == to_code(value),
    {
        match value {
            CommandType::ChatInput => 1,
            CommandType::User => 2,
            CommandType::Message => 3,
            CommandType::Unknown(unknown) => unknown,
        }
    }
}

impl vstd::std_specs::convert::FromSpecImpl<CommandType> for u8 {
    open spec fn obeys_from_spec() -> bool {
        true
    }

    open spec fn from_spec(v: CommandType) -> Self {
        to_code(v)
    }
}

/// The known mapping is a bijection between known variants and known codes:
/// every known code decodes to a known variant that encodes back to it, and
/// every known variant encodes to a known code that decodes back to it.
pub proof fn lemma_known_bijection()
    ensures
        forall|c: u8| known_code(c) ==> is_known(#[trigger] from_code(c)) && to_code(from_code(c)) == c,
        forall|v: CommandType| is_known(v) ==> known_code(#[trigger] to_code(v)) && from_code(to_code(v)) == v,
{
}

/// A code outside the known set decodes to the fallback variant carrying it
/// verbatim, and the fallback encodes back to exactly the code it carries.
pub proof fn lemma_fallback(c: u8)
    requires
        !known_code(c),
    ensures
        from_code(c) == CommandType::Unknown(c),
        to_code(CommandType::Unknown(c)) == c,
{
}

/// Round trip through the wire: every representable code survives
/// decode-then-encode unchanged, and every well-formed value survives
/// encode-then-decode unchanged.
pub proof fn lemma_round_trip()
    ensures
        forall|c: u8| #[trigger] to_code(from_code(c)) == c,
        forall|v: CommandType| wf(v) ==> #[trigger] from_code(to_code(v)) == v,
{
}

/// Descriptor totality: every value has a non-empty label, the labels of the
/// known variants are pairwise distinct, and every fallback value has the
/// same one fixed label whatever code it carries.
pub proof fn lemma_descriptor_totality()
    ensures
        forall|v: CommandType| (#[trigger] label(v)).len() > 0,
        forall|v: CommandType, w: CommandType| is_known(v) && is_known(w) && v != w ==> label(v) != label(w),
        forall|u: u8, w: u8| #[trigger] label(CommandType::Unknown(u)) == #[trigger] label(CommandType::Unknown(w)),
{
    reveal_strlit("ChatInput");
    reveal_strlit("User");
    reveal_strlit("Message");
    reveal_strlit("Unknown interaction type");
    assert(label(CommandType::ChatInput).len() == 9);
    assert(label(CommandType::User).len() == 4);
    assert(label(CommandType::Message).len() == 7);
}

} // verus!
