//! The kind of chat room a chat account identifies.

use vstd::prelude::*;

use crate::layout::chat_type_bits;
use crate::steam_id::SteamId;

verus! {

/// Defines the type of chat an [`crate::AccountType::Chat`] account can be.
///
/// Each variant maps to a distinct bit-flag value stored in the top 8 bits
/// of the instance field.
#[derive(Debug, Clone, Copy, PartialEq, Eq, PartialOrd, Ord, Hash)]
pub enum ChatType {
    /// Default for all non-chat account types.
    Unset,
    MatchMakingLobby,
    Lobby,
    /// Default for chat account types.
    ClanChat,
}

/// The bit-flag value of a chat type.
pub open spec fn spec_chat_type_number(c: ChatType) -> u8 {
    match c {
        ChatType::Unset => 0,
        ChatType::MatchMakingLobby => 1,
        ChatType::Lobby => 2,
        ChatType::ClanChat => 4,
    }
}

/// The chat type a numeric value decodes to: only the four flag values
/// round-trip; every other value decodes to `Unset`.
pub open spec fn spec_chat_type_from_number(v: u8) -> ChatType {
    if v == 1 {
        ChatType::MatchMakingLobby
    } else if v == 2 {
        ChatType::Lobby
    } else if v == 4 {
        ChatType::ClanChat
    } else {
        ChatType::Unset
    }
}

impl ChatType {
    /// Decodes a numeric chat type value.
    ///
    /// This conversion is lossy by design: values other than the four
    /// declared flags map to [`ChatType::Unset`].
    pub fn from_numeric(v: u8) -> (r: ChatType)
        ensures
            r == spec_chat_type_from_number(v),
    {
        match v {
            1 => ChatType::MatchMakingLobby,
            2 => ChatType::Lobby,
            4 => ChatType::ClanChat,
            _ => ChatType::Unset,
        }
    }

    /// The bit-flag value of this chat type.
    pub fn to_numeric(self) -> (r: u8)
        ensures
            r == spec_chat_type_number(self),
    {
        match self {
            ChatType::Unset => 0,
            ChatType::MatchMakingLobby => 1,
            ChatType::Lobby => 2,
            ChatType::ClanChat => 4,
        }
    }

    /// Extracts the chat type stored in the top 8 bits of a packed id's
    /// instance field.
    pub fn from_packed_identifier(steamid: &SteamId) -> (r: ChatType)
        ensures
            r == spec_chat_type_from_number(chat_type_bits(steamid.id) as u8),
    {
        let bits = (steamid.id & crate::layout::MASK_CHAT_TYPE) >> crate::layout::SHIFT_CHAT_TYPE;
        proof {
            let id = steamid.id;
            assert((id & crate::layout::MASK_CHAT_TYPE) >> crate::layout::SHIFT_CHAT_TYPE <= 0xFF)
                by (bit_vector);
        }
        ChatType::from_numeric(bits as u8)
    }
}

impl Default for ChatType {
    /// The default chat type is `Unset`.
    fn default() -> (r: Self)
        ensures
            r == ChatType::Unset,
    {
        ChatType::Unset
    }
}

/// Encoding a chat type is lossless: every declared variant's flag value
/// decodes back to the same chat type.
pub proof fn lemma_chat_type_round_trip(c: ChatType)
    ensures
        spec_chat_type_from_number(spec_chat_type_number(c)) == c,
{
}

} // verus!
