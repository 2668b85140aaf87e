//! The role an account is used for.

use vstd::prelude::*;

use crate::chat_type::ChatType;
use crate::chat_type::spec_chat_type_from_number;
use crate::layout::account_type_bits;
use crate::layout::chat_type_bits;
use crate::steam_id::SteamId;

verus! {

/// Defines the role a SteamId is used for.
#[derive(Debug, Clone, Copy, PartialEq, Eq, PartialOrd, Ord, Hash)]
pub enum AccountType {
    Invalid,
    /// Normal Steam accounts are usually this.
    Individual,
    Multiseat,
    /// Servers registered with a 'Game Server Login Token'.
    GameServer,
    AnonGameServer,
    Pending,
    ContentServer,
    /// Steam groups.
    Clan,
    Chat(ChatType),
    /// AKA `P2P SuperSeeder`.
    ConsoleUser,
    AnonUser,
}

/// The numeric value of an account type.  The chat payload is not part of
/// the value: it lives in the instance field instead.
pub open spec fn spec_account_type_number(a: AccountType) -> u8 {
    match a {
        AccountType::Invalid => 0,
        AccountType::Individual => 1,
        AccountType::Multiseat => 2,
        AccountType::GameServer => 3,
        AccountType::AnonGameServer => 4,
        AccountType::Pending => 5,
        AccountType::ContentServer => 6,
        AccountType::Clan => 7,
        AccountType::Chat(_) => 8,
        AccountType::ConsoleUser => 9,
        AccountType::AnonUser => 10,
    }
}

/// The account type a numeric value decodes to: unrecognized values map to
/// `Invalid`, and a chat account decodes with the `ClanChat` default.
pub open spec fn spec_account_type_from_number(v: u8) -> AccountType {
    if v == 0 {
        AccountType::Invalid
    } else if v == 1 {
        AccountType::Individual
    } else if v == 2 {
        AccountType::Multiseat
    } else if v == 3 {
        AccountType::GameServer
    } else if v == 4 {
        AccountType::AnonGameServer
    } else if v == 5 {
        AccountType::Pending
    } else if v == 6 {
        AccountType::ContentServer
    } else if v == 7 {
        AccountType::Clan
    } else if v == 8 {
        AccountType::Chat(ChatType::ClanChat)
    } else if v == 9 {
        AccountType::ConsoleUser
    } else if v == 10 {
        AccountType::AnonUser
    } else {
        AccountType::Invalid
    }
}

/// The display character of an account type.  `ConsoleUser` has no
/// character of its own and renders as `Invalid`'s `I`; the three chat
/// kinds have one each, with `Unset` sharing `ClanChat`'s `c`.
pub open spec fn spec_account_type_char(a: AccountType) -> char {
    match a {
        AccountType::Invalid => 'I',
        AccountType::Individual => 'U',
        AccountType::Multiseat => 'M',
        AccountType::GameServer => 'G',
        AccountType::AnonGameServer => 'A',
        AccountType::Pending => 'P',
        AccountType::ContentServer => 'C',
        AccountType::Clan => 'g',
        AccountType::Chat(v) => match v {
            ChatType::MatchMakingLobby => 'T',
            ChatType::Lobby => 'L',
            ChatType::ClanChat => 'c',
            ChatType::Unset => 'c',
        },
        AccountType::ConsoleUser => 'I',
        AccountType::AnonUser => 'a',
    }
}

/// The account type a display character decodes to: unrecognized
/// characters map to `Invalid`.
pub open spec fn spec_account_type_from_char(c: char) -> AccountType {
    if c == 'I' {
        AccountType::Invalid
    } else if c == 'U' {
        AccountType::Individual
    } else if c == 'M' {
        AccountType::Multiseat
    } else if c == 'G' {
        AccountType::GameServer
    } else if c == 'A' {
        AccountType::AnonGameServer
    } else if c == 'P' {
        AccountType::Pending
    } else if c == 'C' {
        AccountType::ContentServer
    } else if c == 'g' {
        AccountType::Clan
    } else if c == 'L' {
        AccountType::Chat(ChatType::Lobby)
    } else if c == 'T' {
        AccountType::Chat(ChatType::MatchMakingLobby)
    } else if c == 'c' {
        AccountType::Chat(ChatType::ClanChat)
    } else if c == 'a' {
        AccountType::AnonUser
    } else {
        AccountType::Invalid
    }
}

/// The account type carried by a packed id: the 4-bit type field, and for
/// chat accounts the chat type read from the instance field's top bits.
pub open spec fn spec_account_type_of_id(id: u64) -> AccountType {
    let decoded = spec_account_type_from_number(account_type_bits(id) as u8);
    match decoded {
        AccountType::Chat(_) => AccountType::Chat(
            spec_chat_type_from_number(chat_type_bits(id) as u8),
        ),
        _ => decoded,
    }
}

impl AccountType {
    /// Decodes a numeric account type value.
    ///
    /// Unrecognized values map to [`AccountType::Invalid`]; a chat account
    /// decodes with the [`ChatType::ClanChat`] default.
    pub fn from_numeric(v: u8) -> (r: AccountType)
        ensures
            r == spec_account_type_from_number(v),
    {
        match v {
            0 => AccountType::Invalid,
            1 => AccountType::Individual,
            2 => AccountType::Multiseat,
            3 => AccountType::GameServer,
            4 => AccountType::AnonGameServer,
            5 => AccountType::Pending,
            6 => AccountType::ContentServer,
            7 => AccountType::Clan,
            8 => AccountType::Chat(ChatType::ClanChat),
            9 => AccountType::ConsoleUser,
            10 => AccountType::AnonUser,
            _ => AccountType::Invalid,
        }
    }

    /// The numeric value of this account type, as stored in the 4-bit type
    /// field.
    pub fn to_numeric(self) -> (r: u8)
        ensures
            r == spec_account_type_number(self),
    {
        match self {
            AccountType::Invalid => 0,
            AccountType::Individual => 1,
            AccountType::Multiseat => 2,
            AccountType::GameServer => 3,
            AccountType::AnonGameServer => 4,
            AccountType::Pending => 5,
            AccountType::ContentServer => 6,
            AccountType::Clan => 7,
            AccountType::Chat(_) => 8,
            AccountType::ConsoleUser => 9,
            AccountType::AnonUser => 10,
        }
    }

    /// Decodes a display character; unrecognized characters map to
    /// [`AccountType::Invalid`].
    pub fn from_char(c: char) -> (r: AccountType)
        ensures
            r == spec_account_type_from_char(c),
    {
        match c {
            'I' => AccountType::Invalid,
            'U' => AccountType::Individual,
            'M' => AccountType::Multiseat,
            'G' => AccountType::GameServer,
            'A' => AccountType::AnonGameServer,
            'P' => AccountType::Pending,
            'C' => AccountType::ContentServer,
            'g' => AccountType::Clan,
            'L' => AccountType::Chat(ChatType::Lobby),
            'T' => AccountType::Chat(ChatType::MatchMakingLobby),
            'c' => AccountType::Chat(ChatType::ClanChat),
            'a' => AccountType::AnonUser,
            _ => AccountType::Invalid,
        }
    }

    /// The display character of this account type.
    pub fn to_char(self) -> (r: char)
        ensures
            r == spec_account_type_char(self),
    {
        match self {
            AccountType::Invalid => 'I',
            AccountType::Individual => 'U',
            AccountType::Multiseat => 'M',
            AccountType::GameServer => 'G',
            AccountType::AnonGameServer => 'A',
            AccountType::Pending => 'P',
            AccountType::ContentServer => 'C',
            AccountType::Clan => 'g',
            AccountType::Chat(v) => match v {
                ChatType::MatchMakingLobby => 'T',
                ChatType::Lobby => 'L',
                ChatType::ClanChat => 'c',
                ChatType::Unset => 'c',
            },
            AccountType::ConsoleUser => 'I',
            AccountType::AnonUser => 'a',
        }
    }

    /// Extracts the account type of a packed id, reading the chat type
    /// from the instance field's top bits when the type field decodes to a
    /// chat account.
    pub fn from_packed_identifier(steamid: &SteamId) -> (r: AccountType)
        ensures
            r == spec_account_type_of_id(steamid.id),
    {
        let bits = (steamid.id & crate::layout::MASK_ACCOUNT_TYPE)
            >> crate::layout::SHIFT_ACCOUNT_TYPE;
        proof {
            let id = steamid.id;
            assert((id & crate::layout::MASK_ACCOUNT_TYPE) >> crate::layout::SHIFT_ACCOUNT_TYPE
                <= 0xF) by (bit_vector);
        }
        let decoded = AccountType::from_numeric(bits as u8);
        match decoded {
            AccountType::Chat(_) => AccountType::Chat(
                ChatType::from_packed_identifier(steamid),
            ),
            _ => decoded,
        }
    }

    /// The display form of this account type: its character alone.
    pub fn to_display_string(&self) -> (r: String)
        ensures
            r@ == seq![spec_account_type_char(*self)],
    {
        String::from_str(char_str(self.to_char()))
    }
}

/// The single-character string for an account type's display character.
///
/// Only the twelve characters that account types render as occur here.
fn char_str(c: char) -> (r: &'static str)
    requires
        c == 'I' || c == 'U' || c == 'M' || c == 'G' || c == 'A' || c == 'P' || c == 'C' || c == 'g'
            || c == 'L' || c == 'T' || c == 'c' || c == 'a',
    ensures
        r@ == seq![c],
{
    proof {
        reveal_strlit("I");
        reveal_strlit("U");
        reveal_strlit("M");
        reveal_strlit("G");
        reveal_strlit("A");
        reveal_strlit("P");
        reveal_strlit("C");
        reveal_strlit("g");
        reveal_strlit("L");
        reveal_strlit("T");
        reveal_strlit("c");
        reveal_strlit("a");
    }
    let r: &'static str = if c == 'I' {
        "I"
    } else if c == 'U' {
        "U"
    } else if c == 'M' {
        "M"
    } else if c == 'G' {
        "G"
    } else if c == 'A' {
        "A"
    } else if c == 'P' {
        "P"
    } else if c == 'C' {
        "C"
    } else if c == 'g' {
        "g"
    } else if c == 'L' {
        "L"
    } else if c == 'T' {
        "T"
    } else if c == 'c' {
        "c"
    } else {
        "a"
    };
    proof {
        assert(r@ =~= seq![c]);
    }
    r
}

} // verus!
