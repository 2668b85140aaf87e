//! The place in which an account exists.

use vstd::prelude::*;

use crate::chat_type::ChatType;
use crate::chat_type::spec_chat_type_from_number;
use crate::chat_type::spec_chat_type_number;
use crate::layout::instance_bits;
use crate::steam_id::SteamId;

verus! {

/// Places in which the account exists.
///
/// Each variant carries the [`ChatType`] stored in the top 8 bits of the
/// 20-bit instance field; the variant itself is encoded in the low 12 bits.
#[derive(Debug, Clone, Copy, PartialEq, Eq, Hash)]
pub enum Instance {
    /// Instance value zero: no particular place.
    All(ChatType),
    Desktop(ChatType),
    Console(ChatType),
    Web(ChatType),
}

/// The numeric value of an instance: its variant flag in the low 12 bits
/// and its chat type in the 8 bits above them.
pub open spec fn spec_instance_number(i: Instance) -> u32 {
    match i {
        Instance::All(v) => (spec_chat_type_number(v) as u32) << 12,
        Instance::Desktop(v) => 1u32 | ((spec_chat_type_number(v) as u32) << 12),
        Instance::Console(v) => 2u32 | ((spec_chat_type_number(v) as u32) << 12),
        Instance::Web(v) => 4u32 | ((spec_chat_type_number(v) as u32) << 12),
    }
}

/// The instance a numeric value decodes to.  Only the low 20 bits count:
/// bits 12..=19 decode as the chat type, and the low 12 bits select the
/// variant.  Low bits other than the three declared flags decode to
/// `Desktop` with the chat type preserved - a deliberately lossy mapping.
pub open spec fn spec_instance_from_number(v: u32) -> Instance {
    let chat = spec_chat_type_from_number(((v >> 12) & 0xFF) as u8);
    let base = v & 0xFFF;
    if base == 0 {
        Instance::All(chat)
    } else if base == 1 {
        Instance::Desktop(chat)
    } else if base == 2 {
        Instance::Console(chat)
    } else if base == 4 {
        Instance::Web(chat)
    } else {
        Instance::Desktop(chat)
    }
}

impl Instance {
    /// Decodes a numeric instance value; variant flags without a
    /// discriminant decode to [`Instance::Desktop`] with the chat type
    /// preserved.
    pub fn from_numeric(v: u32) -> (r: Instance)
        ensures
            r == spec_instance_from_number(v),
    {
        let chat = ChatType::from_numeric(((v >> 12) & 0xFF) as u8);
        let base = v & 0xFFF;
        match base {
            0 => Instance::All(chat),
            1 => Instance::Desktop(chat),
            2 => Instance::Console(chat),
            4 => Instance::Web(chat),
            _ => Instance::Desktop(chat),
        }
    }

    /// The numeric value of this instance, its chat type included.
    pub fn to_numeric(self) -> (r: u32)
        ensures
            r == spec_instance_number(self),
    {
        match self {
            Instance::All(v) => (v.to_numeric() as u32) << 12,
            Instance::Desktop(v) => 1u32 | ((v.to_numeric() as u32) << 12),
            Instance::Console(v) => 2u32 | ((v.to_numeric() as u32) << 12),
            Instance::Web(v) => 4u32 | ((v.to_numeric() as u32) << 12),
        }
    }

    /// Extracts the 20-bit instance field of a packed id.
    pub fn from_packed_identifier(steamid: &SteamId) -> (r: Instance)
        ensures
            r == spec_instance_from_number(instance_bits(steamid.id) as u32),
    {
        let bits = (steamid.id & crate::layout::MASK_INSTANCE) >> crate::layout::SHIFT_INSTANCE;
        proof {
            let id = steamid.id;
            assert((id & crate::layout::MASK_INSTANCE) >> crate::layout::SHIFT_INSTANCE <= 0xF_FFFF)
                by (bit_vector);
        }
        Instance::from_numeric(bits as u32)
    }
}

impl Default for Instance {
    /// The default instance is `Desktop` with no chat type.
    fn default() -> (r: Self)
        ensures
            r == Instance::Desktop(ChatType::Unset),
    {
        Instance::Desktop(ChatType::Unset)
    }
}

/// How a chat type value `c` placed in bits 12..=19 combines with each
/// variant flag: the flag and the chat value read back unchanged, and the
/// whole stays within the 20-bit instance field.
proof fn lemma_instance_encoding(c: u32)
    by (bit_vector)
    requires
        c <= 4,
    ensures
        ((c << 12) >> 12) & 0xFF == c,
        (c << 12) & 0xFFF == 0,
        ((1u32 | (c << 12)) >> 12) & 0xFF == c,
        (1u32 | (c << 12)) & 0xFFF == 1,
        ((2u32 | (c << 12)) >> 12) & 0xFF == c,
        (2u32 | (c << 12)) & 0xFFF == 2,
        ((4u32 | (c << 12)) >> 12) & 0xFF == c,
        (4u32 | (c << 12)) & 0xFFF == 4,
        (c << 12) == 4096 * c,
        (1u32 | (c << 12)) == 1 + 4096 * c,
        (2u32 | (c << 12)) == 2 + 4096 * c,
        (4u32 | (c << 12)) == 4 + 4096 * c,
        (c << 12) <= 0x4000,
        (1u32 | (c << 12)) <= 0x4001,
        (2u32 | (c << 12)) <= 0x4002,
        (4u32 | (c << 12)) <= 0x4004,
{
}

/// An instance's numeric value, written arithmetically: its variant flag
/// plus 4096 times its chat kind's value.
pub proof fn lemma_instance_number_value(i: Instance)
    ensures
        spec_instance_number(i) == (match i {
            Instance::All(v) => 4096 * (spec_chat_type_number(v) as u32),
            Instance::Desktop(v) => 1 + 4096 * (spec_chat_type_number(v) as u32),
            Instance::Console(v) => 2 + 4096 * (spec_chat_type_number(v) as u32),
            Instance::Web(v) => 4 + 4096 * (spec_chat_type_number(v) as u32),
        }),
{
    match i {
        Instance::All(v) => lemma_instance_encoding(spec_chat_type_number(v) as u32),
        Instance::Desktop(v) => lemma_instance_encoding(spec_chat_type_number(v) as u32),
        Instance::Console(v) => lemma_instance_encoding(spec_chat_type_number(v) as u32),
        Instance::Web(v) => lemma_instance_encoding(spec_chat_type_number(v) as u32),
    }
}

/// A chat-carrying `All` instance encodes as its chat kind alone, placed
/// in the chat bits.
pub proof fn lemma_instance_number_all_chat(v: ChatType)
    ensures
        spec_instance_number(Instance::All(v)) == 4096 * (spec_chat_type_number(v) as u32),
{
    lemma_instance_encoding(spec_chat_type_number(v) as u32);
}

/// An instance's numeric value always fits in the 20-bit instance field.
pub proof fn lemma_instance_number_bound(i: Instance)
    ensures
        spec_instance_number(i) <= 0x4004,
{
    match i {
        Instance::All(v) => lemma_instance_encoding(spec_chat_type_number(v) as u32),
        Instance::Desktop(v) => lemma_instance_encoding(spec_chat_type_number(v) as u32),
        Instance::Console(v) => lemma_instance_encoding(spec_chat_type_number(v) as u32),
        Instance::Web(v) => lemma_instance_encoding(spec_chat_type_number(v) as u32),
    }
}

/// Encoding an instance is lossless: every declared variant's numeric
/// value, chat type included, decodes back to the same instance.
pub proof fn lemma_instance_round_trip(i: Instance)
    ensures
        spec_instance_from_number(spec_instance_number(i)) == i,
{
    match i {
        Instance::All(v) => lemma_instance_encoding(spec_chat_type_number(v) as u32),
        Instance::Desktop(v) => lemma_instance_encoding(spec_chat_type_number(v) as u32),
        Instance::Console(v) => lemma_instance_encoding(spec_chat_type_number(v) as u32),
        Instance::Web(v) => lemma_instance_encoding(spec_chat_type_number(v) as u32),
    }
}

} // verus!
