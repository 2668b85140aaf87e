//! The bit layout of a packed SteamId.
//!
//! A SteamId consists of five non-overlapping bit fields that together cover
//! all 64 bits, from least to most significant:
//!
//! 1. authentication server - 1 bit   (bit 0)
//! 2. account number        - 31 bits (bits 1..=31)
//! 3. instance              - 20 bits (bits 32..=51)
//! 4. account type          - 4 bits  (bits 52..=55)
//! 5. universe              - 8 bits  (bits 56..=63)
//!
//! The top 8 bits of the instance field (bits 44..=51) double as the chat
//! type when the account type is a chat account.

use vstd::prelude::*;

verus! {

/// Mask selecting the authentication server bit.
pub const MASK_AUTH_SERVER: u64 = 0x1;
/// Mask selecting the 31 account number bits.
pub const MASK_ACCOUNT_NUMBER: u64 = 0xFFFF_FFFE;
/// Mask selecting the 20 instance bits.
pub const MASK_INSTANCE: u64 = 0x000F_FFFF_0000_0000;
/// Mask selecting the 4 account type bits.
pub const MASK_ACCOUNT_TYPE: u64 = 0x00F0_0000_0000_0000;
/// Mask selecting the 8 universe bits.
pub const MASK_UNIVERSE: u64 = 0xFF00_0000_0000_0000;
/// Mask selecting the chat type: the top 8 bits of the instance field.
pub const MASK_CHAT_TYPE: u64 = 0x000F_F000_0000_0000;

/// Offset of the authentication server bit (trailing zeros of its mask).
pub const SHIFT_AUTH_SERVER: u64 = 0;
/// Offset of the account number field.
pub const SHIFT_ACCOUNT_NUMBER: u64 = 1;
/// Offset of the instance field.
pub const SHIFT_INSTANCE: u64 = 32;
/// Offset of the account type field.
pub const SHIFT_ACCOUNT_TYPE: u64 = 52;
/// Offset of the universe field.
pub const SHIFT_UNIVERSE: u64 = 56;
/// Offset of the chat type bits.
pub const SHIFT_CHAT_TYPE: u64 = 44;

/// The authentication server bit of a packed id: 0 or 1.
pub open spec fn auth_server_bits(id: u64) -> u64 {
    (id & MASK_AUTH_SERVER) >> SHIFT_AUTH_SERVER
}

/// The 31-bit account number of a packed id.
pub open spec fn account_number_bits(id: u64) -> u64 {
    (id & MASK_ACCOUNT_NUMBER) >> SHIFT_ACCOUNT_NUMBER
}

/// The 20-bit instance field of a packed id.
pub open spec fn instance_bits(id: u64) -> u64 {
    (id & MASK_INSTANCE) >> SHIFT_INSTANCE
}

/// The 4-bit account type field of a packed id.
pub open spec fn account_type_bits(id: u64) -> u64 {
    (id & MASK_ACCOUNT_TYPE) >> SHIFT_ACCOUNT_TYPE
}

/// The 8-bit universe field of a packed id.
pub open spec fn universe_bits(id: u64) -> u64 {
    (id & MASK_UNIVERSE) >> SHIFT_UNIVERSE
}

/// The 8-bit chat type: the top 8 bits of the instance field.
pub open spec fn chat_type_bits(id: u64) -> u64 {
    (id & MASK_CHAT_TYPE) >> SHIFT_CHAT_TYPE
}

/// Replacing the bits selected by `mask` with those of `new`, leaving the
/// other bits of `val` alone.
pub open spec fn spec_replace_bits(val: u64, mask: u64, new: u64) -> u64 {
    (val & !mask) | (new & mask)
}

/// Replaces the bits in `val` selected by `mask` with those from `new`,
/// leaving all other bits alone.
pub fn replace_bits(val: u64, mask: u64, new: u64) -> (r: u64)
    ensures
        r == spec_replace_bits(val, mask, new),
{
    (val & !mask) | (new & mask)
}

/// A packed id assembled from its five field values.
pub open spec fn compose_id(
    universe: u64,
    account_type: u64,
    instance: u64,
    account_number: u64,
    auth_server: u64,
) -> u64 {
    (universe << SHIFT_UNIVERSE) | (account_type << SHIFT_ACCOUNT_TYPE) | (instance
        << SHIFT_INSTANCE) | (account_number << SHIFT_ACCOUNT_NUMBER) | (auth_server
        << SHIFT_AUTH_SERVER)
}

/// The five fields partition all 64 bits: every packed id is exactly the
/// composition of its field values, so two ids that agree on all five
/// fields are equal.
pub proof fn lemma_fields_determine_id(id: u64)
    by (bit_vector)
    ensures
        id == compose_id(
            universe_bits(id),
            account_type_bits(id),
            instance_bits(id),
            account_number_bits(id),
            auth_server_bits(id),
        ),
{
}

/// Writing the authentication server bits keeps the low bit of the new
/// value and changes no other field.
pub proof fn lemma_replace_auth_server(id: u64, x: u64)
    by (bit_vector)
    ensures
        auth_server_bits(spec_replace_bits(id, MASK_AUTH_SERVER, x << SHIFT_AUTH_SERVER)) == x % 2,
        account_number_bits(spec_replace_bits(id, MASK_AUTH_SERVER, x << SHIFT_AUTH_SERVER))
            == account_number_bits(id),
        instance_bits(spec_replace_bits(id, MASK_AUTH_SERVER, x << SHIFT_AUTH_SERVER))
            == instance_bits(id),
        account_type_bits(spec_replace_bits(id, MASK_AUTH_SERVER, x << SHIFT_AUTH_SERVER))
            == account_type_bits(id),
        universe_bits(spec_replace_bits(id, MASK_AUTH_SERVER, x << SHIFT_AUTH_SERVER))
            == universe_bits(id),
{
}

/// Writing the account number bits keeps the low 31 bits of the new value
/// and changes no other field.
pub proof fn lemma_replace_account_number(id: u64, x: u64)
    by (bit_vector)
    ensures
        account_number_bits(spec_replace_bits(id, MASK_ACCOUNT_NUMBER, x << SHIFT_ACCOUNT_NUMBER))
            == x % 0x8000_0000,
        auth_server_bits(spec_replace_bits(id, MASK_ACCOUNT_NUMBER, x << SHIFT_ACCOUNT_NUMBER))
            == auth_server_bits(id),
        instance_bits(spec_replace_bits(id, MASK_ACCOUNT_NUMBER, x << SHIFT_ACCOUNT_NUMBER))
            == instance_bits(id),
        account_type_bits(spec_replace_bits(id, MASK_ACCOUNT_NUMBER, x << SHIFT_ACCOUNT_NUMBER))
            == account_type_bits(id),
        universe_bits(spec_replace_bits(id, MASK_ACCOUNT_NUMBER, x << SHIFT_ACCOUNT_NUMBER))
            == universe_bits(id),
{
}

/// Writing the instance bits keeps the low 20 bits of the new value and
/// changes no other field.
pub proof fn lemma_replace_instance(id: u64, x: u64)
    by (bit_vector)
    ensures
        instance_bits(spec_replace_bits(id, MASK_INSTANCE, x << SHIFT_INSTANCE)) == x % 0x10_0000,
        auth_server_bits(spec_replace_bits(id, MASK_INSTANCE, x << SHIFT_INSTANCE))
            == auth_server_bits(id),
        account_number_bits(spec_replace_bits(id, MASK_INSTANCE, x << SHIFT_INSTANCE))
            == account_number_bits(id),
        account_type_bits(spec_replace_bits(id, MASK_INSTANCE, x << SHIFT_INSTANCE))
            == account_type_bits(id),
        universe_bits(spec_replace_bits(id, MASK_INSTANCE, x << SHIFT_INSTANCE)) == universe_bits(
            id,
        ),
{
}

/// Writing the account type bits keeps the low 4 bits of the new value and
/// changes no other field.
pub proof fn lemma_replace_account_type(id: u64, x: u64)
    by (bit_vector)
    ensures
        account_type_bits(spec_replace_bits(id, MASK_ACCOUNT_TYPE, x << SHIFT_ACCOUNT_TYPE)) == x
            % 0x10,
        auth_server_bits(spec_replace_bits(id, MASK_ACCOUNT_TYPE, x << SHIFT_ACCOUNT_TYPE))
            == auth_server_bits(id),
        account_number_bits(spec_replace_bits(id, MASK_ACCOUNT_TYPE, x << SHIFT_ACCOUNT_TYPE))
            == account_number_bits(id),
        instance_bits(spec_replace_bits(id, MASK_ACCOUNT_TYPE, x << SHIFT_ACCOUNT_TYPE))
            == instance_bits(id),
        universe_bits(spec_replace_bits(id, MASK_ACCOUNT_TYPE, x << SHIFT_ACCOUNT_TYPE))
            == universe_bits(id),
{
}

/// Writing the universe bits keeps the low 8 bits of the new value and
/// changes no other field.
pub proof fn lemma_replace_universe(id: u64, x: u64)
    by (bit_vector)
    ensures
        universe_bits(spec_replace_bits(id, MASK_UNIVERSE, x << SHIFT_UNIVERSE)) == x % 0x100,
        auth_server_bits(spec_replace_bits(id, MASK_UNIVERSE, x << SHIFT_UNIVERSE))
            == auth_server_bits(id),
        account_number_bits(spec_replace_bits(id, MASK_UNIVERSE, x << SHIFT_UNIVERSE))
            == account_number_bits(id),
        instance_bits(spec_replace_bits(id, MASK_UNIVERSE, x << SHIFT_UNIVERSE)) == instance_bits(
            id,
        ),
        account_type_bits(spec_replace_bits(id, MASK_UNIVERSE, x << SHIFT_UNIVERSE))
            == account_type_bits(id),
{
}

} // verus!
