//! The packed identifier and its builder.

use vstd::prelude::*;

use crate::account_type::AccountType;
use crate::account_type::spec_account_type_number;
use crate::account_type::spec_account_type_of_id;
use crate::chat_type::ChatType;
use crate::chat_type::spec_chat_type_number;
use crate::instance::Instance;
use crate::instance::lemma_instance_number_bound;
use crate::instance::lemma_instance_number_all_chat;
use crate::instance::lemma_instance_number_value;
use crate::instance::spec_instance_from_number;
use crate::instance::spec_instance_number;
use crate::layout::MASK_ACCOUNT_NUMBER;
use crate::layout::MASK_ACCOUNT_TYPE;
use crate::layout::MASK_AUTH_SERVER;
use crate::layout::MASK_INSTANCE;
use crate::layout::MASK_UNIVERSE;
use crate::layout::SHIFT_ACCOUNT_NUMBER;
use crate::layout::SHIFT_ACCOUNT_TYPE;
use crate::layout::SHIFT_AUTH_SERVER;
use crate::layout::SHIFT_INSTANCE;
use crate::layout::SHIFT_UNIVERSE;
use crate::layout::account_number_bits;
use crate::layout::account_type_bits;
use crate::layout::auth_server_bits;
use crate::layout::compose_id;
use crate::layout::instance_bits;
use crate::layout::lemma_fields_determine_id;
use crate::layout::lemma_replace_account_number;
use crate::layout::lemma_replace_account_type;
use crate::layout::lemma_replace_auth_server;
use crate::layout::lemma_replace_instance;
use crate::layout::lemma_replace_universe;
use crate::layout::replace_bits;
use crate::layout::spec_replace_bits;
use crate::layout::universe_bits;
use crate::universe::Universe;
use crate::universe::spec_universe_from_number;
use crate::universe::spec_universe_number;

verus! {

/// The packed value of the default identifier that [`SteamIdBuilder::new`]
/// begins from: account type `Individual`, universe `Public`, instance 1.
pub const DEFAULT_STEAM_ID: u64 = 76561197960265728;

/// The instance field value that setting an account type forces.
///
/// Setting the account type leaves the instance alone for `Invalid` and
/// `Individual`, forces the chat kind into the chat bits for `Chat`, and
/// clears the field for every other type.
pub open spec fn spec_account_type_instance_effect(a: AccountType, old_instance: u64) -> u64 {
    match a {
        AccountType::Invalid => old_instance,
        AccountType::Individual => old_instance,
        AccountType::Chat(v) => (4096 * (spec_chat_type_number(v) as u64)) as u64,
        _ => 0,
    }
}

/// Used to build a new [`SteamId`] from values.
///
/// Each mutator consumes the builder and returns an updated one; a builder
/// is finally consumed by [`SteamIdBuilder::finish`] to yield the
/// immutable [`SteamId`].
#[derive(Debug, Clone, Copy)]
pub struct SteamIdBuilder {
    pub id: u64,
}

impl SteamIdBuilder {
    /// Begets a new builder with some reasonable defaults.
    ///
    /// Defaults:
    /// - account type = [`AccountType::Individual`]
    /// - universe = [`Universe::Public`]
    /// - instance = 1 (the `Desktop` value, to match third-party SteamId64
    ///   parsing and formatting)
    pub fn new() -> (r: Self)
        ensures
            r.id == DEFAULT_STEAM_ID,
            auth_server_bits(r.id) == 0,
            account_number_bits(r.id) == 0,
            instance_bits(r.id) == 1,
            account_type_bits(r.id) == 1,
            universe_bits(r.id) == 1,
    {
        let start = SteamIdBuilder { id: 0 };
        proof {
            assert(auth_server_bits(0) == 0 && account_number_bits(0) == 0 && instance_bits(0) == 0
                && account_type_bits(0) == 0 && universe_bits(0) == 0) by (bit_vector);
        }
        let r = start.account_type(AccountType::Individual).universe(Universe::Public).instance(
            Instance::from_numeric(1),
        );
        proof {
            assert((1u32 >> 12) & 0xFF == 0 && 1u32 & 0xFFF == 1) by (bit_vector);
            lemma_instance_number_value(Instance::Desktop(ChatType::Unset));
            lemma_fields_determine_id(r.id);
            assert(compose_id(1, 1, 1, 0, 0) == 76561197960265728) by (bit_vector);
        }
        r
    }

    /// Consumes the builder and returns the finished [`SteamId`].
    pub fn finish(self) -> (r: SteamId)
        ensures
            r.id == self.id,
    {
        SteamId { id: self.id }
    }

    /// Sets the authentication server bit.
    ///
    /// Only meaningful values are `0` or `1`; anything greater than `1` is
    /// capped to `1`.  No other field changes.
    pub fn authentication_server(self, val: u64) -> (r: Self)
        ensures
            r.id == spec_replace_bits(
                self.id,
                MASK_AUTH_SERVER,
                (if val >= 1 { 1u64 } else { 0u64 }) << SHIFT_AUTH_SERVER,
            ),
            auth_server_bits(r.id) == (if val >= 1 { 1u64 } else { 0u64 }),
            account_number_bits(r.id) == account_number_bits(self.id),
            instance_bits(r.id) == instance_bits(self.id),
            account_type_bits(r.id) == account_type_bits(self.id),
            universe_bits(r.id) == universe_bits(self.id),
    {
        let new_val: u64 = if val >= 1 {
            1
        } else {
            0
        };
        proof {
            lemma_replace_auth_server(self.id, new_val);
        }
        SteamIdBuilder { id: replace_bits(self.id, MASK_AUTH_SERVER, new_val << SHIFT_AUTH_SERVER) }
    }

    /// Sets the 31-bit account number.
    ///
    /// Values exceeding 31 bits are truncated to the low 31 bits, not
    /// rejected.  No other field changes.
    pub fn account_number(self, val: u64) -> (r: Self)
        ensures
            r.id == spec_replace_bits(self.id, MASK_ACCOUNT_NUMBER, val << SHIFT_ACCOUNT_NUMBER),
            account_number_bits(r.id) == val % 0x8000_0000,
            auth_server_bits(r.id) == auth_server_bits(self.id),
            instance_bits(r.id) == instance_bits(self.id),
            account_type_bits(r.id) == account_type_bits(self.id),
            universe_bits(r.id) == universe_bits(self.id),
    {
        proof {
            lemma_replace_account_number(self.id, val);
        }
        SteamIdBuilder { id: replace_bits(self.id, MASK_ACCOUNT_NUMBER, val << SHIFT_ACCOUNT_NUMBER) }
    }

    /// Sets the account type and applies its side effect on the instance
    /// field: `Invalid` and `Individual` leave the instance untouched, a
    /// chat type forces the instance to carry its chat kind alone, and
    /// every other type clears the instance.  This matches the externally
    /// observed behaviour of the reference identifier scheme.
    ///
    /// Use [`SteamIdBuilder::account_type_preserve_bits`] to write the
    /// type field with no side effect.
    pub fn account_type(self, val: AccountType) -> (r: Self)
        ensures
            account_type_bits(r.id) == spec_account_type_number(val),
            instance_bits(r.id) == spec_account_type_instance_effect(val, instance_bits(self.id)),
            auth_server_bits(r.id) == auth_server_bits(self.id),
            account_number_bits(r.id) == account_number_bits(self.id),
            universe_bits(r.id) == universe_bits(self.id),
    {
        let new = match val {
            AccountType::Invalid => self,
            AccountType::Individual => self,
            AccountType::Chat(v) => {
                proof {
                    lemma_instance_number_all_chat(v);
                }
                self.instance(Instance::All(v))
            },
            _ => {
                proof {
                    lemma_instance_number_all_chat(ChatType::Unset);
                }
                self.instance(Instance::All(ChatType::default()))
            },
        };
        new.account_type_preserve_bits(val)
    }

    /// Sets the account type field alone, with no side effect on the
    /// instance field.
    pub fn account_type_preserve_bits(self, val: AccountType) -> (r: Self)
        ensures
            r.id == spec_replace_bits(
                self.id,
                MASK_ACCOUNT_TYPE,
                (spec_account_type_number(val) as u64) << SHIFT_ACCOUNT_TYPE,
            ),
            account_type_bits(r.id) == spec_account_type_number(val),
            auth_server_bits(r.id) == auth_server_bits(self.id),
            account_number_bits(r.id) == account_number_bits(self.id),
            instance_bits(r.id) == instance_bits(self.id),
            universe_bits(r.id) == universe_bits(self.id),
    {
        let number = val.to_numeric() as u64;
        proof {
            lemma_replace_account_type(self.id, number);
        }
        SteamIdBuilder {
            id: replace_bits(self.id, MASK_ACCOUNT_TYPE, number << SHIFT_ACCOUNT_TYPE),
        }
    }

    /// Sets the 20-bit instance field, chat type included, without
    /// touching any other field.
    ///
    /// This is usually best left to whatever default value is set.
    pub fn instance(self, val: Instance) -> (r: Self)
        ensures
            r.id == spec_replace_bits(
                self.id,
                MASK_INSTANCE,
                (spec_instance_number(val) as u64) << SHIFT_INSTANCE,
            ),
            instance_bits(r.id) == spec_instance_number(val),
            auth_server_bits(r.id) == auth_server_bits(self.id),
            account_number_bits(r.id) == account_number_bits(self.id),
            account_type_bits(r.id) == account_type_bits(self.id),
            universe_bits(r.id) == universe_bits(self.id),
    {
        let number = val.to_numeric() as u64;
        proof {
            lemma_instance_number_bound(val);
            lemma_replace_instance(self.id, number);
        }
        SteamIdBuilder { id: replace_bits(self.id, MASK_INSTANCE, number << SHIFT_INSTANCE) }
    }

    /// Sets the [`Universe`] this account exists within, without touching
    /// any other field.
    pub fn universe(self, val: Universe) -> (r: Self)
        ensures
            r.id == spec_replace_bits(
                self.id,
                MASK_UNIVERSE,
                (spec_universe_number(val) as u64) << SHIFT_UNIVERSE,
            ),
            universe_bits(r.id) == spec_universe_number(val),
            auth_server_bits(r.id) == auth_server_bits(self.id),
            account_number_bits(r.id) == account_number_bits(self.id),
            instance_bits(r.id) == instance_bits(self.id),
            account_type_bits(r.id) == account_type_bits(self.id),
    {
        let number = val.to_numeric() as u64;
        proof {
            lemma_replace_universe(self.id, number);
        }
        SteamIdBuilder { id: replace_bits(self.id, MASK_UNIVERSE, number << SHIFT_UNIVERSE) }
    }

    /// Returns a builder holding an existing identifier's value, to modify
    /// it.
    pub fn from_steam_id(steamid: &SteamId) -> (r: Self)
        ensures
            r.id == steamid.id,
    {
        SteamIdBuilder { id: steamid.id }
    }
}

/// "Read-only" SteamId with associated methods for reading each field.
///
/// To change the values of an existing SteamId, convert it into a
/// [`SteamIdBuilder`] with [`SteamIdBuilder::from_steam_id`], set the
/// desired values, and [`SteamIdBuilder::finish`] the builder.
#[derive(Debug, Clone, Copy, PartialEq, Eq, Hash)]
pub struct SteamId {
    pub id: u64,
}

impl SteamId {
    /// Wraps a raw 64-bit value as a SteamId.
    pub fn from_u64(id: u64) -> (r: Self)
        ensures
            r.id == id,
    {
        SteamId { id }
    }

    /// Returns the authentication server bit of this SteamId.
    pub fn authentication_server(&self) -> (r: u32)
        ensures
            r == auth_server_bits(self.id),
    {
        proof {
            let id = self.id;
            assert((id & MASK_AUTH_SERVER) >> SHIFT_AUTH_SERVER == (id & MASK_AUTH_SERVER) && (id
                & MASK_AUTH_SERVER) <= 1) by (bit_vector);
        }
        (self.id & MASK_AUTH_SERVER) as u32
    }

    /// Returns the 31-bit account number of this SteamId.
    pub fn account_number(&self) -> (r: u32)
        ensures
            r == account_number_bits(self.id),
    {
        proof {
            let id = self.id;
            assert((id & MASK_ACCOUNT_NUMBER) >> SHIFT_ACCOUNT_NUMBER <= 0x7FFF_FFFF)
                by (bit_vector);
        }
        ((self.id & MASK_ACCOUNT_NUMBER) >> SHIFT_ACCOUNT_NUMBER) as u32
    }

    /// Returns the [`AccountType`] of this SteamId, its chat kind
    /// included.
    pub fn account_type(&self) -> (r: AccountType)
        ensures
            r == spec_account_type_of_id(self.id),
    {
        AccountType::from_packed_identifier(self)
    }

    /// Returns the [`Instance`] of this SteamId.
    ///
    /// Note: chat-typed ids will have bits set above 4096.
    pub fn instance(&self) -> (r: Instance)
        ensures
            r == spec_instance_from_number(instance_bits(self.id) as u32),
    {
        Instance::from_packed_identifier(self)
    }

    /// Returns the [`Universe`] of this SteamId.
    pub fn universe(&self) -> (r: Universe)
        ensures
            r == spec_universe_from_number(universe_bits(self.id) as u8),
    {
        Universe::from_packed_identifier(self)
    }
}

/// Round trip: for every authentication server bit in {0, 1} and account
/// number below 2^31, writing the two fields into any packed value and
/// reading them back yields the original values exactly.
pub proof fn lemma_round_trip(original: u64, auth: u64, account: u64)
    requires
        auth < 2,
        account < 0x8000_0000,
    ensures
        ({
            let with_account = spec_replace_bits(
                original,
                MASK_ACCOUNT_NUMBER,
                account << SHIFT_ACCOUNT_NUMBER,
            );
            let built = spec_replace_bits(with_account, MASK_AUTH_SERVER, auth << SHIFT_AUTH_SERVER);
            auth_server_bits(built) == auth && account_number_bits(built) == account
        }),
{
    let with_account = spec_replace_bits(original, MASK_ACCOUNT_NUMBER, account << SHIFT_ACCOUNT_NUMBER);
    lemma_replace_account_number(original, account);
    lemma_replace_auth_server(with_account, auth);
}

} // verus!
