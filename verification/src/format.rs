//! Rendering a SteamId in each of its textual formats.

use vstd::prelude::*;

use crate::account_type::AccountType;
use crate::account_type::spec_account_type_char;
use crate::account_type::spec_account_type_of_id;
use crate::layout::MASK_ACCOUNT_NUMBER;
use crate::layout::MASK_AUTH_SERVER;
use crate::layout::account_number_bits;
use crate::layout::auth_server_bits;
use crate::layout::universe_bits;
use crate::steam_id::SteamId;
use crate::text::spec_decimal_digits;
use crate::text::u64_to_decimal;
use crate::universe::spec_universe_from_number;
use crate::universe::spec_universe_number;

verus! {

/// The universe value a SteamId displays: the stored field, decoded and
/// re-encoded, so that values without an enumerated universe display as 0.
pub open spec fn spec_display_universe(id: u64) -> int {
    spec_universe_number(spec_universe_from_number(universe_bits(id) as u8)) as int
}

/// The SteamId64 rendering: the decimal value of the whole packed id.
pub open spec fn spec_format_steamid64(id: u64) -> Seq<char> {
    spec_decimal_digits(id as int)
}

/// The SteamId2 rendering: `STEAM_<universe>:<authserver>:<accountnumber>`.
pub open spec fn spec_format_steamid2(id: u64) -> Seq<char> {
    "STEAM_"@ + spec_decimal_digits(spec_display_universe(id)) + ":"@ + spec_decimal_digits(
        auth_server_bits(id) as int,
    ) + ":"@ + spec_decimal_digits(account_number_bits(id) as int)
}

/// The legacy SteamId2 rendering: as SteamId2, but the universe is always
/// rendered as the literal `0`.
pub open spec fn spec_format_steamid2_legacy(id: u64) -> Seq<char> {
    "STEAM_"@ + "0"@ + ":"@ + spec_decimal_digits(auth_server_bits(id) as int) + ":"@
        + spec_decimal_digits(account_number_bits(id) as int)
}

/// The SteamId3 rendering: `[<type-char>:<universe>:<packed>]`, where the
/// packed field recombines the account number and the authentication
/// server bit into one decimal value.
pub open spec fn spec_format_steamid3(id: u64) -> Seq<char> {
    "["@ + seq![spec_account_type_char(spec_account_type_of_id(id))] + ":"@ + spec_decimal_digits(
        spec_display_universe(id),
    ) + ":"@ + spec_decimal_digits((id % 0x1_0000_0000) as int) + "]"@
}

/// The URL rendering: the group URL around the SteamId3 form for clan
/// accounts, the profile URL around the SteamId64 form for all others.
pub open spec fn spec_format_url(id: u64) -> Seq<char> {
    match spec_account_type_of_id(id) {
        AccountType::Clan => "http://steamcommunity.com/gid/"@ + spec_format_steamid3(id),
        _ => "http://steamcommunity.com/profiles/"@ + spec_decimal_digits(id as int),
    }
}

/// Wraps a [`SteamId`] to pick one of its textual renderings.
///
/// [`IdFormat::render`] produces the chosen text.
#[derive(Debug, Clone, Copy, PartialEq, Eq)]
pub enum IdFormat {
    /// The full 64-bit "steamID64", e.g. `76561197960265731`.
    SteamId64(SteamId),
    /// Older "steamID" format, e.g. `STEAM_1:1:15344052`.
    SteamId2(SteamId),
    /// As `SteamId2`, but the universe is always shown as `0`.
    SteamId2Legacy(SteamId),
    /// Modern preferred standard, e.g. `[U:1:30688105]`.
    SteamId3(SteamId),
    /// Web address for the SteamId: a group address for clans, a profile
    /// address for everything else.
    Url(SteamId),
}

/// The text that [`IdFormat::render`] yields for each choice of format.
pub open spec fn spec_render(f: IdFormat) -> Seq<char> {
    match f {
        IdFormat::SteamId64(v) => spec_format_steamid64(v.id),
        IdFormat::SteamId2(v) => spec_format_steamid2(v.id),
        IdFormat::SteamId2Legacy(v) => spec_format_steamid2_legacy(v.id),
        IdFormat::SteamId3(v) => spec_format_steamid3(v.id),
        IdFormat::Url(v) => spec_format_url(v.id),
    }
}

/// Renders the SteamId2 body shared by the plain and legacy forms:
/// `:<authserver>:<accountnumber>` appended to the given prefix.
fn append_steamid2_tail(s: &mut String, v: &SteamId)
    ensures
        final(s)@ == old(s)@ + ":"@ + spec_decimal_digits(auth_server_bits(v.id) as int) + ":"@
            + spec_decimal_digits(account_number_bits(v.id) as int),
{
    s.append(":");
    let auth = u64_to_decimal(v.authentication_server() as u64);
    s.append(auth.as_str());
    s.append(":");
    let account = u64_to_decimal(v.account_number() as u64);
    s.append(account.as_str());
}

/// Renders `v` as a SteamId3.
fn format_steamid3(v: &SteamId) -> (r: String)
    ensures
        r@ == spec_format_steamid3(v.id),
{
    let mut s = String::from_str("[");
    let type_str = v.account_type().to_display_string();
    s.append(type_str.as_str());
    s.append(":");
    let universe = u64_to_decimal(v.universe().to_numeric() as u64);
    s.append(universe.as_str());
    s.append(":");
    proof {
        let id = v.id;
        assert((id & (MASK_AUTH_SERVER | MASK_ACCOUNT_NUMBER)) == id % 0x1_0000_0000)
            by (bit_vector);
    }
    let packed = u64_to_decimal(v.id & (MASK_AUTH_SERVER | MASK_ACCOUNT_NUMBER));
    s.append(packed.as_str());
    s.append("]");
    s
}

impl IdFormat {
    /// Renders the wrapped SteamId in the chosen format.
    pub fn render(&self) -> (r: String)
        ensures
            r@ == spec_render(*self),
    {
        match self {
            IdFormat::SteamId64(v) => u64_to_decimal(v.id),
            IdFormat::SteamId2(v) => {
                let mut s = String::from_str("STEAM_");
                let universe = u64_to_decimal(v.universe().to_numeric() as u64);
                s.append(universe.as_str());
                append_steamid2_tail(&mut s, v);
                s
            },
            IdFormat::SteamId2Legacy(v) => {
                let mut s = String::from_str("STEAM_");
                s.append("0");
                append_steamid2_tail(&mut s, v);
                s
            },
            IdFormat::SteamId3(v) => format_steamid3(v),
            IdFormat::Url(v) => {
                match v.account_type() {
                    AccountType::Clan => {
                        let mut s = String::from_str("http://steamcommunity.com/gid/");
                        let body = format_steamid3(v);
                        s.append(body.as_str());
                        s
                    },
                    _ => {
                        let mut s = String::from_str("http://steamcommunity.com/profiles/");
                        let body = u64_to_decimal(v.id);
                        s.append(body.as_str());
                        s
                    },
                }
            },
        }
    }
}

} // verus!
