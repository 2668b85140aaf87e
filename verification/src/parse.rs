//! The multi-format SteamId parser.
//!
//! Three textual grammars are recognised, dispatched on the first
//! significant character of the (whitespace-trimmed) input:
//!
//! - an ASCII digit starts a SteamId64: the whole input as one decimal
//!   64-bit value;
//! - `S` starts a SteamId2: `STEAM_<universe>:<authserver>:<accountnumber>`;
//! - `[` starts a SteamId3: `[<type-char>:<universe>:<packed>]`, whose last
//!   field packs the authentication server bit and the account number into
//!   one decimal value.
//!
//! Parsing never panics: every malformed input returns a
//! [`ParseError`] value.

use vstd::prelude::*;

use crate::account_type::AccountType;
use crate::account_type::spec_account_type_from_char;
use crate::account_type::spec_account_type_number;
use crate::errors::Field;
use crate::errors::ParseError;
use crate::layout::account_number_bits;
use crate::layout::account_type_bits;
use crate::layout::auth_server_bits;
use crate::layout::compose_id;
use crate::layout::instance_bits;
use crate::layout::lemma_fields_determine_id;
use crate::layout::universe_bits;
use crate::steam_id::SteamId;
use crate::steam_id::SteamIdBuilder;
use crate::steam_id::spec_account_type_instance_effect;
use crate::text::find_char_from;
use crate::text::parse_decimal;
use crate::text::spec_all_digits;
use crate::text::spec_decimal_value;
use crate::text::spec_find_from;
use crate::text::spec_is_digit;
use crate::text::spec_trim;
use crate::text::trim;
use crate::universe::Universe;
use crate::universe::spec_universe_from_number;
use crate::universe::spec_universe_number;

verus! {

/// Whether a character is an ASCII letter: the only characters a SteamId3
/// accepts as its account type field.
pub open spec fn spec_is_ascii_alphabetic(c: char) -> bool {
    ('A' <= c && c <= 'Z') || ('a' <= c && c <= 'z')
}

/// Whether a field of a grammar is a plain decimal numeral whose value is
/// at most `bound`.
pub open spec fn spec_numeric_field(f: Seq<char>, bound: int) -> bool {
    f.len() > 0 && spec_all_digits(f) && spec_decimal_value(f) <= bound
}

/// The id that a parsed SteamId2 denotes.  A universe of 0 (`Unspecified`)
/// is reinterpreted as 1 (`Public`) to match the behaviour of the legacy
/// format, and any value without an enumerated universe stores that
/// universe's default.  The account type is forced to `Individual`, and
/// the instance keeps the builder's default of 1.
pub open spec fn spec_steamid2_id(universe: u64, auth: u64, account: u64) -> u64 {
    let normalized = if universe == 0 {
        1u64
    } else {
        universe
    };
    compose_id(
        spec_universe_number(spec_universe_from_number(normalized as u8)) as u64,
        1,
        1,
        account,
        auth,
    )
}

/// The result of parsing a whole trimmed input as a SteamId64: the decimal
/// value of the entire string, which must fit in 64 bits.
pub open spec fn spec_parse_steamid64(t: Seq<char>) -> Result<u64, ParseError> {
    if spec_numeric_field(t, u64::MAX as int) {
        Ok(spec_decimal_value(t) as u64)
    } else {
        Err(ParseError::Invalid(Field::SteamId64))
    }
}

/// Whether a string opens with the literal `STEAM_` prefix of the
/// SteamId2 grammar.
pub open spec fn spec_steamid2_prefix(t: Seq<char>) -> bool {
    t.len() >= 6 && t[0] == 'S' && t[1] == 'T' && t[2] == 'E' && t[3] == 'A' && t[4] == 'M' && t[5]
        == '_'
}

/// The result of parsing a trimmed input as a SteamId2.
///
/// The input must open with the literal `STEAM_` prefix; the rest is read
/// as colon-separated fields: a universe of at most 255, an
/// authentication server bit below 2 (stricter than the builder, which
/// clamps), and an account number below 2^31.  Anything after a third
/// colon is ignored.  The first failing field decides the error.
pub open spec fn spec_parse_steamid2(t: Seq<char>) -> Result<u64, ParseError> {
    if !spec_steamid2_prefix(t) {
        Err(ParseError::UknownFormat)
    } else {
        let rest = t.subrange(6, t.len() as int);
        let i1 = spec_find_from(rest, ':', 0);
        let universe_field = rest.subrange(0, i1);
        if !spec_numeric_field(universe_field, 255) {
            Err(ParseError::Invalid(Field::Universe))
        } else if i1 >= rest.len() {
            Err(ParseError::TooShort)
        } else {
            let i2 = spec_find_from(rest, ':', i1 + 1);
            let auth_field = rest.subrange(i1 + 1, i2);
            if !spec_numeric_field(auth_field, 1) {
                Err(ParseError::Invalid(Field::AuthServer))
            } else if i2 >= rest.len() {
                Err(ParseError::TooShort)
            } else {
                let i3 = spec_find_from(rest, ':', i2 + 1);
                let account_field = rest.subrange(i2 + 1, i3);
                if !spec_numeric_field(account_field, 0x7FFF_FFFF) {
                    Err(ParseError::Invalid(Field::AccountNumber))
                } else {
                    Ok(
                        spec_steamid2_id(
                            spec_decimal_value(universe_field) as u64,
                            spec_decimal_value(auth_field) as u64,
                            spec_decimal_value(account_field) as u64,
                        ),
                    )
                }
            }
        }
    }
}

/// The id that a parsed SteamId3 denotes.  The packed field carries the
/// authentication server bit in its lowest bit and the account number
/// above it; the account type's usual side effect on the instance field
/// applies, on the builder default instance of 1.
pub open spec fn spec_steamid3_id(universe: u64, type_char: char, packed: u64) -> u64 {
    let account_type = spec_account_type_from_char(type_char);
    compose_id(
        spec_universe_number(spec_universe_from_number(universe as u8)) as u64,
        spec_account_type_number(account_type) as u64,
        spec_account_type_instance_effect(account_type, 1),
        packed / 2,
        packed % 2,
    )
}

/// The result of parsing a trimmed input as a SteamId3.
///
/// The input must end with `]`, and the interior between the brackets
/// must hold exactly three colon-separated fields: a single ASCII letter
/// for the account type, a universe of at most 255 (not reinterpreted,
/// unlike SteamId2), and a packed value of at most 2^32 - 1.  Structural
/// failures (missing or surplus fields) are reported first, then the
/// fields are validated left to right and the first failure decides the
/// error.
pub open spec fn spec_parse_steamid3(t: Seq<char>) -> Result<u64, ParseError> {
    if t.len() == 0 {
        Err(ParseError::TooShort)
    } else if t.last() != ']' || t.len() < 2 {
        Err(ParseError::UknownFormat)
    } else {
        let inner = t.subrange(1, t.len() - 1);
        let i1 = spec_find_from(inner, ':', 0);
        let type_field = inner.subrange(0, i1);
        if i1 >= inner.len() {
            Err(ParseError::TooShort)
        } else {
            let i2 = spec_find_from(inner, ':', i1 + 1);
            let universe_field = inner.subrange(i1 + 1, i2);
            if i2 >= inner.len() {
                Err(ParseError::TooShort)
            } else {
                let i3 = spec_find_from(inner, ':', i2 + 1);
                let packed_field = inner.subrange(i2 + 1, i3);
                if i3 < inner.len() {
                    Err(ParseError::UknownFormat)
                } else if !(type_field.len() == 1 && spec_is_ascii_alphabetic(type_field[0])) {
                    Err(ParseError::Invalid(Field::AccountType))
                } else if !spec_numeric_field(universe_field, 255) {
                    Err(ParseError::Invalid(Field::Universe))
                } else if !spec_numeric_field(packed_field, u64::MAX as int) {
                    Err(ParseError::Invalid(Field::AuthServer))
                } else if spec_decimal_value(packed_field) > 0xFFFF_FFFF {
                    Err(ParseError::Invalid(Field::AccountNumber))
                } else {
                    Ok(
                        spec_steamid3_id(
                            spec_decimal_value(universe_field) as u64,
                            type_field[0],
                            spec_decimal_value(packed_field) as u64,
                        ),
                    )
                }
            }
        }
    }
}

/// The result of parsing an arbitrary input: the input is trimmed and
/// dispatched on its first character.
pub open spec fn spec_parse_steam_id(s: Seq<char>) -> Result<u64, ParseError> {
    let t = spec_trim(s);
    if t.len() == 0 {
        Err(ParseError::Empty)
    } else if spec_is_digit(t[0]) {
        spec_parse_steamid64(t)
    } else if t[0] == 'S' {
        spec_parse_steamid2(t)
    } else if t[0] == '[' {
        spec_parse_steamid3(t)
    } else {
        Err(ParseError::UknownFormat)
    }
}

/// Whether a parse attempt's outcome carries exactly the expected packed
/// value, or exactly the expected error.
pub open spec fn spec_builder_result(
    r: Result<SteamIdBuilder, ParseError>,
    expected: Result<u64, ParseError>,
) -> bool {
    match (r, expected) {
        (Ok(b), Ok(id)) => b.id == id,
        (Err(e), Err(expected_e)) => e == expected_e,
        _ => false,
    }
}

/// Whether a parse attempt's outcome carries exactly the expected packed
/// value as a [`SteamId`], or exactly the expected error.
pub open spec fn spec_steamid_result(
    r: Result<SteamId, ParseError>,
    expected: Result<u64, ParseError>,
) -> bool {
    match (r, expected) {
        (Ok(v), Ok(id)) => v.id == id,
        (Err(e), Err(expected_e)) => e == expected_e,
        _ => false,
    }
}

/// Parses a whole string as the decimal value of a SteamId64.
pub fn parse_from_steamid64(s: &str) -> (r: Result<SteamIdBuilder, ParseError>)
    ensures
        spec_builder_result(r, spec_parse_steamid64(s@)),
{
    match parse_decimal(s) {
        Some(v) => Ok(SteamIdBuilder { id: v }),
        None => Err(ParseError::Invalid(Field::SteamId64)),
    }
}

/// Parses a string as a SteamId2, `STEAM_<universe>:<auth>:<account>`.
pub fn parse_from_steamid2(s: &str) -> (r: Result<SteamIdBuilder, ParseError>)
    ensures
        spec_builder_result(r, spec_parse_steamid2(s@)),
{
    let len = s.unicode_len();
    if len < 6 {
        return Err(ParseError::UknownFormat);
    }
    if s.get_char(0) != 'S' || s.get_char(1) != 'T' || s.get_char(2) != 'E' || s.get_char(3) != 'A'
        || s.get_char(4) != 'M' || s.get_char(5) != '_' {
        return Err(ParseError::UknownFormat);
    }
    let rest = s.substring_char(6, len);
    let rest_len = len - 6;
    proof {
        assert(rest@.len() == rest_len);
    }
    let i1 = find_char_from(rest, ':', 0);
    let universe_field = rest.substring_char(0, i1);
    let universe_value = match parse_decimal(universe_field) {
        Some(v) => {
            if v <= 255 {
                v
            } else {
                return Err(ParseError::Invalid(Field::Universe));
            }
        },
        None => {
            return Err(ParseError::Invalid(Field::Universe));
        },
    };
    if i1 >= rest_len {
        return Err(ParseError::TooShort);
    }
    let i2 = find_char_from(rest, ':', i1 + 1);
    let auth_field = rest.substring_char(i1 + 1, i2);
    let auth_value = match parse_decimal(auth_field) {
        Some(v) => {
            if v < 2 {
                v
            } else {
                return Err(ParseError::Invalid(Field::AuthServer));
            }
        },
        None => {
            return Err(ParseError::Invalid(Field::AuthServer));
        },
    };
    if i2 >= rest_len {
        return Err(ParseError::TooShort);
    }
    let i3 = find_char_from(rest, ':', i2 + 1);
    let account_field = rest.substring_char(i2 + 1, i3);
    let account_value = match parse_decimal(account_field) {
        Some(v) => {
            if v < 0x8000_0000 {
                v
            } else {
                return Err(ParseError::Invalid(Field::AccountNumber));
            }
        },
        None => {
            return Err(ParseError::Invalid(Field::AccountNumber));
        },
    };
    // Reinterpret the 'Unspecified' universe as 'Public' to match the
    // reference implementation's handling of the legacy formats.
    let normalized: u8 = if universe_value == 0 {
        1
    } else {
        universe_value as u8
    };
    let b = SteamIdBuilder::new().universe(Universe::from_numeric(normalized))
        .authentication_server(auth_value)
        .account_number(account_value)
        .account_type(AccountType::from_char('U'));
    proof {
        lemma_fields_determine_id(b.id);
    }
    Ok(b)
}

/// Parses a string as a SteamId3, `[<type-char>:<universe>:<packed>]`.
pub fn parse_from_steamid3(s: &str) -> (r: Result<SteamIdBuilder, ParseError>)
    ensures
        spec_builder_result(r, spec_parse_steamid3(s@)),
{
    let len = s.unicode_len();
    if len == 0 {
        return Err(ParseError::TooShort);
    }
    if s.get_char(len - 1) != ']' || len < 2 {
        return Err(ParseError::UknownFormat);
    }
    let inner = s.substring_char(1, len - 1);
    let inner_len = len - 2;
    proof {
        assert(inner@.len() == inner_len);
    }
    let i1 = find_char_from(inner, ':', 0);
    let type_field = inner.substring_char(0, i1);
    if i1 >= inner_len {
        return Err(ParseError::TooShort);
    }
    let i2 = find_char_from(inner, ':', i1 + 1);
    let universe_field = inner.substring_char(i1 + 1, i2);
    if i2 >= inner_len {
        return Err(ParseError::TooShort);
    }
    let i3 = find_char_from(inner, ':', i2 + 1);
    let packed_field = inner.substring_char(i2 + 1, i3);
    // Exactly three fields between the brackets: a fourth separator is a
    // structural failure.
    if i3 < inner_len {
        return Err(ParseError::UknownFormat);
    }
    if type_field.unicode_len() != 1 {
        return Err(ParseError::Invalid(Field::AccountType));
    }
    let type_char = type_field.get_char(0);
    let type_code = type_char as u32;
    if !((65 <= type_code && type_code <= 90) || (97 <= type_code && type_code <= 122)) {
        return Err(ParseError::Invalid(Field::AccountType));
    }
    let universe_value = match parse_decimal(universe_field) {
        Some(v) => {
            if v <= 255 {
                v
            } else {
                return Err(ParseError::Invalid(Field::Universe));
            }
        },
        None => {
            return Err(ParseError::Invalid(Field::Universe));
        },
    };
    let packed = match parse_decimal(packed_field) {
        Some(v) => v,
        None => {
            return Err(ParseError::Invalid(Field::AuthServer));
        },
    };
    // The packed field carries the account number and the authentication
    // server bit together, so it must fit in 32 bits.
    if packed > 0xFFFF_FFFF {
        return Err(ParseError::Invalid(Field::AccountNumber));
    }
    let b = SteamIdBuilder::new().universe(Universe::from_numeric(universe_value as u8))
        .authentication_server(packed & 0x1)
        .account_number(packed >> 1)
        .account_type(AccountType::from_char(type_char));
    proof {
        assert((packed & 0x1) == packed % 2 && (packed >> 1) == packed / 2) by (bit_vector);
        lemma_fields_determine_id(b.id);
    }
    Ok(b)
}

impl SteamIdBuilder {
    /// Parses a SteamId in any of the three textual formats, yielding a
    /// builder holding the parsed value.
    pub fn from_str(s: &str) -> (r: Result<SteamIdBuilder, ParseError>)
        ensures
            spec_builder_result(r, spec_parse_steam_id(s@)),
    {
        let t = trim(s);
        let len = t.unicode_len();
        if len == 0 {
            return Err(ParseError::Empty);
        }
        let first = t.get_char(0);
        let code = first as u32;
        if 48 <= code && code <= 57 {
            parse_from_steamid64(t)
        } else if first == 'S' {
            parse_from_steamid2(t)
        } else if first == '[' {
            parse_from_steamid3(t)
        } else {
            Err(ParseError::UknownFormat)
        }
    }
}

impl SteamId {
    /// Parses a SteamId in any of the three textual formats.
    pub fn from_str(s: &str) -> (r: Result<SteamId, ParseError>)
        ensures
            spec_steamid_result(r, spec_parse_steam_id(s@)),
    {
        match SteamIdBuilder::from_str(s) {
            Ok(b) => Ok(b.finish()),
            Err(e) => Err(e),
        }
    }
}

} // verus!
