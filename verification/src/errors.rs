//! Error types returned by the SteamId parser.

use vstd::prelude::*;

verus! {

/// The sub-field of a SteamId that failed to parse.
#[derive(Debug, Clone, Copy, PartialEq, Eq, PartialOrd, Ord, Hash)]
pub enum Field {
    /// Authentication server bit, only ever parsed directly from SteamId2.
    ///
    /// Values exceeding 1 fail during parsing.
    AuthServer,
    /// 31-bit number, so values exceeding `2147483647` fail.
    ///
    /// The value is parsed directly from the last field of a SteamId2; for
    /// SteamId3 the value is packed with the `AuthServer` bit.
    AccountNumber,
    Instance,
    /// Only directly parsed in SteamId3 formats.
    AccountType,
    /// Almost always `1`.
    Universe,
    /// Failed to parse the value into a `u64`.
    SteamId64,
}

impl Field {
    /// A short human-readable name for the field.
    pub fn description(&self) -> (r: &'static str)
        ensures
            r@ == spec_field_description(*self),
    {
        match self {
            Field::AuthServer => "authentication server",
            Field::AccountNumber => "account number",
            Field::Instance => "instance",
            Field::AccountType => "account type",
            Field::Universe => "universe",
            Field::SteamId64 => "steamid64",
        }
    }
}

/// The name that [`Field::description`] returns for each field.
pub open spec fn spec_field_description(f: Field) -> Seq<char> {
    match f {
        Field::AuthServer => "authentication server"@,
        Field::AccountNumber => "account number"@,
        Field::Instance => "instance"@,
        Field::AccountType => "account type"@,
        Field::Universe => "universe"@,
        Field::SteamId64 => "steamid64"@,
    }
}

/// Reasons why parsing a SteamId might fail.
#[derive(Debug, Clone, Copy, PartialEq, Eq, PartialOrd, Ord, Hash)]
pub enum ParseError {
    /// Failed to deduce any SteamId format during parsing.
    UknownFormat,
    /// Failed to interpret a value during SteamId parsing.
    ///
    /// This is caused by a SteamId being formatted incorrectly, such as
    /// having letters where numbers should be.
    Invalid(Field),
    /// Input did not contain all the fields required to parse.
    TooShort,
    /// Failed by having no data at all to parse.
    Empty,
    Other(&'static str),
}

impl ParseError {
    /// A human-readable reason for the failure.
    pub fn message(&self) -> (r: String)
        ensures
            r@ == spec_parse_error_message(*self),
    {
        match self {
            ParseError::UknownFormat => String::from_str("unable to identify SteamId format"),
            ParseError::Invalid(v) => String::from_str("invalid value in ").concat(
                v.description(),
            ),
            ParseError::TooShort => String::from_str("unexpected end of string"),
            ParseError::Empty => String::from_str("input empty"),
            ParseError::Other(v) => String::from_str(v),
        }
    }
}

/// The text that [`ParseError::message`] returns for each error.
pub open spec fn spec_parse_error_message(e: ParseError) -> Seq<char> {
    match e {
        ParseError::UknownFormat => "unable to identify SteamId format"@,
        ParseError::Invalid(v) => "invalid value in "@ + spec_field_description(v),
        ParseError::TooShort => "unexpected end of string"@,
        ParseError::Empty => "input empty"@,
        ParseError::Other(v) => v@,
    }
}

} // verus!
