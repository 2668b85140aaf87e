use steamid::AccountType;
use steamid::Instance;
use steamid::SteamId;
use steamid::Universe;
use steamid::errors::Field;
use steamid::errors::ParseError;

#[test]
fn from_steamid64_str() {
    assert!(
        SteamId::from_str("0").is_ok(),
        "Unable to parse 1-length SteamId64"
    );
    assert!(
        SteamId::from_str("76561198024962300").is_ok(),
        "Unable to parse valid SteamId64"
    );
    assert!(
        SteamId::from_str("76561198930384249").is_ok(),
        "Unable to parse valid SteamId64"
    );
    assert!(
        SteamId::from_str("76561197990953833").is_ok(),
        "Unable to parse valid SteamId64"
    );
    assert!(
        SteamId::from_str("76561197960265730").is_ok(),
        "Unable to parse valid SteamId64"
    );
    assert!(
        SteamId::from_str("18446744073709551615").is_ok(),
        "Unable to parse max-length 64-bit SteamId64"
    );

    // Things that SHOULDN'T happen:
    assert!(
        SteamId::from_str("").is_err(),
        "Able to parse blank SteamId"
    );
    assert!(
        SteamId::from_str("-1").is_err(),
        "Able to parse negative SteamId"
    );

    // Actually evaluate some values.
    let shad = SteamId::from_str("76561198024962300").unwrap();
    assert_eq!(shad.universe(), Universe::Public);
    assert_eq!(shad.authentication_server(), 0);
    assert_eq!(shad.instance(), Instance::from_numeric(1));

    let ko = SteamId::from_str("103582791464489035").unwrap();
    assert_eq!(ko.universe(), Universe::Public);
    assert_eq!(ko.authentication_server(), 1);
    assert_eq!(ko.instance().to_numeric(), 0);
}

#[test]
fn from_steamid2_str() {
    assert!(
        SteamId::from_str("STEAM_1:1:1").is_ok(),
        "Unable to parse valid SteamId2"
    );
    assert!(
        SteamId::from_str("STEAM_0:0:0").is_ok(),
        "Unable to parse weird, but valid SteamId2"
    );
    assert!(
        SteamId::from_str("STEAM_0:1:2147483647").is_ok(),
        "Unable to parse last valid SteamId2"
    );

    // Things that SHOULDN'T happen:
    assert!(
        SteamId::from_str("STEAM_1:1:").is_err(),
        "Able to parse blank SteamId"
    );
    assert!(
        SteamId::from_str("STEAM_0:fa:1").is_err(),
        "Able to parse SteamId with characters"
    );
    assert!(
        SteamId::from_str("STEAM_").is_err(),
        "Able to parse blank SteamId"
    );
    assert!(
        SteamId::from_str("STEAM_0:1:2147483648").is_err(),
        "Able to parse overflowing SteamId2 (Account Number)"
    );
    assert!(
        SteamId::from_str("STEAM_0:2:1").is_err(),
        "Able to parse overflowing SteamId2 (Authentication Server)"
    );
    assert!(
        SteamId::from_str("STEAM_256:1:1").is_err(),
        "Able to parse overflowing SteamId2 (Universe)"
    );

    // Actually evaluate some values.
    let mitch = SteamId::from_str("STEAM_1:1:485059260").unwrap();
    assert_eq!(mitch.universe(), Universe::Public);
    assert_eq!(mitch.authentication_server(), 1);
    assert_eq!(mitch.instance(), Instance::from_numeric(1));

    // This should be identical to the previous one, due to 'Valve Logic'
    //                                        V - SteamId2Legacy format.
    let mitch_2 = SteamId::from_str("STEAM_0:1:485059260").unwrap();
    assert_eq!(mitch, mitch_2);
}

#[test]
fn from_steamid3_str() {
    assert!(
        SteamId::from_str("[U:0:0]").is_ok(),
        "Unable to parse weird, but valid SteamId3"
    );
    assert!(
        SteamId::from_str("[U:1:3]").is_ok(),
        "Unable to parse valid SteamId3"
    );
    assert!(
        SteamId::from_str("[G:1:3]").is_ok(),
        "Unable to parse valid SteamId3"
    );
    assert!(
        SteamId::from_str("[U:1:4294967295]").is_ok(),
        "Unable to parse last valid SteamId3"
    );

    // Things that SHOULDN'T happen:
    assert!(
        SteamId::from_str("[]").is_err(),
        "Able to parse blank SteamId"
    );
    assert!(
        SteamId::from_str("[U:]").is_err(),
        "Able to parse blank SteamId"
    );
    assert!(
        SteamId::from_str("[U::]").is_err(),
        "Able to parse blank SteamId"
    );
    assert!(
        SteamId::from_str("[::]").is_err(),
        "Able to parse blank SteamId"
    );
    assert!(
        SteamId::from_str("G:1:3").is_err(),
        "Able to parse unbracketed SteamId3"
    );
    assert!(
        SteamId::from_str("[F::]").is_err(),
        "Able to parse SteamId3 with invalid characters"
    );
    assert!(
        SteamId::from_str("[G:1:3").is_err(),
        "Able to parse invalid SteamId3"
    );
    assert!(
        SteamId::from_str("[0:1:3]").is_err(),
        "Able to parse SteamId3 with numeric account type"
    );
    assert!(
        SteamId::from_str("[U:1:4294967296]").is_err(),
        "Able to parse overflowing SteamId3"
    );
    assert!(
        SteamId::from_str("[U:256:1]").is_err(),
        "Able to parse overflowing SteamId3"
    );

    // Actually evaluate some values.
    let mitch = SteamId::from_str("[U:1:970118521]").unwrap();
    assert_eq!(mitch.universe(), Universe::Public);
    assert_eq!(mitch.authentication_server(), 1);
    assert_eq!(mitch.account_type(), AccountType::Individual);
    assert_eq!(mitch.instance(), Instance::from_numeric(1));

    let mitch = SteamId::from_str("[I:1:970118521]").unwrap();
    assert_eq!(mitch.universe(), Universe::Public);
    assert_eq!(mitch.authentication_server(), 1);
    assert_eq!(mitch.account_type(), AccountType::Invalid);
    assert_eq!(mitch.instance(), Instance::from_numeric(1));

    let zero = SteamId::from_str("[U:1:2]").unwrap();
    assert_eq!(
        zero.authentication_server(),
        0,
        "Not properly masking auth server bit"
    );
    let one = SteamId::from_str("[U:1:3]").unwrap();
    assert_eq!(
        one.authentication_server(),
        1,
        "Not properly masking auth server bit"
    );
}

/// All three formats of the same identifier parse to the same packed
/// value.
#[test]
fn format_detection() {
    let from_64 = SteamId::from_str("76561197990953833").unwrap();
    let from_2 = SteamId::from_str("STEAM_1:1:15344052").unwrap();
    let from_2_legacy = SteamId::from_str("STEAM_0:1:15344052").unwrap();
    let from_3 = SteamId::from_str("[U:1:30688105]").unwrap();
    assert_eq!(from_64.id, 76561197990953833);
    assert_eq!(from_2.id, 76561197990953833);
    assert_eq!(from_2_legacy.id, 76561197990953833);
    assert_eq!(from_3.id, 76561197990953833);
}

/// Surrounding whitespace, Unicode whitespace included, is trimmed before
/// parsing.
#[test]
fn trims_whitespace() {
    let padded = SteamId::from_str("  76561197990953833\t\n").unwrap();
    assert_eq!(padded.id, 76561197990953833);
    let unicode_padded = SteamId::from_str("\u{A0}\u{2003}76561197990953833\u{3000}").unwrap();
    assert_eq!(unicode_padded.id, 76561197990953833);
    let spaces_only = SteamId::from_str("   ");
    assert_eq!(spaces_only, Err(ParseError::Empty));
}

/// Each kind of malformed input is rejected with its own error.
#[test]
fn reject_invalid_inputs() {
    assert_eq!(
        SteamId::from_str("[U:1:4294967296]"),
        Err(ParseError::Invalid(Field::AccountNumber))
    );
    assert_eq!(
        SteamId::from_str("STEAM_256:1:1"),
        Err(ParseError::Invalid(Field::Universe))
    );
    assert_eq!(
        SteamId::from_str("[0:1:3]"),
        Err(ParseError::Invalid(Field::AccountType))
    );
    assert_eq!(SteamId::from_str(""), Err(ParseError::Empty));
    assert_eq!(SteamId::from_str("hello"), Err(ParseError::UknownFormat));
    assert_eq!(
        SteamId::from_str("123456789012345678901234567890123"),
        Err(ParseError::Invalid(Field::SteamId64))
    );
    assert_eq!(
        SteamId::from_str("18446744073709551616"),
        Err(ParseError::Invalid(Field::SteamId64))
    );
    assert_eq!(
        SteamId::from_str("STEAM_1:1"),
        Err(ParseError::TooShort)
    );
    assert_eq!(SteamId::from_str("[U:1]"), Err(ParseError::TooShort));
}

/// A SteamId3 holds exactly three fields between its brackets: a fourth
/// field is a structural failure.
#[test]
fn steamid3_exactly_three_fields() {
    assert!(SteamId::from_str("[U:1:3]").is_ok());
    assert_eq!(
        SteamId::from_str("[U:1:3:9]"),
        Err(ParseError::UknownFormat)
    );
    assert_eq!(
        SteamId::from_str("[U:1:3:]"),
        Err(ParseError::UknownFormat)
    );
}

/// SteamId3 fields are validated left to right: the account type
/// character is checked before the universe and the packed value.
#[test]
fn steamid3_type_char_checked_first() {
    assert_eq!(
        SteamId::from_str("[0:256:1]"),
        Err(ParseError::Invalid(Field::AccountType))
    );
    assert_eq!(
        SteamId::from_str("[0:1:4294967296]"),
        Err(ParseError::Invalid(Field::AccountType))
    );
    assert_eq!(
        SteamId::from_str("[U:256:4294967296]"),
        Err(ParseError::Invalid(Field::Universe))
    );
}

/// A SteamId2 must open with the literal `STEAM_` prefix.
#[test]
fn steamid2_prefix_required() {
    assert!(SteamId::from_str("STEAM_1:1:1").is_ok());
    assert_eq!(
        SteamId::from_str("Sxxxxx1:1:1"),
        Err(ParseError::UknownFormat)
    );
    assert_eq!(
        SteamId::from_str("STEAm_1:1:1"),
        Err(ParseError::UknownFormat)
    );
}

/// Long inputs have no special cap: a too-large digit string fails as a
/// SteamId64, and a long but valid SteamId2 parses.
#[test]
fn long_inputs_follow_their_grammar() {
    assert_eq!(
        SteamId::from_str("0000000000000000000000000000000000000001"),
        Ok(SteamId::from_u64(1))
    );
    let long = SteamId::from_str("STEAM_1:1:0000000000000000000000000485059260").unwrap();
    let short = SteamId::from_str("STEAM_1:1:485059260").unwrap();
    assert_eq!(long, short);
}

/// The error types describe themselves in words.
#[test]
fn error_messages() {
    assert_eq!(Field::AuthServer.description(), "authentication server");
    assert_eq!(Field::SteamId64.description(), "steamid64");
    assert_eq!(
        ParseError::Invalid(Field::Universe).message(),
        "invalid value in universe"
    );
    assert_eq!(
        ParseError::UknownFormat.message(),
        "unable to identify SteamId format"
    );
    assert_eq!(ParseError::TooShort.message(), "unexpected end of string");
    assert_eq!(ParseError::Empty.message(), "input empty");
    assert_eq!(ParseError::Other("custom reason").message(), "custom reason");
}
