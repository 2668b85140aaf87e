use steamid::AccountType;
use steamid::ChatType;
use steamid::Instance;
use steamid::SteamId;
use steamid::SteamIdBuilder;
use steamid::Universe;
use steamid::layout::MASK_AUTH_SERVER;

/// Ensures our documentation and everything line up with the actual defaults
#[test]
fn steam_id_defaults() {
    let user = SteamIdBuilder::new().finish();
    assert_eq!(user.id, 76561197960265728, "Incorrect default SteamId.");
}

/// Makes sure builder functions are changing internal values correctly.
#[test]
fn builder_authentication_server() {
    let reference = SteamIdBuilder::new().finish().id;

    let set_one = SteamIdBuilder::new().authentication_server(1);
    assert_eq!(set_one.id, reference | MASK_AUTH_SERVER);

    let set_high = SteamIdBuilder::new().authentication_server(8);
    assert_eq!(set_high.id, reference | MASK_AUTH_SERVER);

    let set_zero = SteamIdBuilder::new().authentication_server(0);
    assert_eq!(set_zero.id, reference & !MASK_AUTH_SERVER);
}

/// Makes sure builder functions are changing internal values correctly.
#[test]
fn builder_account_number() {
    let alfred = SteamIdBuilder::new().account_number(1).finish();
    assert_eq!(alfred.id, 76561197960265730);
}

/// Makes sure builder functions are changing internal values correctly.
#[test]
fn builder_account_type() {
    // Internally, `account_type` uses `account_type_preserve_bits` so,
    // I consider that covered by these tests.

    let invalid = SteamIdBuilder::new().account_type(AccountType::from_char('I')).finish();
    assert_eq!(invalid.id, 72057598332895232);
    let invalid = SteamIdBuilder::new().account_type(AccountType::from_numeric(0)).finish();
    assert_eq!(invalid.id, 72057598332895232);

    let user = SteamIdBuilder::new().account_type(AccountType::from_char('U')).finish();
    assert_eq!(user.id, 76561197960265728);
    let user = SteamIdBuilder::new().account_type(AccountType::from_numeric(1)).finish();
    assert_eq!(user.id, 76561197960265728);

    let multiseat = SteamIdBuilder::new().account_type(AccountType::from_char('M')).finish();
    assert_eq!(multiseat.id, 81064793292668928);
    let multiseat = SteamIdBuilder::new().account_type(AccountType::from_numeric(2)).finish();
    assert_eq!(multiseat.id, 81064793292668928);

    let game_server = SteamIdBuilder::new().account_type(AccountType::from_char('G')).finish();
    assert_eq!(game_server.id, 85568392920039424);
    let game_server = SteamIdBuilder::new().account_type(AccountType::from_numeric(3)).finish();
    assert_eq!(game_server.id, 85568392920039424);

    let anon_game_server = SteamIdBuilder::new().account_type(AccountType::from_char('A')).finish();
    assert_eq!(anon_game_server.id, 90071992547409920);
    let anon_game_server = SteamIdBuilder::new().account_type(AccountType::from_numeric(4)).finish();
    assert_eq!(anon_game_server.id, 90071992547409920);

    let pending = SteamIdBuilder::new().account_type(AccountType::from_char('P')).finish();
    assert_eq!(pending.id, 94575592174780416);
    let pending = SteamIdBuilder::new().account_type(AccountType::from_numeric(5)).finish();
    assert_eq!(pending.id, 94575592174780416);

    let content_server = SteamIdBuilder::new().account_type(AccountType::from_char('C')).finish();
    assert_eq!(content_server.id, 99079191802150912);
    let content_server = SteamIdBuilder::new().account_type(AccountType::from_numeric(6)).finish();
    assert_eq!(content_server.id, 99079191802150912);

    let clan = SteamIdBuilder::new().account_type(AccountType::from_char('g')).finish();
    assert_eq!(clan.id, 103582791429521408);
    let clan = SteamIdBuilder::new().account_type(AccountType::from_numeric(7)).finish();
    assert_eq!(clan.id, 103582791429521408);

    let chat = SteamIdBuilder::new().account_type(AccountType::from_char('L')).finish();
    assert_eq!(chat.id, 108121575428980736);

    let chat = SteamIdBuilder::new().account_type(AccountType::from_char('T')).finish();
    assert_eq!(chat.id, 108103983242936320);

    let chat = SteamIdBuilder::new().account_type(AccountType::from_char('c')).finish();
    assert_eq!(chat.id, 108156759801069568);

    // Console User aka "P2P SuperSeeder" does not have a char.
    let console = SteamIdBuilder::new().account_type(AccountType::from_numeric(9)).finish();
    assert_eq!(console.id, 112589990684262400);

    let anon = SteamIdBuilder::new().account_type(AccountType::from_char('a')).finish();
    assert_eq!(anon.id, 117093590311632896);
    let anon = SteamIdBuilder::new().account_type(AccountType::from_numeric(10)).finish();
    assert_eq!(anon.id, 117093590311632896);
}

/// account type has side effects we need to verify are following spec.
#[test]
fn builder_account_type_side_effects() {
    let builder = SteamIdBuilder::new();

    // Baselines, default instance is 1.
    assert_eq!(
        builder.clone().finish().instance().to_numeric(),
        1,
        "Baseline instance incorrect."
    );
    assert_eq!(
        builder
            .clone()
            .account_type(AccountType::from_char('I'))
            .finish()
            .instance()
            .to_numeric(),
        1
    );

    // Test side-effecting
    assert_eq!(
        builder
            .clone()
            .account_type(AccountType::from_char('c'))
            .finish()
            .instance()
            .to_numeric(),
        16384,
        "Chat account_type not setting instance bits."
    );
    assert_eq!(
        builder
            .clone()
            .account_type(AccountType::from_char('c'))
            .finish()
            .instance()
            .to_numeric(),
        16384,
        "Chat account_type not resetting instance bits."
    );
    assert_eq!(
        builder
            .clone()
            .instance(Instance::from_numeric(4))
            .account_type(AccountType::from_char('c'))
            .finish()
            .instance()
            .to_numeric(),
        16384,
        "Chat account_type not resetting instance bits."
    );
    assert_eq!(
        builder
            .clone()
            .instance(Instance::from_numeric(4))
            .account_type(AccountType::from_char('A'))
            .finish()
            .instance()
            .to_numeric(),
        0,
        "Chat account_type not resetting instance bits."
    );
}

/// Makes sure builder functions are changing internal values correctly.
#[test]
fn builder_instance() {
    let alfred = SteamIdBuilder::new().account_number(1).instance(Instance::from_numeric(1)).finish();
    assert_eq!(alfred.id, 76561197960265730);

    let alfred = SteamIdBuilder::new().account_number(1).instance(Instance::from_numeric(2)).finish();
    assert_eq!(alfred.id, 76561202255233026);

    let alfred = SteamIdBuilder::new().account_number(1).instance(Instance::from_numeric(4)).finish();
    assert_eq!(alfred.id, 76561210845167618);

    let alfred = SteamIdBuilder::new()
        .account_number(1)
        .instance(Instance::Web(ChatType::default()))
        .finish();
    assert_eq!(alfred.id, 76561210845167618);
}

/// Makes sure builder functions are changing internal values correctly.
#[test]
fn builder_universe() {
    let builder = SteamIdBuilder::new().account_number(1);
    assert_eq!(
        builder.clone().universe(Universe::from_numeric(0)).finish().id,
        4503603922337794
    );
    assert_eq!(
        builder.clone().universe(Universe::from_numeric(1)).finish().id,
        76561197960265730
    );
    assert_eq!(
        builder.clone().universe(Universe::Unspecified).finish().id,
        4503603922337794
    );
    assert_eq!(
        builder.clone().universe(Universe::Public).finish().id,
        76561197960265730
    );
}

/// Writing then reading the authentication server bit and the account
/// number returns the written values exactly.
#[test]
fn builder_round_trip_fields() {
    for auth in [0u64, 1] {
        for account in [0u64, 1, 15344052, 2147483647] {
            let id = SteamIdBuilder::new()
                .account_number(account)
                .authentication_server(auth)
                .finish();
            assert_eq!(id.authentication_server() as u64, auth);
            assert_eq!(id.account_number() as u64, account);
        }
    }
}

/// The authentication server bit clamps every nonzero value to 1.
#[test]
fn builder_authentication_server_clamps() {
    let set_max = SteamIdBuilder::new().authentication_server(u64::MAX).finish();
    assert_eq!(set_max.authentication_server(), 1);
    let set_two = SteamIdBuilder::new().authentication_server(2).finish();
    assert_eq!(set_two.authentication_server(), 1);
    let set_zero = SteamIdBuilder::new().authentication_server(0).finish();
    assert_eq!(set_zero.authentication_server(), 0);
}

/// Account numbers keep only their low 31 bits; high bits are discarded
/// without an error.
#[test]
fn builder_account_number_truncates() {
    let wrapped = SteamIdBuilder::new().account_number(2147483648 + 5).finish();
    assert_eq!(wrapped.account_number(), 5);
    let exact = SteamIdBuilder::new().account_number(2147483647).finish();
    assert_eq!(exact.account_number(), 2147483647);
    let high_only = SteamIdBuilder::new().account_number(1 << 31).finish();
    assert_eq!(high_only.account_number(), 0);
}

/// Writing the account type field alone leaves the instance unchanged.
#[test]
fn builder_account_type_preserve_bits() {
    let id = SteamIdBuilder::new()
        .instance(Instance::from_numeric(4))
        .account_type_preserve_bits(AccountType::from_char('c'))
        .finish();
    assert_eq!(id.instance().to_numeric(), 4);
    assert_eq!(id.account_type(), AccountType::Chat(ChatType::Unset));
}

/// A SteamId converts back into a builder holding the same value.
#[test]
fn builder_from_existing_id() {
    let base = SteamId::from_u64(76561197990953833);
    let same = SteamIdBuilder::from_steam_id(&base).finish();
    assert_eq!(same.id, 76561197990953833);
    let multiverse = SteamIdBuilder::from_steam_id(&base).universe(Universe::Beta).finish();
    assert_eq!(multiverse.id, 148618792028881769);
}
