use miden_objects::account::AuthSecretKey as ProtocolKey;
use miden_objects::crypto::dsa::rpo_falcon512::SecretKey;
use miden_objects::utils::serde::{Deserializable, Serializable};
use miden_store::account::{AccountType, AuthScheme, AuthSecretKey};
use miden_store::bootstrap::{
    account_file_name, account_write_error, bootstrap, bootstrap_with, config_read_error,
    generate_faucet_account, generate_wallet_account, genesis_write_error, plan_genesis,
    AccountEntropy, BootstrapError, GenerateError, WalletError,
};
use miden_store::command::{StoreAction, StoreCommand};
use miden_store::genesis::{
    AccountInput, AssetInput, AssetInputError, AssetMap, AuthSchemeInput,
    BasicFungibleFaucetInputs, BasicWalletInputs, ClockBeforeEpoch, GenesisConfig,
};
use miden_store::random::SeededRng;
use miden_store::word::Word;
use rand::{Rng, SeedableRng};

/// A seed for which keys are found quickly.
const SEED: [u8; 32] = [9; 32];

fn faucet(symbol: &str) -> BasicFungibleFaucetInputs {
    BasicFungibleFaucetInputs {
        auth_scheme: AuthSchemeInput::RpoFalcon512,
        token_symbol: symbol.to_string(),
        decimals: 12,
        max_supply: 1_000_000,
        storage_mode: "public".to_string(),
    }
}

fn wallet(assets: Option<Vec<(&str, u64)>>) -> BasicWalletInputs {
    BasicWalletInputs {
        auth_scheme: AuthSchemeInput::RpoFalcon512,
        storage_mode: "private".to_string(),
        account_type: AccountType::RegularAccountImmutableCode,
        assets: assets.map(|assets| {
            assets
                .into_iter()
                .map(|(symbol, amount)| AssetInput { token_symbol: symbol.to_string(), amount })
                .collect()
        }),
    }
}

fn config(accounts: Vec<AccountInput>) -> GenesisConfig {
    GenesisConfig { version: 1, timestamp: 1717344256, accounts: Some(accounts) }
}

fn seeded() -> SeededRng {
    SeededRng::from_seed(SEED)
}

/// Random values for `n` accounts. The keys take part in nothing that is tested with them.
fn entropy(n: u8) -> Vec<AccountEntropy> {
    (0..n)
        .map(|k| AccountEntropy {
            auth_scheme: AuthScheme::RpoFalcon512 {
                pub_key: Word::new([1, 2, 3, k as u64]).unwrap(),
            },
            auth_secret_key: AuthSecretKey::RpoFalcon512(vec![4, 5, k]),
            init_seed: [k; 32],
        })
        .collect()
}

#[test]
fn dump_config_succeeds() {
    let command: StoreCommand<String, String> = StoreCommand::DumpGenesis;
    assert_eq!(command.handle(), StoreAction::DumpDefaultGenesis);
    let config = GenesisConfig::default_now().unwrap();
    assert_eq!(config.version, 1);
    assert!(config.timestamp > 1_700_000_000);
    assert_eq!(config.accounts.unwrap().len(), 1);
}

#[test]
fn bootstrap_with_assets() {
    let command: StoreCommand<&str, &str> = StoreCommand::Bootstrap {
        config: Some("config.toml"),
        data_directory: "data",
        accounts_directory: "accounts",
    };
    let expected = StoreAction::Bootstrap {
        genesis_input: Some("config.toml"),
        data_directory: "data",
        accounts_directory: "accounts",
    };
    assert_eq!(command.handle(), expected);

    let config = config(vec![
        AccountInput::BasicFungibleFaucet(faucet("MID")),
        AccountInput::BasicWallet(wallet(Some(vec![("MID", 1000)]))),
    ]);
    // A seed for which both keys are found quickly.
    let mut seed = [16; 32];
    seed.iter_mut().skip(1).step_by(2).for_each(|byte| *byte = 1);
    let plan = bootstrap_with(&config, &mut SeededRng::from_seed(seed)).unwrap();
    assert_eq!(plan.version, 1);
    assert_eq!(plan.timestamp, 1717344256);
    assert_eq!(plan.accounts.len(), 2);

    let faucet = &plan.accounts[0];
    assert_eq!(faucet.account.nonce, 0);
    assert!(faucet.account_seed.is_some());
    assert!(faucet.account.vault.assets().is_empty());

    let wallet = &plan.accounts[1];
    assert_eq!(wallet.account.nonce, 1);
    assert!(wallet.account_seed.is_none());
    let assets = wallet.account.vault.assets();
    assert_eq!(assets.len(), 1);
    assert_eq!(assets[0].faucet_id(), faucet.account.id);
    assert_eq!(assets[0].amount(), 1000);
    assert_eq!((faucet.account.id.prefix() >> 4) & 15, 0b0010);
    assert_eq!((wallet.account.id.prefix() >> 4) & 15, 0b1000);

    let files = plan.account_files();
    assert_eq!(files[0].name, "account_0.mac");
    assert_eq!(files[1].name, "account_1.mac");
    let state = plan.into_genesis_state();
    assert_eq!(state.accounts.len(), 2);
    assert_eq!((state.version, state.timestamp), (1, 1717344256));
}

#[test]
fn account_files_are_those_of_the_protocol() {
    let config = config(vec![
        AccountInput::BasicFungibleFaucet(faucet("MID")),
        AccountInput::BasicWallet(wallet(Some(vec![("MID", 1000)]))),
    ]);
    let mut entropy = entropy(2);
    let (auth_scheme, AuthSecretKey::RpoFalcon512(secret)) =
        AuthSchemeInput::RpoFalcon512.gen_auth_keys(&mut seeded());
    for values in &mut entropy {
        values.auth_scheme = auth_scheme;
        values.auth_secret_key = AuthSecretKey::RpoFalcon512(secret.clone());
    }
    let plan = plan_genesis(&config, &entropy).unwrap();
    for (file, account) in plan.account_files().iter().zip(&plan.accounts) {
        let read = miden_objects::account::AccountFile::read_from_bytes(&file.contents).unwrap();
        assert_eq!(read.to_bytes(), file.contents);
        assert_eq!(read.account.id().prefix().as_u64(), account.account.id.prefix());
        assert_eq!(read.account.id().suffix().as_int(), account.account.id.suffix());
        assert_eq!(read.account.nonce().as_int(), account.account.nonce);
        assert_eq!(read.account.to_bytes(), account.account.to_bytes());
        assert_eq!(read.account.id().to_bytes(), account.account.id.to_bytes());
        assert_eq!(read.account_seed.is_some(), account.account_seed.is_some());
        let ProtocolKey::RpoFalcon512(key) = read.auth_secret_key;
        let AuthSecretKey::RpoFalcon512(bytes) = &account.auth_secret_key;
        assert_eq!(&key.to_bytes(), bytes);
    }
    let wallet = miden_objects::account::AccountFile::read_from_bytes(
        &plan.account_files()[1].contents,
    )
    .unwrap();
    let faucet_id = plan.accounts[0].account.id;
    let held: Vec<_> = wallet.account.vault().assets().collect();
    assert_eq!(held.len(), 1);
    let asset = held[0].unwrap_fungible();
    assert_eq!(asset.amount(), 1000);
    assert_eq!(asset.faucet_id().prefix().as_u64(), faucet_id.prefix());
}

#[test]
fn generator_draws_the_words_of_the_stream() {
    let mut expected = rand_chacha::ChaCha20Rng::from_seed(SEED);
    let mut rng = seeded();
    for _ in 0..3 {
        let integers: [u64; 4] = expected.random();
        assert_eq!(rng.next_integers(), integers);
        let bytes: [u8; 32] = expected.random();
        assert_eq!(rng.next_bytes(), bytes);
    }
}

#[test]
fn generators_differ_by_chance() {
    let first = SeededRng::from_entropy().next_bytes();
    let second = SeededRng::from_entropy().next_bytes();
    assert_ne!(first, second);
}

/// The public key that is found first with the seed.
const PUBLIC_KEY: [u64; 4] = [
    13835513175916328105,
    9307229154789632259,
    1914267098756554979,
    10462718135474689254,
];

#[test]
fn keys_belong_together() {
    let (scheme, secret) = AuthSchemeInput::RpoFalcon512.gen_auth_keys(&mut seeded());
    let AuthScheme::RpoFalcon512 { pub_key } = scheme;
    assert_eq!(pub_key.elements(), PUBLIC_KEY);
    let AuthSecretKey::RpoFalcon512(bytes) = secret;
    let key = SecretKey::read_from_bytes(&bytes).unwrap();
    let public: [miden_objects::Felt; 4] = key.public_key().into();
    assert_eq!(public.map(|felt| felt.as_int()), PUBLIC_KEY);
}

#[test]
fn keys_follow_from_the_seed() {
    let integers = seeded().next_integers();
    let mut coin = miden_objects::crypto::rand::RpoRandomCoin::new(
        integers.map(miden_objects::Felt::new),
    );
    let public: [miden_objects::Felt; 4] = SecretKey::with_rng(&mut coin).public_key().into();
    assert_eq!(public.map(|felt| felt.as_int()), PUBLIC_KEY);
}

#[test]
fn faucet_is_that_of_the_protocol() {
    let entropy = entropy(1);
    let file = generate_faucet_account(&faucet("MID"), &entropy[0]).unwrap();
    let AuthScheme::RpoFalcon512 { pub_key } = entropy[0].auth_scheme;
    let pub_key = miden_objects::crypto::dsa::rpo_falcon512::PublicKey::new(
        pub_key.elements().map(miden_objects::Felt::new),
    );
    let (account, seed) = miden_lib::account::faucets::create_basic_fungible_faucet(
        entropy[0].init_seed,
        miden_objects::account::AccountIdAnchor::PRE_GENESIS,
        miden_objects::asset::TokenSymbol::new("MID").unwrap(),
        12,
        miden_objects::Felt::new(1_000_000),
        miden_objects::account::AccountStorageMode::Public,
        miden_lib::AuthScheme::RpoFalcon512 { pub_key },
    )
    .unwrap();
    assert_eq!(file.account.to_bytes(), account.to_bytes());
    assert_eq!(file.account_seed.unwrap().elements(), seed.map(|felt| felt.as_int()));
    let AuthSecretKey::RpoFalcon512(kept) = &file.auth_secret_key;
    let AuthSecretKey::RpoFalcon512(drawn) = &entropy[0].auth_secret_key;
    assert_eq!(kept, drawn);
}

#[test]
fn storage_modes_are_named_in_any_case() {
    let inputs = BasicWalletInputs { storage_mode: "Network".to_string(), ..wallet(None) };
    let entropy = entropy(1);
    let file = generate_wallet_account(&inputs, &entropy[0], Vec::new()).unwrap();
    assert_eq!((file.account.id.prefix() >> 6) & 3, 1);
    for unknown in ["", "publi", "public ", "publics", "PRIVATe1", "\u{e9}"] {
        let inputs = BasicWalletInputs { storage_mode: unknown.to_string(), ..wallet(None) };
        assert_eq!(
            generate_wallet_account(&inputs, &entropy[0], Vec::new()).unwrap_err(),
            GenerateError::UnknownStorageMode
        );
    }
}

fn faucet_error(inputs: BasicFungibleFaucetInputs) -> GenerateError {
    let config = config(vec![
        AccountInput::BasicWallet(wallet(None)),
        AccountInput::BasicFungibleFaucet(inputs),
    ]);
    match plan_genesis(&config, &entropy(2)) {
        Err(BootstrapError::Faucet { index: 1, error }) => error,
        other => panic!("unexpected outcome: {other:?}"),
    }
}

#[test]
fn faucets_are_refused() {
    let inputs = BasicFungibleFaucetInputs { storage_mode: "nowhere".to_string(), ..faucet("MID") };
    assert_eq!(faucet_error(inputs), GenerateError::UnknownStorageMode);
    for symbol in ["", "mid", "TOOLONG", "A1"] {
        assert_eq!(faucet_error(faucet(symbol)), GenerateError::InvalidTokenSymbol);
    }
    let inputs = BasicFungibleFaucetInputs { max_supply: 0xffff_ffff_0000_0001, ..faucet("MID") };
    assert_eq!(faucet_error(inputs), GenerateError::InvalidMaxSupply);
    let inputs = BasicFungibleFaucetInputs { max_supply: 1 << 63, ..faucet("MID") };
    assert_eq!(faucet_error(inputs), GenerateError::CreationFailed);
    let inputs = BasicFungibleFaucetInputs { decimals: 13, ..faucet("MID") };
    assert_eq!(faucet_error(inputs), GenerateError::CreationFailed);
}

fn wallet_error(inputs: BasicWalletInputs) -> BootstrapError {
    let config = config(vec![
        AccountInput::BasicFungibleFaucet(faucet("MID")),
        AccountInput::BasicWallet(inputs),
    ]);
    plan_genesis(&config, &entropy(2)).unwrap_err()
}

#[test]
fn wallets_without_their_faucet_are_refused() {
    let error = wallet_error(wallet(Some(vec![("MID", 1), ("POL", 1)])));
    let expected = AssetInputError::FaucetNotFound("POL".to_string());
    assert_eq!(error, BootstrapError::Wallet { index: 1, error: WalletError::Asset(expected) });
    assert_eq!(
        error.messages(),
        vec![
            "failed to generate basic wallet accounts",
            "Failed to generate wallet account 1",
            "Faucet for token symbol 'POL' not found in asset map",
        ]
    );
}

#[test]
fn wallets_with_too_much_are_refused() {
    let error = wallet_error(wallet(Some(vec![("MID", 1 << 63)])));
    let expected = AssetInputError::InvalidAsset("MID".to_string());
    assert_eq!(error, BootstrapError::Wallet { index: 1, error: WalletError::Asset(expected) });
    assert_eq!(
        error.messages()[2],
        "Failed to create fungible asset for faucet 'MID'",
    );
}

#[test]
fn wallets_that_cannot_be_built_are_refused() {
    let failed = |error| BootstrapError::Wallet { index: 1, error: WalletError::Generate(error) };
    let inputs = BasicWalletInputs { account_type: AccountType::FungibleFaucet, ..wallet(None) };
    assert_eq!(wallet_error(inputs), failed(GenerateError::CreationFailed));
    let inputs = BasicWalletInputs { account_type: AccountType::NonFungibleFaucet, ..wallet(None) };
    assert_eq!(wallet_error(inputs), failed(GenerateError::CreationFailed));
    let inputs = wallet(Some(vec![("MID", 1), ("MID", 2)]));
    assert_eq!(wallet_error(inputs), failed(GenerateError::CreationFailed));
    let inputs = BasicWalletInputs { storage_mode: String::new(), ..wallet(None) };
    assert_eq!(wallet_error(inputs), failed(GenerateError::UnknownStorageMode));
}

#[test]
fn error_messages_name_the_account() {
    let error = BootstrapError::Faucet { index: 10, error: GenerateError::InvalidMaxSupply };
    assert_eq!(
        error.messages(),
        vec![
            "failed to generate faucet accounts",
            "failed to generate account 10",
            "failed to parse max supply",
        ]
    );
    let error = BootstrapError::Faucet { index: 0, error: GenerateError::InvalidTokenSymbol };
    assert_eq!(error.messages().len(), 2);
    assert_eq!(
        account_write_error(12, "/tmp/account_12.mac"),
        "failed to write data for account 12 to file /tmp/account_12.mac"
    );
    assert_eq!(genesis_write_error("/g"), "failed to write genesis data to file /g");
    assert_eq!(config_read_error("/c"), "failed to read genesis configuration from /c");
}

#[test]
fn file_names_differ() {
    assert_eq!(account_file_name(0), "account_0.mac");
    assert_eq!(account_file_name(1234567890), "account_1234567890.mac");
    assert_ne!(account_file_name(1), account_file_name(11));
    assert_eq!(account_file_name(usize::MAX), format!("account_{}.mac", usize::MAX));
}

#[test]
fn faucets_come_first_and_the_last_of_a_token_counts() {
    let config = config(vec![
        AccountInput::BasicWallet(wallet(Some(vec![("MID", 5)]))),
        AccountInput::BasicFungibleFaucet(faucet("MID")),
        AccountInput::BasicFungibleFaucet(faucet("POL")),
        AccountInput::BasicFungibleFaucet(faucet("MID")),
    ]);
    let plan = plan_genesis(&config, &entropy(4)).unwrap();
    assert_eq!(plan.accounts.len(), 4);
    let assets = plan.accounts[3].account.vault.assets();
    assert_eq!(assets[0].faucet_id(), plan.accounts[2].account.id);
    assert_ne!(assets[0].faucet_id(), plan.accounts[0].account.id);
    for file in &plan.accounts[..3] {
        assert_eq!((file.account.id.prefix() >> 4) & 3, 2);
    }
}

#[test]
fn random_values_are_used_in_the_order_of_generation() {
    let config = config(vec![
        AccountInput::BasicWallet(wallet(None)),
        AccountInput::BasicFungibleFaucet(faucet("MID")),
    ]);
    let entropy = entropy(2);
    let plan = plan_genesis(&config, &entropy).unwrap();
    let first = generate_faucet_account(&faucet("MID"), &entropy[0]).unwrap();
    let second = generate_wallet_account(&wallet(None), &entropy[1], Vec::new()).unwrap();
    assert_eq!(plan.accounts[0].account, first.account);
    assert_eq!(plan.accounts[1].account, second.account);
}

#[test]
fn no_accounts_give_no_files() {
    let config = GenesisConfig { version: 3, timestamp: 4, accounts: None };
    let plan = bootstrap(&config).unwrap();
    assert!(plan.accounts.is_empty());
    assert!(plan.account_files().is_empty());
    assert_eq!((plan.version, plan.timestamp), (3, 4));
}

#[test]
fn default_configuration_keeps_the_low_bits_of_the_time() {
    let config = GenesisConfig::default_at(0x1_0000_0005);
    assert_eq!(config.timestamp, 5);
    let accounts = config.accounts.unwrap();
    match &accounts[0] {
        AccountInput::BasicFungibleFaucet(faucet) => {
            assert_eq!(faucet.token_symbol, "POL");
            assert_eq!(faucet.decimals, 12);
            assert_eq!(faucet.max_supply, 1_000_000);
            assert_eq!(faucet.storage_mode, "public");
        },
        other => panic!("unexpected input: {other:?}"),
    }
}

#[test]
fn default_configuration_can_be_generated() {
    let mut rng = seeded();
    let plan = bootstrap_with(&GenesisConfig::default_at(0), &mut rng).unwrap();
    assert_eq!(plan.accounts.len(), 1);

    // The random values are the keys and then the seed of the one account.
    let mut again = seeded();
    again.next_integers();
    let AuthSecretKey::RpoFalcon512(secret) = &plan.accounts[0].auth_secret_key;
    let public: [miden_objects::Felt; 4] =
        SecretKey::read_from_bytes(secret).unwrap().public_key().into();
    let entropy = AccountEntropy {
        auth_scheme: AuthScheme::RpoFalcon512 {
            pub_key: Word::new(public.map(|felt| felt.as_int())).unwrap(),
        },
        auth_secret_key: AuthSecretKey::RpoFalcon512(secret.clone()),
        init_seed: again.next_bytes(),
    };
    let expected = generate_faucet_account(&faucet("POL"), &entropy).unwrap();
    assert_eq!(plan.accounts[0].account, expected.account);
    assert_eq!(rng, again);
}

#[test]
fn declared_assets_need_a_faucet() {
    let plan = plan_genesis(&GenesisConfig::default_at(0), &entropy(1)).unwrap();
    let id = plan.accounts[0].account.id;
    let mut map = AssetMap::new();
    let input = AssetInput { token_symbol: "POL".to_string(), amount: 9 };
    assert_eq!(
        input.to_assets(&map).unwrap_err(),
        AssetInputError::FaucetNotFound("POL".to_string())
    );
    map.insert(&"POL".to_string(), id);
    let asset = input.to_assets(&map).unwrap();
    assert_eq!((asset.faucet_id(), asset.amount()), (id, 9));
    assert_eq!(map.get(&"MID".to_string()), None);
}

#[test]
fn token_symbols_have_codes() {
    let entropy = entropy(1);
    for (symbol, code) in [("A", 1), ("POL", 273_393), ("ZZZZZZ", 8_031_810_156)] {
        let file = generate_faucet_account(&faucet(symbol), &entropy[0]).unwrap();
        let read =
            miden_objects::account::Account::read_from_bytes(&file.account.to_bytes()).unwrap();
        let storage = read.storage();
        let slots = 0..storage.slots().len() as u8;
        let elements: Vec<_> =
            slots.flat_map(|slot| storage.get_item(slot).unwrap().as_elements().to_vec()).collect();
        assert!(elements.contains(&miden_objects::Felt::new(code)));
    }
}

#[test]
fn first_failure_is_reported() {
    let config = config(vec![
        AccountInput::BasicWallet(wallet(Some(vec![("NONE", 1)]))),
        AccountInput::BasicFungibleFaucet(faucet("MID")),
        AccountInput::BasicFungibleFaucet(faucet("bad")),
        AccountInput::BasicFungibleFaucet(faucet("worse")),
    ]);
    let expected = BootstrapError::Faucet { index: 2, error: GenerateError::InvalidTokenSymbol };
    assert_eq!(plan_genesis(&config, &entropy(4)).unwrap_err(), expected);
}

#[test]
fn wallets_hold_what_is_declared() {
    let config = config(vec![
        AccountInput::BasicFungibleFaucet(faucet("MID")),
        AccountInput::BasicWallet(wallet(Some(vec![("POL", 0), ("MID", (1 << 63) - 1)]))),
        AccountInput::BasicFungibleFaucet(faucet("POL")),
    ]);
    let plan = plan_genesis(&config, &entropy(3)).unwrap();
    let held: Vec<_> = plan.accounts[2]
        .account
        .vault
        .assets()
        .iter()
        .map(|asset| (asset.faucet_id(), asset.amount()))
        .collect();
    let (mid, pol) = (plan.accounts[0].account.id, plan.accounts[1].account.id);
    assert_eq!(held, vec![(pol, 0), (mid, (1 << 63) - 1)]);
    let kept: Vec<_> = plan.accounts.iter().map(|file| &file.auth_secret_key).collect();
    let drawn = entropy(3);
    let drawn: Vec<_> = drawn.iter().map(|values| &values.auth_secret_key).collect();
    assert_eq!(kept, drawn);
}

#[test]
fn default_configuration_needs_a_clock_after_the_epoch() {
    let config = GenesisConfig::default_by_clock(Ok(1717344256)).unwrap();
    assert_eq!(config.timestamp, 1717344256);
    assert!(GenesisConfig::default_by_clock(Err(ClockBeforeEpoch)).is_err());
}

#[test]
fn bootstrap_builds_a_wallet_with_drawn_keys() {
    let inputs = BasicWalletInputs { storage_mode: "network".to_string(), ..wallet(None) };
    let config = config(vec![AccountInput::BasicWallet(inputs)]);
    let plan = bootstrap_with(&config.clone(), &mut seeded()).unwrap();
    let file = &plan.accounts[0];
    assert_eq!((file.account.id.prefix() >> 4) & 3, 0);
    assert_eq!((file.account.id.prefix() >> 6) & 3, 1);
    let AuthSecretKey::RpoFalcon512(secret) = &file.auth_secret_key;
    let public: [miden_objects::Felt; 4] =
        SecretKey::read_from_bytes(secret).unwrap().public_key().into();
    assert_eq!(public.map(|felt| felt.as_int()), PUBLIC_KEY);
}

#[test]
fn accounts_have_the_declared_type_and_mode() {
    let entropy = entropy(1);
    for (name, mode) in [("public", 0), ("network", 1), ("private", 2)] {
        let inputs =
            BasicFungibleFaucetInputs { storage_mode: name.to_string(), ..faucet("MID") };
        let id = generate_faucet_account(&inputs, &entropy[0]).unwrap().account.id;
        assert_eq!(((id.prefix() >> 4) & 3, (id.prefix() >> 6) & 3), (2, mode));
        for (account_type, bits) in [
            (AccountType::RegularAccountImmutableCode, 0),
            (AccountType::RegularAccountUpdatableCode, 1),
        ] {
            let inputs = BasicWalletInputs {
                storage_mode: name.to_string(),
                account_type,
                ..wallet(None)
            };
            let id = generate_wallet_account(&inputs, &entropy[0], Vec::new()).unwrap().account.id;
            assert_eq!(((id.prefix() >> 4) & 3, (id.prefix() >> 6) & 3), (bits, mode));
        }
    }
}
