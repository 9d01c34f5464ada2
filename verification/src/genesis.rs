//! The genesis configuration: which accounts the chain starts with.

use crate::account;
use crate::account::{AccountId, AccountIdView, AccountType, AuthScheme, AuthSecretKey};
use crate::account::{FungibleAsset, FungibleAssetView};
use crate::miden;
use crate::random::SeededRng;
use crate::word::Word;
use std::time::{Duration, SystemTime, SystemTimeError};
use vstd::hash_map::StringHashMap;
use vstd::prelude::*;

verus! {

/// What the genesis block is made of.
#[derive(Debug, Clone)]
pub struct GenesisConfig {
    pub version: u32,
    pub timestamp: u32,
    pub accounts: Option<Vec<AccountInput>>,
}

/// An account to generate.
#[derive(Debug, Clone)]
pub enum AccountInput {
    BasicFungibleFaucet(BasicFungibleFaucetInputs),
    BasicWallet(BasicWalletInputs),
}

/// A faucet to generate.
#[derive(Debug, Clone)]
pub struct BasicFungibleFaucetInputs {
    pub auth_scheme: AuthSchemeInput,
    pub token_symbol: String,
    pub decimals: u8,
    pub max_supply: u64,
    pub storage_mode: String,
}

/// A wallet to generate, with the assets that it holds from the start.
#[derive(Debug, Clone)]
pub struct BasicWalletInputs {
    pub auth_scheme: AuthSchemeInput,
    pub storage_mode: String,
    pub account_type: AccountType,
    pub assets: Option<Vec<AssetInput>>,
}

/// An amount of the token of a faucet that is generated as well.
#[derive(Debug, Clone)]
pub struct AssetInput {
    pub token_symbol: String,
    pub amount: u64,
}

/// The authentication scheme of an account to generate.
#[derive(Debug, Clone, Copy, PartialEq, Eq, Structural)]
pub enum AuthSchemeInput {
    RpoFalcon512,
}

// AUTHENTICATION KEYS
// ------------------------------------------------------------------------------------------------

/// Whether a secret key belongs to an authentication scheme.
pub open spec fn keys_match(scheme: AuthScheme, secret: AuthSecretKey) -> bool {
    scheme.public_key() == miden::falcon_public_key(secret@)
}

impl AuthSchemeInput {
    /// Draws a fresh key for this scheme, with a random coin that is seeded with the next four
    /// integers of the generator. The returned scheme holds the public key of the returned secret
    /// key.
    pub fn gen_auth_keys(self, rng: &mut SeededRng) -> (keys: (AuthScheme, AuthSecretKey))
        ensures
            keys_match(keys.0, keys.1),
            keys.0 matches AuthScheme::RpoFalcon512 { pub_key } && pub_key@
                == miden::falcon_public_key(keys.1@),
            miden::is_falcon_key_of(old(rng)@.integers(), keys.1@),
            final(rng)@ == old(rng)@.advanced(8),
    {
        match self {
            AuthSchemeInput::RpoFalcon512 => {
                let key = miden::new_falcon_key(rng.next_integers());
                let pub_key = Word::new(key.public).unwrap();
                (AuthScheme::RpoFalcon512 { pub_key }, AuthSecretKey::RpoFalcon512(key.secret))
            },
        }
    }
}

// ASSETS
// ------------------------------------------------------------------------------------------------

/// The faucets by the symbols of their tokens.
pub struct AssetMap {
    faucets: StringHashMap<AccountId>,
}

impl View for AssetMap {
    type V = Map<Seq<char>, AccountIdView>;

    closed spec fn view(&self) -> Map<Seq<char>, AccountIdView> {
        self.faucets@.map_values(|id: AccountId| id@)
    }
}

impl AssetMap {
    /// A map without faucets.
    pub fn new() -> (map: AssetMap)
        ensures
            map@ == Map::<Seq<char>, AccountIdView>::empty(),
    {
        let map = AssetMap { faucets: StringHashMap::new() };
        assert(map@ =~= Map::<Seq<char>, AccountIdView>::empty());
        map
    }

    /// Enters the faucet of a token. A faucet that was entered for the same token before is replaced.
    pub fn insert(&mut self, token_symbol: &String, faucet_id: AccountId)
        ensures
            final(self)@ == old(self)@.insert(token_symbol@, faucet_id@),
    {
        self.faucets.insert(token_symbol.clone(), faucet_id);
        assert(self@ =~= old(self)@.insert(token_symbol@, faucet_id@));
    }

    /// The faucet of a token.
    pub fn get(&self, token_symbol: &String) -> (faucet_id: Option<AccountId>)
        ensures
            faucet_id is Some <==> self@.contains_key(token_symbol@),
            faucet_id matches Some(id) ==> id@ == self@[token_symbol@],
    {
        match self.faucets.get(token_symbol.as_str()) {
            Some(id) => Some(*id),
            None => None,
        }
    }
}

/// Why a declared asset cannot be made. Either error names the token.
#[derive(Debug, PartialEq, Eq)]
pub enum AssetInputError {
    /// No faucet is generated for the token.
    FaucetNotFound(String),
    /// The faucet cannot issue the amount.
    InvalidAsset(String),
}

/// The plain value of an [`AssetInputError`].
pub enum AssetInputErrorView {
    FaucetNotFound(Seq<char>),
    InvalidAsset(Seq<char>),
}

impl View for AssetInputError {
    type V = AssetInputErrorView;

    open spec fn view(&self) -> AssetInputErrorView {
        match *self {
            AssetInputError::FaucetNotFound(symbol) => AssetInputErrorView::FaucetNotFound(symbol@),
            AssetInputError::InvalidAsset(symbol) => AssetInputErrorView::InvalidAsset(symbol@),
        }
    }
}

/// The asset that an input declares, given the faucets by the symbols of their tokens.
pub open spec fn declared_asset(
    input: AssetInput,
    faucets: Map<Seq<char>, AccountIdView>,
) -> Result<FungibleAssetView, AssetInputErrorView> {
    let symbol = input.token_symbol@;
    if !faucets.contains_key(symbol) {
        Err(AssetInputErrorView::FaucetNotFound(symbol))
    } else {
        let asset = FungibleAssetView { faucet_id: faucets[symbol], amount: input.amount };
        if account::is_fungible_asset(asset) {
            Ok(asset)
        } else {
            Err(AssetInputErrorView::InvalidAsset(symbol))
        }
    }
}

impl AssetInput {
    /// The asset that this input declares, issued by the faucet of its token.
    pub fn to_assets(&self, asset_map: &AssetMap) -> (asset: Result<FungibleAsset, AssetInputError>)
        ensures
            match asset {
                Ok(a) => declared_asset(*self, asset_map@) == Ok::<_, AssetInputErrorView>(a@),
                Err(e) => declared_asset(*self, asset_map@) == Err::<FungibleAssetView, _>(e@),
            },
            asset matches Ok(a) ==> asset_map@.contains_key(self.token_symbol@) && a@.faucet_id
                == asset_map@[self.token_symbol@] && a@.amount == self.amount,
            asset is Ok <==> asset_map@.contains_key(self.token_symbol@) && (
            asset_map@[self.token_symbol@].prefix >> 4) & 3 == 2 && self.amount
                <= 0x7fff_ffff_ffff_ffff,
            asset matches Err(AssetInputError::FaucetNotFound(symbol)) ==> symbol@
                == self.token_symbol@ && !asset_map@.contains_key(symbol@),
            asset matches Err(AssetInputError::InvalidAsset(symbol)) ==> symbol@
                == self.token_symbol@ && asset_map@.contains_key(symbol@),
    {
        let faucet_id = match asset_map.get(&self.token_symbol) {
            Some(id) => id,
            None => {
                return Err(AssetInputError::FaucetNotFound(self.token_symbol.clone()));
            },
        };
        match FungibleAsset::new(faucet_id, self.amount) {
            Some(asset) => Ok(asset),
            None => Err(AssetInputError::InvalidAsset(self.token_symbol.clone())),
        }
    }
}

// DEFAULT CONFIGURATION
// ------------------------------------------------------------------------------------------------

/// A time of the machine's clock.
#[verifier::external_type_specification]
#[verifier::external_body]
pub struct ExSystemTime(SystemTime);

/// The error of a time that stands before another one.
#[verifier::external_type_specification]
#[verifier::external_body]
pub struct ExSystemTimeError(SystemTimeError);

/// `SystemTime::now`. Nothing is claimed: the result is the machine's clock.
pub assume_specification[ SystemTime::now ]() -> SystemTime;

/// `Duration::as_secs`. Nothing is claimed of the number.
pub assume_specification[ Duration::as_secs ](duration: &Duration) -> u64;

/// `SystemTime::duration_since`, for the start of the Unix epoch. Nothing is claimed of the time
/// between the two; the call fails if the clock stands before the epoch.
#[verifier::external_body]
fn since_epoch(now: SystemTime) -> (since: Result<Duration, SystemTimeError>) {
    now.duration_since(SystemTime::UNIX_EPOCH)
}

/// The clock stands before the start of the Unix epoch.
#[derive(Debug, Clone, Copy, PartialEq, Eq, Structural)]
pub struct ClockBeforeEpoch;

/// Whether `config` is the default configuration at a time in seconds since the epoch: one public
/// faucet for the token `POL`, stamped with the low 32 bits of the time.
pub open spec fn is_default_config(config: GenesisConfig, unix_seconds: u64) -> bool {
    &&& config.version == 1
    &&& config.timestamp == unix_seconds % 0x1_0000_0000
    &&& config.accounts matches Some(accounts)
    &&& accounts@.len() == 1
    &&& accounts@[0] matches AccountInput::BasicFungibleFaucet(faucet)
    &&& faucet.auth_scheme == AuthSchemeInput::RpoFalcon512
    &&& faucet.token_symbol@ == "POL"@
    &&& faucet.decimals == 12
    &&& faucet.max_supply == 1_000_000
    &&& faucet.storage_mode@ == "public"@
}

impl GenesisConfig {
    /// The default configuration at a time in seconds since the epoch.
    pub fn default_at(unix_seconds: u64) -> (config: GenesisConfig)
        ensures
            is_default_config(config, unix_seconds),
            config.version == 1,
            config.timestamp == unix_seconds % 0x1_0000_0000,
            config.accounts matches Some(accounts) && accounts@.len() == 1 && (
            accounts@[0] matches AccountInput::BasicFungibleFaucet(faucet)
                && faucet.token_symbol@ == "POL"@ && faucet.decimals == 12 && faucet.max_supply
                == 1_000_000 && faucet.storage_mode@ == "public"@),
    {
        assert(unix_seconds as u32 == unix_seconds % 0x1_0000_0000) by (bit_vector);
        GenesisConfig {
            version: 1,
            timestamp: #[verifier::truncate] (unix_seconds as u32),
            accounts: Some(
                vec![
                    AccountInput::BasicFungibleFaucet(
                        BasicFungibleFaucetInputs {
                            auth_scheme: AuthSchemeInput::RpoFalcon512,
                            token_symbol: "POL".to_string(),
                            decimals: 12,
                            max_supply: 1_000_000,
                            storage_mode: "public".to_string(),
                        },
                    ),
                ],
            ),
        }
    }

    /// The default configuration at the current time.
    pub fn default_now() -> (config: Result<GenesisConfig, ClockBeforeEpoch>)
        ensures
            config matches Ok(c) ==> exists|unix_seconds: u64| is_default_config(c, unix_seconds),
    {
        GenesisConfig::default_by_clock(
            match since_epoch(SystemTime::now()) {
                Ok(since) => Ok(since.as_secs()),
                Err(_) => Err(ClockBeforeEpoch),
            },
        )
    }

    /// The default configuration by a clock: that at the seconds since the epoch which the clock
    /// shows. There is none exactly if the clock stands before the epoch.
    pub fn default_by_clock(unix_seconds: Result<u64, ClockBeforeEpoch>) -> (config: Result<
        GenesisConfig,
        ClockBeforeEpoch,
    >)
        ensures
            match unix_seconds {
                Ok(seconds) => config matches Ok(c) && is_default_config(c, seconds),
                Err(_) => config is Err,
            },
    {
        match unix_seconds {
            Ok(seconds) => Ok(GenesisConfig::default_at(seconds)),
            Err(error) => Err(error),
        }
    }
}

// LAWS
// ------------------------------------------------------------------------------------------------

/// A declared asset is of the faucet that is entered for its token, and of the declared amount. There
/// is none exactly if no faucet is entered for the token, or if the faucet cannot issue the amount,
/// and the error says which.
pub proof fn law_declared_asset_is_issued_by_its_faucet(
    input: AssetInput,
    faucets: Map<Seq<char>, AccountIdView>,
)
    ensures
        match declared_asset(input, faucets) {
            Ok(asset) => {
                &&& faucets.contains_key(input.token_symbol@)
                &&& asset.faucet_id == faucets[input.token_symbol@]
                &&& asset.amount == input.amount
                &&& asset.amount < 0x8000_0000_0000_0000
                &&& (asset.faucet_id.prefix >> 4) & 3 == 2
            },
            Err(AssetInputErrorView::FaucetNotFound(symbol)) => {
                &&& symbol == input.token_symbol@
                &&& !faucets.contains_key(symbol)
            },
            Err(AssetInputErrorView::InvalidAsset(symbol)) => {
                &&& symbol == input.token_symbol@
                &&& faucets.contains_key(symbol)
                &&& (faucets[symbol].prefix >> 4) & 3 != 2 || input.amount
                    >= 0x8000_0000_0000_0000
            },
        },
{
}

/// The default configuration is one public faucet for a million `POL` with twelve decimals. Its
/// version is one, and its time is the given one as long as that fits in 32 bits.
pub proof fn law_default_config_declares_one_faucet(config: GenesisConfig, unix_seconds: u64)
    requires
        is_default_config(config, unix_seconds),
    ensures
        config.version == 1,
        unix_seconds < 0x1_0000_0000 ==> config.timestamp == unix_seconds,
        (unix_seconds - config.timestamp) % 0x1_0000_0000 == 0,
        config.accounts is Some,
        config.accounts->Some_0@.len() == 1,
        config.accounts->Some_0@[0] is BasicFungibleFaucet,
        ({
            let faucet = config.accounts->Some_0@[0]->BasicFungibleFaucet_0;
            &&& faucet.token_symbol@ == seq!['P', 'O', 'L']
            &&& faucet.decimals == 12
            &&& faucet.max_supply == 1_000_000
            &&& miden::storage_mode_named(faucet.storage_mode@) == Some(
                account::AccountStorageMode::Public,
            )
        }),
{
    reveal_strlit("POL");
    miden::lemma_storage_mode_names();
    assert("POL"@ =~= seq!['P', 'O', 'L']);
}

} // verus!
