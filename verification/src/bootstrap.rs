//! Generation of the genesis accounts from a configuration.

use crate::account;
use crate::account::{Account, AccountFile, AccountFileView, AccountId, AccountIdView, AccountView};
use crate::account::{AssetVault, AuthScheme, AuthSecretKey, FungibleAsset, FungibleAssetView};
use crate::account::{AccountStorageMode, AccountType};
use crate::genesis;
use crate::genesis::{AccountInput, AssetInput, AssetInputError, AssetInputErrorView, AssetMap};
use crate::genesis::{BasicFungibleFaucetInputs, BasicWalletInputs, GenesisConfig};
use crate::miden;
use crate::random::{SeededRng, SeededRngView};
use crate::text;
use crate::word::{Word, FIELD_MODULUS};
use vstd::prelude::*;

verus! {

// RANDOMNESS OF AN ACCOUNT
// ------------------------------------------------------------------------------------------------

/// The random values that go into one account: its keys, and the seed from which the search for its
/// identifier starts.
#[derive(Debug)]
pub struct AccountEntropy {
    pub auth_scheme: AuthScheme,
    pub auth_secret_key: AuthSecretKey,
    pub init_seed: [u8; 32],
}

impl AccountEntropy {
    /// Whether the secret key belongs to the authentication scheme.
    pub open spec fn well_keyed(self) -> bool {
        genesis::keys_match(self.auth_scheme, self.auth_secret_key)
    }

    /// The public key.
    pub fn pub_key(&self) -> (key: Word)
        ensures
            key@ == self.auth_scheme.public_key(),
            self.auth_scheme == (AuthScheme::RpoFalcon512 { pub_key: key }),
    {
        match self.auth_scheme {
            AuthScheme::RpoFalcon512 { pub_key } => pub_key,
        }
    }

    /// A copy of the secret key.
    pub fn secret_key(&self) -> (key: AuthSecretKey)
        ensures
            key@ == self.auth_secret_key@,
            match (key, self.auth_secret_key) {
                (AuthSecretKey::RpoFalcon512(copy), AuthSecretKey::RpoFalcon512(original)) => copy@
                    == original@,
            },
    {
        match &self.auth_secret_key {
            AuthSecretKey::RpoFalcon512(key) => {
                let copy = key.clone();
                assert(copy@ =~= key@);
                AuthSecretKey::RpoFalcon512(copy)
            },
        }
    }
}

// ONE ACCOUNT
// ------------------------------------------------------------------------------------------------

/// Why an account cannot be generated.
#[derive(Debug, Clone, Copy, PartialEq, Eq, Structural)]
pub enum GenerateError {
    /// The storage mode is none of the known ones.
    UnknownStorageMode,
    /// The token symbol is not made of one to six capital letters.
    InvalidTokenSymbol,
    /// The supply is not a field element.
    InvalidMaxSupply,
    /// The account itself cannot be built from the given values.
    CreationFailed,
}

/// The file of the faucet that an input describes, built with the given random values.
pub open spec fn faucet_file(
    input: BasicFungibleFaucetInputs,
    entropy: AccountEntropy,
) -> Result<AccountFileView, GenerateError> {
    match miden::storage_mode_named(input.storage_mode@) {
        None => Err(GenerateError::UnknownStorageMode),
        Some(mode) => if !miden::is_token_symbol(input.token_symbol@) {
            Err(GenerateError::InvalidTokenSymbol)
        } else if input.max_supply >= FIELD_MODULUS {
            Err(GenerateError::InvalidMaxSupply)
        } else if input.decimals > miden::MAX_DECIMALS || input.max_supply
            > account::MAX_FUNGIBLE_AMOUNT {
            Err(GenerateError::CreationFailed)
        } else {
            let built = miden::basic_faucet(
                entropy.init_seed@,
                miden::symbol_code(input.token_symbol@) as u64,
                input.decimals,
                input.max_supply,
                mode,
                entropy.auth_scheme.public_key(),
            );
            Ok(
                AccountFileView {
                    account: AccountView {
                        id: built.id,
                        vault: Seq::empty(),
                        storage: built.storage,
                        code: built.code,
                        nonce: 0,
                    },
                    account_seed: Some(built.seed),
                    auth_secret_key: entropy.auth_secret_key@,
                },
            )
        },
    }
}

/// The file of the wallet that an input describes, built with the given random values and assets.
///
/// The protocol's crates build wallets without assets only. What follows is decided here: the wallet
/// has the identifier, storage and code of the one without assets; it counts as existing already, so
/// its nonce is one and its seed is not kept.
pub open spec fn wallet_file(
    input: BasicWalletInputs,
    entropy: AccountEntropy,
    assets: Seq<FungibleAssetView>,
) -> Result<AccountFileView, GenerateError> {
    match miden::storage_mode_named(input.storage_mode@) {
        None => Err(GenerateError::UnknownStorageMode),
        Some(mode) => if !miden::is_regular(input.account_type) || !miden::distinct_faucets(assets) {
            Err(GenerateError::CreationFailed)
        } else {
            let built = miden::basic_wallet(
                entropy.init_seed@,
                input.account_type,
                mode,
                entropy.auth_scheme.public_key(),
            );
            Ok(
                AccountFileView {
                    account: AccountView {
                        id: built.id,
                        vault: assets,
                        storage: built.storage,
                        code: built.code,
                        nonce: 1,
                    },
                    account_seed: None,
                    auth_secret_key: entropy.auth_secret_key@,
                },
            )
        },
    }
}

/// Whether the plain name of a storage mode is the one of the mode in an identifier.
pub open spec fn has_named_mode(name: Seq<char>, id: AccountIdView) -> bool {
    &&& name == "public"@ ==> account::storage_mode_of(id) == AccountStorageMode::Public
    &&& name == "network"@ ==> account::storage_mode_of(id) == AccountStorageMode::Network
    &&& name == "private"@ ==> account::storage_mode_of(id) == AccountStorageMode::Private
}

/// Whether there is nothing in the description of a faucet that would be refused.
pub open spec fn is_sound_faucet(input: BasicFungibleFaucetInputs) -> bool {
    &&& miden::storage_mode_named(input.storage_mode@) is Some
    &&& miden::is_token_symbol(input.token_symbol@)
    &&& input.decimals <= miden::MAX_DECIMALS
    &&& input.max_supply <= account::MAX_FUNGIBLE_AMOUNT
}

/// Generates the faucet that an input describes.
pub fn generate_faucet_account(
    input: &BasicFungibleFaucetInputs,
    entropy: &AccountEntropy,
) -> (file: Result<AccountFile, GenerateError>)
    ensures
        match file {
            Ok(f) => faucet_file(*input, *entropy) == Ok::<_, GenerateError>(f@),
            Err(e) => faucet_file(*input, *entropy) == Err::<AccountFileView, _>(e),
        },
        file matches Ok(f) ==> account::account_type_of(f@.account.id)
            == AccountType::FungibleFaucet,
        file matches Ok(f) ==> miden::storage_mode_named(input.storage_mode@) == Some(
            account::storage_mode_of(f@.account.id),
        ),
        is_sound_faucet(*input) ==> file is Ok,
        file matches Ok(f) ==> has_named_mode(input.storage_mode@, f@.account.id),
        file matches Ok(f) ==> {
            let built = miden::basic_faucet(
                entropy.init_seed@,
                miden::symbol_code(input.token_symbol@) as u64,
                input.decimals,
                input.max_supply,
                miden::storage_mode_named(input.storage_mode@)->Some_0,
                entropy.auth_scheme->pub_key@,
            );
            &&& f.account.id@ == built.id
            &&& f.account.storage@ == built.storage
            &&& f.account.code@ == built.code
            &&& f.account.nonce == 0
            &&& f.account.vault@.len() == 0
            &&& f.account_seed matches Some(seed) && seed@ == built.seed
            &&& f.auth_secret_key@ == entropy.auth_secret_key@
        },
        file matches Ok(f) ==> (entropy.auth_scheme->pub_key@ == miden::falcon_public_key(
            entropy.auth_secret_key@,
        ) ==> f.account.id@ == miden::basic_faucet(
            entropy.init_seed@,
            miden::symbol_code(input.token_symbol@) as u64,
            input.decimals,
            input.max_supply,
            miden::storage_mode_named(input.storage_mode@)->Some_0,
            miden::falcon_public_key(f.auth_secret_key@),
        ).id),
        file is Ok <==> miden::storage_mode_named(input.storage_mode@) is Some
            && miden::is_token_symbol(input.token_symbol@) && input.decimals <= 12
            && input.max_supply < 0x8000_0000_0000_0000,
        file == Err::<AccountFile, _>(GenerateError::UnknownStorageMode)
            <==> miden::storage_mode_named(input.storage_mode@) is None,
        file == Err::<AccountFile, _>(GenerateError::InvalidTokenSymbol)
            <==> miden::storage_mode_named(input.storage_mode@) is Some && !miden::is_token_symbol(
            input.token_symbol@,
        ),
        file == Err::<AccountFile, _>(GenerateError::InvalidMaxSupply)
            <==> miden::storage_mode_named(input.storage_mode@) is Some && miden::is_token_symbol(
            input.token_symbol@,
        ) && input.max_supply >= 0xffff_ffff_0000_0001,
{
    let mode = match miden::parse_storage_mode(input.storage_mode.as_str()) {
        Ok(mode) => mode,
        Err(_) => {
            return Err(GenerateError::UnknownStorageMode);
        },
    };
    let symbol: u64 = match miden::parse_token_symbol(input.token_symbol.as_str()) {
        Ok(symbol) => symbol,
        Err(_) => {
            return Err(GenerateError::InvalidTokenSymbol);
        },
    };
    let max_supply: u64 = match miden::parse_felt(input.max_supply) {
        Ok(max_supply) => max_supply,
        Err(_) => {
            return Err(GenerateError::InvalidMaxSupply);
        },
    };
    proof {
        miden::lemma_storage_mode_names();
    }
    let built = match miden::build_faucet(
        entropy.init_seed,
        symbol,
        input.decimals,
        max_supply,
        mode,
        &entropy.pub_key(),
    ) {
        Ok(built) => built,
        Err(_) => {
            return Err(GenerateError::CreationFailed);
        },
    };
    let no_assets: Vec<FungibleAsset> = Vec::new();
    assert(account::assets_view(no_assets@) =~= Seq::empty());
    let account = Account {
        id: AccountId::from_parts(built.prefix, built.suffix),
        vault: AssetVault::from_parts(no_assets, built.vault),
        storage: built.storage,
        code: built.code,
        nonce: built.nonce,
    };
    let seed = Word::new(built.seed).unwrap();
    Ok(AccountFile::new(account, Some(seed), entropy.secret_key()))
}

/// Generates the wallet that an input describes, holding the given assets.
pub fn generate_wallet_account(
    input: &BasicWalletInputs,
    entropy: &AccountEntropy,
    assets: Vec<FungibleAsset>,
) -> (file: Result<AccountFile, GenerateError>)
    ensures
        match file {
            Ok(f) => wallet_file(*input, *entropy, account::assets_view(assets@)) == Ok::<
                _,
                GenerateError,
            >(f@),
            Err(e) => wallet_file(*input, *entropy, account::assets_view(assets@)) == Err::<
                AccountFileView,
                _,
            >(e),
        },
        file matches Ok(f) ==> account::account_type_of(f@.account.id) == input.account_type,
        file matches Ok(f) ==> miden::storage_mode_named(input.storage_mode@) == Some(
            account::storage_mode_of(f@.account.id),
        ),
        miden::storage_mode_named(input.storage_mode@) is Some && miden::is_regular(input.account_type)
            && miden::distinct_faucets(account::assets_view(assets@)) ==> file is Ok,
        file matches Ok(f) ==> has_named_mode(input.storage_mode@, f@.account.id),
        file matches Ok(f) ==> {
            let built = miden::basic_wallet(
                entropy.init_seed@,
                input.account_type,
                miden::storage_mode_named(input.storage_mode@)->Some_0,
                entropy.auth_scheme->pub_key@,
            );
            &&& f.account.id@ == built.id
            &&& f.account.storage@ == built.storage
            &&& f.account.code@ == built.code
            &&& f.account.nonce == 1
            &&& f.account.vault@.len() == assets@.len()
            &&& forall|j: int| 0 <= j < assets@.len() ==> f.account.vault@[j] == #[trigger] assets@[j]@
            &&& f.account_seed is None
            &&& f.auth_secret_key@ == entropy.auth_secret_key@
        },
        file matches Ok(f) ==> (entropy.auth_scheme->pub_key@ == miden::falcon_public_key(
            entropy.auth_secret_key@,
        ) ==> f.account.id@ == miden::basic_wallet(
            entropy.init_seed@,
            input.account_type,
            miden::storage_mode_named(input.storage_mode@)->Some_0,
            miden::falcon_public_key(f.auth_secret_key@),
        ).id),
        file == Err::<AccountFile, _>(GenerateError::UnknownStorageMode)
            <==> miden::storage_mode_named(input.storage_mode@) is None,
        file == Err::<AccountFile, _>(GenerateError::CreationFailed)
            <==> miden::storage_mode_named(input.storage_mode@) is Some && (
        input.account_type is FungibleFaucet || input.account_type is NonFungibleFaucet || exists|
            j: int,
            l: int,
        |
            0 <= j < l < assets@.len() && (#[trigger] assets@[j])@.faucet_id == (
            #[trigger] assets@[l])@.faucet_id),
{
    let mode = match miden::parse_storage_mode(input.storage_mode.as_str()) {
        Ok(mode) => mode,
        Err(_) => {
            return Err(GenerateError::UnknownStorageMode);
        },
    };
    proof {
        miden::lemma_storage_mode_names();
    }
    let built = match miden::build_wallet(
        entropy.init_seed,
        input.account_type,
        mode,
        &entropy.pub_key(),
    ) {
        Ok(built) => built,
        Err(_) => {
            return Err(GenerateError::CreationFailed);
        },
    };
    proof {
        let view = account::assets_view(assets@);
        assert forall|j: int, l: int|
            0 <= j < l < assets@.len() && (#[trigger] assets@[j])@.faucet_id == (
            #[trigger] assets@[l])@.faucet_id implies !miden::distinct_faucets(view) by {
            assert(view[j].faucet_id == view[l].faucet_id);
        }
        if !miden::distinct_faucets(view) {
            let (j, l) = choose|j: int, l: int|
                0 <= j < l < view.len() && #[trigger] view[j].faucet_id
                    == #[trigger] view[l].faucet_id;
            assert(assets@[j]@.faucet_id == assets@[l]@.faucet_id);
        }
    }
    let encoded = match miden::build_vault(&assets) {
        Ok(encoded) => encoded,
        Err(_) => {
            return Err(GenerateError::CreationFailed);
        },
    };
    let account = Account {
        id: AccountId::from_parts(built.prefix, built.suffix),
        vault: AssetVault::from_parts(assets, encoded),
        storage: built.storage,
        code: built.code,
        nonce: 1,
    };
    Ok(AccountFile::new(account, None, entropy.secret_key()))
}

// ALL ACCOUNTS
// ------------------------------------------------------------------------------------------------

/// Why a wallet cannot be generated.
#[derive(Debug, PartialEq, Eq)]
pub enum WalletError {
    /// One of its assets cannot be made.
    Asset(AssetInputError),
    /// The account cannot be generated.
    Generate(GenerateError),
}

/// The plain value of a [`WalletError`].
pub enum WalletErrorView {
    Asset(AssetInputErrorView),
    Generate(GenerateError),
}

impl View for WalletError {
    type V = WalletErrorView;

    open spec fn view(&self) -> WalletErrorView {
        match *self {
            WalletError::Asset(error) => WalletErrorView::Asset(error@),
            WalletError::Generate(error) => WalletErrorView::Generate(error),
        }
    }
}

/// Why the genesis accounts cannot be generated: the first account that fails, by its place in the
/// configuration.
#[derive(Debug, PartialEq, Eq)]
#[allow(inconsistent_fields)]
pub enum BootstrapError {
    Faucet { index: usize, error: GenerateError },
    Wallet { index: usize, error: WalletError },
}

/// The plain value of a [`BootstrapError`].
#[allow(inconsistent_fields)]
pub enum BootstrapErrorView {
    Faucet { index: int, error: GenerateError },
    Wallet { index: int, error: WalletErrorView },
}

impl View for BootstrapError {
    type V = BootstrapErrorView;

    open spec fn view(&self) -> BootstrapErrorView {
        match *self {
            BootstrapError::Faucet { index, error } => BootstrapErrorView::Faucet {
                index: index as int,
                error,
            },
            BootstrapError::Wallet { index, error } => BootstrapErrorView::Wallet {
                index: index as int,
                error: error@,
            },
        }
    }
}

/// All values if there is no error, else the first error with its place.
pub open spec fn collected<T, E>(results: Seq<Result<T, E>>) -> Result<Seq<T>, (int, E)>
    decreases results.len(),
{
    if results.len() == 0 {
        Ok(Seq::empty())
    } else {
        match collected(results.drop_last()) {
            Err(first) => Err(first),
            Ok(values) => match results.last() {
                Ok(value) => Ok(values.push(value)),
                Err(error) => Err((results.len() - 1, error)),
            },
        }
    }
}

/// The inputs of a configuration.
pub open spec fn inputs_of(config: GenesisConfig) -> Seq<AccountInput> {
    match config.accounts {
        Some(accounts) => accounts@,
        None => Seq::empty(),
    }
}

/// The places of the faucets, or of the wallets, among the inputs.
pub open spec fn places(inputs: Seq<AccountInput>, faucets: bool) -> Seq<int>
    decreases inputs.len(),
{
    if inputs.len() == 0 {
        Seq::empty()
    } else {
        let before = places(inputs.drop_last(), faucets);
        if (inputs.last() is BasicFungibleFaucet) == faucets {
            before.push(inputs.len() - 1)
        } else {
            before
        }
    }
}

/// What comes of the faucets among the inputs, in order. The faucet in place `k` among the faucets
/// is built with the random values in place `k`.
pub open spec fn faucet_results(
    inputs: Seq<AccountInput>,
    entropy: Seq<AccountEntropy>,
) -> Seq<Result<AccountFileView, GenerateError>> {
    places(inputs, true).map(
        |k: int, i: int| faucet_file(inputs[i]->BasicFungibleFaucet_0, entropy[k]),
    )
}

/// The faucets by the symbols of their tokens, given the files of all faucets. Of two faucets for
/// one token, the later counts.
pub open spec fn faucet_ids(inputs: Seq<AccountInput>, files: Seq<AccountFileView>) -> Map<
    Seq<char>,
    AccountIdView,
>
    decreases inputs.len(),
{
    if inputs.len() == 0 {
        Map::empty()
    } else {
        let before = faucet_ids(inputs.drop_last(), files);
        match inputs.last() {
            AccountInput::BasicFungibleFaucet(input) => before.insert(
                input.token_symbol@,
                files[places(inputs.drop_last(), true).len() as int].account.id,
            ),
            AccountInput::BasicWallet(_) => before,
        }
    }
}

/// The asset inputs of a wallet.
pub open spec fn asset_inputs(input: BasicWalletInputs) -> Seq<AssetInput> {
    match input.assets {
        Some(assets) => assets@,
        None => Seq::empty(),
    }
}

/// The assets that a wallet is declared to hold, or the first that cannot be made.
pub open spec fn declared_assets(
    inputs: Seq<AssetInput>,
    faucets: Map<Seq<char>, AccountIdView>,
) -> Result<Seq<FungibleAssetView>, (int, AssetInputErrorView)> {
    collected(inputs.map_values(|input: AssetInput| genesis::declared_asset(input, faucets)))
}

/// The file of a wallet with its declared assets.
pub open spec fn wallet_result(
    input: BasicWalletInputs,
    entropy: AccountEntropy,
    faucets: Map<Seq<char>, AccountIdView>,
) -> Result<AccountFileView, WalletErrorView> {
    match declared_assets(asset_inputs(input), faucets) {
        Err((_, error)) => Err(WalletErrorView::Asset(error)),
        Ok(assets) => match wallet_file(input, entropy, assets) {
            Ok(file) => Ok(file),
            Err(error) => Err(WalletErrorView::Generate(error)),
        },
    }
}

/// What comes of the wallets among the inputs, in order. The wallet in place `k` among the wallets
/// is built with the random values in place `k`.
pub open spec fn wallet_results(
    inputs: Seq<AccountInput>,
    entropy: Seq<AccountEntropy>,
    faucets: Map<Seq<char>, AccountIdView>,
) -> Seq<Result<AccountFileView, WalletErrorView>> {
    places(inputs, false).map(
        |k: int, i: int| wallet_result(inputs[i]->BasicWallet_0, entropy[k], faucets),
    )
}

/// The files of all accounts, faucets before wallets, or the first failure. No wallet is generated
/// unless all faucets are.
pub open spec fn genesis_accounts(
    inputs: Seq<AccountInput>,
    entropy: Seq<AccountEntropy>,
) -> Result<Seq<AccountFileView>, BootstrapErrorView> {
    match collected(faucet_results(inputs, entropy)) {
        Err((k, error)) => Err(
            BootstrapErrorView::Faucet { index: places(inputs, true)[k], error },
        ),
        Ok(faucets) => match collected(
            wallet_results(
                inputs,
                entropy.skip(faucets.len() as int),
                faucet_ids(inputs, faucets),
            ),
        ) {
            Err((k, error)) => Err(
                BootstrapErrorView::Wallet { index: places(inputs, false)[k], error },
            ),
            Ok(wallets) => Ok(faucets + wallets),
        },
    }
}

/// What the genesis block is seeded with.
#[derive(Debug)]
pub struct GenesisPlan {
    pub accounts: Vec<AccountFile>,
    pub version: u32,
    pub timestamp: u32,
}

/// The plain values of a list of account files.
pub open spec fn files_view(files: Seq<AccountFile>) -> Seq<AccountFileView> {
    files.map_values(|file: AccountFile| file@)
}

proof fn lemma_places_bounded(inputs: Seq<AccountInput>, faucets: bool)
    ensures
        places(inputs, faucets).len() <= inputs.len(),
        forall|k: int|
            0 <= k < places(inputs, faucets).len() ==> 0 <= #[trigger] places(inputs, faucets)[k]
                < inputs.len(),
        forall|k: int|
            0 <= k < places(inputs, faucets).len() ==> (inputs[#[trigger] places(
                inputs,
                faucets,
            )[k]] is BasicFungibleFaucet) == faucets,
    decreases inputs.len(),
{
    if inputs.len() > 0 {
        lemma_places_bounded(inputs.drop_last(), faucets);
        let before = places(inputs.drop_last(), faucets);
        assert forall|k: int| 0 <= k < places(inputs, faucets).len() implies (
        inputs[#[trigger] places(inputs, faucets)[k]] is BasicFungibleFaucet) == faucets by {
            if k < before.len() {
                assert(places(inputs, faucets)[k] == before[k]);
                assert(inputs.drop_last()[before[k]] == inputs[before[k]]);
            }
        }
    }
}

/// Faucets and wallets together are all inputs.
pub proof fn lemma_places_total(inputs: Seq<AccountInput>)
    ensures
        places(inputs, true).len() + places(inputs, false).len() == inputs.len(),
    decreases inputs.len(),
{
    if inputs.len() > 0 {
        lemma_places_total(inputs.drop_last());
    }
}

/// The first error of a list is the first error of every longer list.
proof fn lemma_collected_prefix<T, E>(results: Seq<Result<T, E>>, n: int)
    requires
        0 <= n <= results.len(),
        collected(results.take(n)) is Err,
    ensures
        collected(results) == collected(results.take(n)),
    decreases results.len() - n,
{
    if n < results.len() {
        assert(results.take(n + 1).drop_last() =~= results.take(n));
        lemma_collected_prefix(results, n + 1);
    } else {
        assert(results.take(n) =~= results);
    }
}

/// The places among the first `n` inputs come first.
proof fn lemma_places_prefix(inputs: Seq<AccountInput>, faucets: bool, n: int)
    requires
        0 <= n <= inputs.len(),
    ensures
        places(inputs.take(n), faucets).len() <= places(inputs, faucets).len(),
        places(inputs.take(n), faucets) == places(inputs, faucets).take(
            places(inputs.take(n), faucets).len() as int,
        ),
    decreases inputs.len() - n,
{
    if n < inputs.len() {
        assert(inputs.take(n + 1).drop_last() =~= inputs.take(n));
        lemma_places_prefix(inputs, faucets, n + 1);
        assert(places(inputs.take(n), faucets) =~= places(inputs, faucets).take(
            places(inputs.take(n), faucets).len() as int,
        ));
    } else {
        assert(inputs.take(n) =~= inputs);
        assert(places(inputs, faucets).take(places(inputs, faucets).len() as int) =~= places(
            inputs,
            faucets,
        ));
    }
}

/// Files of later faucets do not change which faucets the first inputs give.
proof fn lemma_faucet_ids_local(
    inputs: Seq<AccountInput>,
    files: Seq<AccountFileView>,
    more: Seq<AccountFileView>,
)
    requires
        files.len() >= places(inputs, true).len(),
    ensures
        faucet_ids(inputs, files + more) == faucet_ids(inputs, files),
    decreases inputs.len(),
{
    if inputs.len() > 0 {
        lemma_faucet_ids_local(inputs.drop_last(), files, more);
    }
}

/// What comes of the first `n` inputs comes first among what comes of all inputs.
proof fn lemma_results_prefix<R>(
    inputs: Seq<AccountInput>,
    faucets: bool,
    n: int,
    of_first: spec_fn(int, int) -> R,
    of_all: spec_fn(int, int) -> R,
)
    requires
        0 <= n <= inputs.len(),
        forall|k: int, i: int| 0 <= i < n ==> #[trigger] of_first(k, i) == of_all(k, i),
    ensures
        places(inputs.take(n), faucets).map(of_first) == places(inputs, faucets).map(of_all).take(
            places(inputs.take(n), faucets).len() as int,
        ),
{
    lemma_places_prefix(inputs, faucets, n);
    lemma_places_bounded(inputs.take(n), faucets);
    let first = places(inputs.take(n), faucets);
    let left = first.map(of_first);
    let right = places(inputs, faucets).map(of_all).take(first.len() as int);
    assert forall|k: int| 0 <= k < left.len() implies left[k] == right[k] by {
        assert(places(inputs, faucets)[k] == first[k]);
        assert(of_first(k, first[k]) == of_all(k, first[k]));
    }
    assert(left =~= right);
}

proof fn lemma_faucet_results_prefix(
    inputs: Seq<AccountInput>,
    entropy: Seq<AccountEntropy>,
    n: int,
)
    requires
        0 <= n <= inputs.len(),
    ensures
        faucet_results(inputs.take(n), entropy) == faucet_results(inputs, entropy).take(
            places(inputs.take(n), true).len() as int,
        ),
{
    lemma_results_prefix(
        inputs,
        true,
        n,
        |k: int, i: int| faucet_file(inputs.take(n)[i]->BasicFungibleFaucet_0, entropy[k]),
        |k: int, i: int| faucet_file(inputs[i]->BasicFungibleFaucet_0, entropy[k]),
    );
}

proof fn lemma_wallet_results_prefix(
    inputs: Seq<AccountInput>,
    entropy: Seq<AccountEntropy>,
    faucets: Map<Seq<char>, AccountIdView>,
    n: int,
)
    requires
        0 <= n <= inputs.len(),
    ensures
        wallet_results(inputs.take(n), entropy, faucets) == wallet_results(
            inputs,
            entropy,
            faucets,
        ).take(places(inputs.take(n), false).len() as int),
{
    lemma_results_prefix(
        inputs,
        false,
        n,
        |k: int, i: int| wallet_result(inputs.take(n)[i]->BasicWallet_0, entropy[k], faucets),
        |k: int, i: int| wallet_result(inputs[i]->BasicWallet_0, entropy[k], faucets),
    );
}

/// Whether all entered accounts are fungible faucets.
pub open spec fn only_fungible_faucets(faucets: Map<Seq<char>, AccountIdView>) -> bool {
    forall|symbol: Seq<char>| #[trigger]
        faucets.contains_key(symbol) ==> account::account_type_of(faucets[symbol])
            == AccountType::FungibleFaucet
}

/// Whether more of a token is declared than there can be in one asset.
pub open spec fn too_large(inputs: Seq<AssetInput>, symbol: Seq<char>) -> bool {
    exists|j: int|
        0 <= j < inputs.len() && (#[trigger] inputs[j]).token_symbol@ == symbol && inputs[j].amount
            > account::MAX_FUNGIBLE_AMOUNT
}

/// Whether an account has the type and the storage mode that an input asks for.
pub open spec fn is_account_of(id: AccountIdView, input: AccountInput) -> bool {
    match input {
        AccountInput::BasicFungibleFaucet(input) => {
            &&& account::account_type_of(id) == AccountType::FungibleFaucet
            &&& miden::storage_mode_named(input.storage_mode@) == Some(account::storage_mode_of(id))
        },
        AccountInput::BasicWallet(input) => {
            &&& account::account_type_of(id) == input.account_type
            &&& miden::storage_mode_named(input.storage_mode@) == Some(account::storage_mode_of(id))
        },
    }
}

/// Whether accounts have the types and the storage modes that the faucets, or the wallets, among the
/// inputs ask for, in order.
pub open spec fn are_accounts_of(
    files: Seq<AccountFileView>,
    inputs: Seq<AccountInput>,
    faucets: bool,
) -> bool {
    &&& files.len() == places(inputs, faucets).len()
    &&& forall|k: int|
        0 <= k < files.len() ==> is_account_of(
            (#[trigger] files[k]).account.id,
            inputs[places(inputs, faucets)[k]],
        )
}

/// Whether the accounts are first the faucets and then the wallets that the inputs ask for.
pub open spec fn are_all_accounts_of(
    files: Seq<AccountFileView>,
    inputs: Seq<AccountInput>,
) -> bool {
    let n = places(inputs, true).len() as int;
    &&& files.len() == inputs.len()
    &&& are_accounts_of(files.take(n), inputs, true)
    &&& are_accounts_of(files.skip(n), inputs, false)
}

/// One more account for one more input.
proof fn lemma_accounts_of_push(
    files: Seq<AccountFileView>,
    file: AccountFileView,
    inputs: Seq<AccountInput>,
    faucets: bool,
)
    requires
        inputs.len() > 0,
        (inputs.last() is BasicFungibleFaucet) == faucets,
        are_accounts_of(files, inputs.drop_last(), faucets),
        is_account_of(file.account.id, inputs.last()),
    ensures
        are_accounts_of(files.push(file), inputs, faucets),
{
    let before = inputs.drop_last();
    lemma_places_bounded(before, faucets);
    assert forall|k: int| 0 <= k < files.len() + 1 implies is_account_of(
        (#[trigger] files.push(file)[k]).account.id,
        inputs[places(inputs, faucets)[k]],
    ) by {
        if k < files.len() {
            assert(files[k] == files.push(file)[k]);
            assert(before[places(before, faucets)[k]] == inputs[places(inputs, faucets)[k]]);
        }
    }
}

/// An input of the other sort does not matter.
proof fn lemma_accounts_of_skip(
    files: Seq<AccountFileView>,
    inputs: Seq<AccountInput>,
    faucets: bool,
)
    requires
        inputs.len() > 0,
        (inputs.last() is BasicFungibleFaucet) != faucets,
        are_accounts_of(files, inputs.drop_last(), faucets),
    ensures
        are_accounts_of(files, inputs, faucets),
{
    let before = inputs.drop_last();
    lemma_places_bounded(before, faucets);
    assert forall|k: int| 0 <= k < files.len() implies is_account_of(
        (#[trigger] files[k]).account.id,
        inputs[places(inputs, faucets)[k]],
    ) by {
        assert(before[places(before, faucets)[k]] == inputs[places(inputs, faucets)[k]]);
    }
}

// SOUND CONFIGURATIONS
// ------------------------------------------------------------------------------------------------

/// Whether a faucet for a token is among the inputs.
pub open spec fn has_faucet(inputs: Seq<AccountInput>, symbol: Seq<char>) -> bool {
    exists|i: int|
        0 <= i < inputs.len() && ((#[trigger] inputs[i]) matches AccountInput::BasicFungibleFaucet(
            faucet,
        ) && faucet.token_symbol@ == symbol)
}

/// Whether there is nothing in the description of a wallet that would be refused: each of its assets
/// is of a token that has a faucet, and not too large.
pub open spec fn is_sound_wallet(input: BasicWalletInputs, inputs: Seq<AccountInput>) -> bool {
    &&& miden::storage_mode_named(input.storage_mode@) is Some
    &&& miden::is_regular(input.account_type)
    &&& forall|j: int|
        0 <= j < asset_inputs(input).len() ==> (#[trigger] asset_inputs(input)[j]).amount
            <= account::MAX_FUNGIBLE_AMOUNT && has_faucet(
            inputs,
            asset_inputs(input)[j].token_symbol@,
        )
}

/// Whether there is nothing in the descriptions of the accounts that would be refused.
pub open spec fn are_sound(inputs: Seq<AccountInput>) -> bool {
    forall|i: int|
        0 <= i < inputs.len() ==> match #[trigger] inputs[i] {
            AccountInput::BasicFungibleFaucet(input) => is_sound_faucet(input),
            AccountInput::BasicWallet(input) => is_sound_wallet(input, inputs),
        }
}

/// Whether the assets of a wallet are of different faucets.
pub open spec fn assets_apart(
    input: BasicWalletInputs,
    faucets: Map<Seq<char>, AccountIdView>,
) -> bool {
    forall|j: int, l: int|
        0 <= j < l < asset_inputs(input).len() ==> faucets[(#[trigger] asset_inputs(
            input,
        )[j]).token_symbol@] != faucets[(#[trigger] asset_inputs(input)[l]).token_symbol@]
}

/// Whether the assets of each wallet are of different faucets.
pub open spec fn all_assets_apart(
    inputs: Seq<AccountInput>,
    faucets: Map<Seq<char>, AccountIdView>,
) -> bool {
    forall|i: int|
        0 <= i < inputs.len() ==> ((#[trigger] inputs[i]) matches AccountInput::BasicWallet(input)
            ==> assets_apart(input, faucets))
}

/// The faucets by the symbols of their tokens, as they are generated with the given random values.
pub open spec fn generated_faucets(
    inputs: Seq<AccountInput>,
    entropy: Seq<AccountEntropy>,
) -> Map<Seq<char>, AccountIdView> {
    faucet_ids(inputs, collected(faucet_results(inputs, entropy))->Ok_0)
}

/// Whether no wallet has more than one asset.
pub open spec fn at_most_one_asset_each(inputs: Seq<AccountInput>) -> bool {
    forall|i: int|
        0 <= i < inputs.len() ==> ((#[trigger] inputs[i]) matches AccountInput::BasicWallet(input)
            ==> asset_inputs(input).len() <= 1)
}

/// Every token that has a faucet among the inputs is known.
proof fn lemma_faucets_are_known(
    inputs: Seq<AccountInput>,
    files: Seq<AccountFileView>,
    symbol: Seq<char>,
)
    requires
        has_faucet(inputs, symbol),
    ensures
        faucet_ids(inputs, files).contains_key(symbol),
    decreases inputs.len(),
{
    let i = choose|i: int|
        0 <= i < inputs.len() && ((#[trigger] inputs[i]) matches AccountInput::BasicFungibleFaucet(
            faucet,
        ) && faucet.token_symbol@ == symbol);
    if i < inputs.len() - 1 {
        assert(inputs.drop_last()[i] == inputs[i]);
        lemma_faucets_are_known(inputs.drop_last(), files, symbol);
    }
}

/// Each asset that is made of the declared ones is issued by the faucet of its token.
proof fn lemma_declared_faucets(
    inputs: Seq<AssetInput>,
    faucets: Map<Seq<char>, AccountIdView>,
    assets: Seq<FungibleAssetView>,
)
    requires
        declared_assets(inputs, faucets) == Ok::<_, (int, AssetInputErrorView)>(assets),
    ensures
        assets.len() == inputs.len(),
        forall|j: int|
            0 <= j < assets.len() ==> (#[trigger] assets[j]).faucet_id
                == faucets[inputs[j].token_symbol@],
    decreases inputs.len(),
{
    let f = |input: AssetInput| genesis::declared_asset(input, faucets);
    let results = inputs.map_values(f);
    if inputs.len() > 0 {
        assert(results.drop_last() =~= inputs.drop_last().map_values(f));
        assert(assets.drop_last() =~= collected(results.drop_last())->Ok_0);
        lemma_declared_faucets(inputs.drop_last(), faucets, assets.drop_last());
        assert forall|j: int| 0 <= j < assets.len() implies (#[trigger] assets[j]).faucet_id
            == faucets[inputs[j].token_symbol@] by {
            if j < assets.len() - 1 {
                assert(assets.drop_last()[j] == assets[j]);
                assert(inputs.drop_last()[j] == inputs[j]);
            }
        }
    }
}

// GENERATION
// ------------------------------------------------------------------------------------------------

/// The assets that a wallet is declared to hold, or the first that cannot be made.
fn resolve_assets(input: &BasicWalletInputs, asset_map: &AssetMap) -> (assets: Result<
    Vec<FungibleAsset>,
    AssetInputError,
>)
    ensures
        match assets {
            Ok(a) => declared_assets(asset_inputs(*input), asset_map@) == Ok::<
                _,
                (int, AssetInputErrorView),
            >(account::assets_view(a@)),
            Err(e) => declared_assets(asset_inputs(*input), asset_map@) matches Err(first)
                && first.1 == e@,
        },
        assets matches Err(AssetInputError::InvalidAsset(symbol)) ==> (only_fungible_faucets(
            asset_map@,
        ) ==> too_large(asset_inputs(*input), symbol@)),
        assets matches Err(AssetInputError::FaucetNotFound(symbol)) ==> exists|j: int|
            0 <= j < asset_inputs(*input).len() && (#[trigger] asset_inputs(
                *input,
            )[j]).token_symbol@ == symbol@ && !asset_map@.contains_key(symbol@),
{
    let mut assets: Vec<FungibleAsset> = Vec::new();
    if let Some(inputs) = &input.assets {
        let ghost results = inputs@.map_values(
            |input: AssetInput| genesis::declared_asset(input, asset_map@),
        );
        assert(results.take(0) =~= Seq::empty());
        assert(account::assets_view(assets@) =~= Seq::empty());
        for i in 0..inputs.len()
            invariant
                results == inputs@.map_values(
                    |input: AssetInput| genesis::declared_asset(input, asset_map@),
                ),
                collected(results.take(i as int)) == Ok::<_, (int, AssetInputErrorView)>(
                    account::assets_view(assets@),
                ),
                asset_inputs(*input) == inputs@,
        {
            assert(results.take(i + 1).drop_last() =~= results.take(i as int));
            let ghost before = assets@;
            match inputs[i].to_assets(asset_map) {
                Ok(asset) => {
                    assets.push(asset);
                    assert(account::assets_view(assets@) =~= account::assets_view(before).push(
                        asset@,
                    ));
                },
                Err(error) => {
                    proof {
                        lemma_collected_prefix(results, i + 1);
                        assert(asset_inputs(*input)[i as int] == inputs@[i as int]);
                    }
                    return Err(error);
                },
            }
        }
        assert(results.take(inputs@.len() as int) =~= results);
    } else {
        assert(account::assets_view(assets@) =~= Seq::empty());
        assert(asset_inputs(*input).map_values(
            |input: AssetInput| genesis::declared_asset(input, asset_map@),
        ) =~= Seq::empty());
    }
    Ok(assets)
}

/// Generates the faucets among the inputs, and enters them by the symbols of their tokens.
fn generate_faucets(inputs: &Vec<AccountInput>, entropy: &Vec<AccountEntropy>) -> (res: Result<
    (Vec<AccountFile>, AssetMap),
    BootstrapError,
>)
    requires
        entropy@.len() >= inputs@.len(),
    ensures
        match res {
            Ok((files, asset_map)) => {
                &&& collected(faucet_results(inputs@, entropy@)) == Ok::<_, (int, GenerateError)>(
                    files_view(files@),
                )
                &&& asset_map@ == faucet_ids(inputs@, files_view(files@))
                &&& files@.len() == places(inputs@, true).len()
                &&& only_fungible_faucets(asset_map@)
                &&& are_accounts_of(files_view(files@), inputs@, true)
            },
            Err(e) => {
                &&& collected(faucet_results(inputs@, entropy@)) matches Err((k, error))
                &&& e@ == (BootstrapErrorView::Faucet { index: places(inputs@, true)[k], error })
                &&& !are_sound(inputs@)
                &&& e matches BootstrapError::Faucet { index, .. }
                &&& index < inputs@.len()
                &&& inputs@[index as int] is BasicFungibleFaucet
            },
        },
{
    let mut files: Vec<AccountFile> = Vec::new();
    let mut asset_map = AssetMap::new();
    proof {
        assert(inputs@.take(0) =~= Seq::empty());
        assert(faucet_results(inputs@.take(0), entropy@) =~= Seq::empty());
        assert(files_view(files@) =~= Seq::empty());
    }
    for i in 0..inputs.len()
        invariant
            entropy@.len() >= inputs@.len(),
            collected(faucet_results(inputs@.take(i as int), entropy@)) == Ok::<
                _,
                (int, GenerateError),
            >(files_view(files@)),
            asset_map@ == faucet_ids(inputs@.take(i as int), files_view(files@)),
            files@.len() == places(inputs@.take(i as int), true).len(),
            only_fungible_faucets(asset_map@),
            are_accounts_of(files_view(files@), inputs@.take(i as int), true),
    {
        proof {
            assert(inputs@.take(i + 1).drop_last() =~= inputs@.take(i as int));
            assert(inputs@.take(i + 1).last() == inputs@[i as int]);
            lemma_places_bounded(inputs@.take(i as int), true);
            lemma_faucet_results_prefix(inputs@.take(i + 1), entropy@, i as int);
            assert(inputs@.take(i + 1).take(i as int) =~= inputs@.take(i as int));
        }
        let ghost results = faucet_results(inputs@.take(i + 1), entropy@);
        let ghost before = files@;
        match &inputs[i] {
            AccountInput::BasicFungibleFaucet(input) => {
                assert(results.drop_last() =~= faucet_results(inputs@.take(i as int), entropy@));
                assert(results.last() == faucet_file(*input, entropy@[before.len() as int]));
                match generate_faucet_account(input, &entropy[files.len()]) {
                    Ok(file) => {
                        asset_map.insert(&input.token_symbol, file.account.id);
                        files.push(file);
                        proof {
                            assert(files_view(files@) =~= files_view(before).push(file@));
                            assert(files_view(files@) =~= files_view(before) + seq![file@]);
                            lemma_accounts_of_push(
                                files_view(before),
                                file@,
                                inputs@.take(i + 1),
                                true,
                            );
                            lemma_faucet_ids_local(
                                inputs@.take(i as int),
                                files_view(before),
                                seq![file@],
                            );
                        }
                    },
                    Err(error) => {
                        proof {
                            lemma_faucet_results_prefix(inputs@, entropy@, i + 1);
                            lemma_places_prefix(inputs@, true, i + 1);
                            lemma_collected_prefix(
                                faucet_results(inputs@, entropy@),
                                results.len() as int,
                            );
                            assert(places(inputs@, true)[before.len() as int] == places(
                                inputs@.take(i + 1),
                                true,
                            )[before.len() as int]);
                        }
                        return Err(BootstrapError::Faucet { index: i, error });
                    },
                }
            },
            AccountInput::BasicWallet(_) => {
                assert(results =~= faucet_results(inputs@.take(i as int), entropy@));
                proof {
                    lemma_accounts_of_skip(files_view(files@), inputs@.take(i + 1), true);
                }
            },
        }
    }
    assert(inputs@.take(inputs@.len() as int) =~= inputs@);
    Ok((files, asset_map))
}

/// Whether an error that refuses an asset of a known faucet does so for its amount.
pub open spec fn refuses_only_large_amounts(
    error: BootstrapError,
    inputs: Seq<AccountInput>,
) -> bool {
    error matches BootstrapError::Wallet {
        index,
        error: WalletError::Asset(AssetInputError::InvalidAsset(symbol)),
    } ==> too_large(asset_inputs(inputs[index as int]->BasicWallet_0), symbol@)
}

/// Generates the wallets among the inputs. The random values of the first of them stand in place
/// `offset`.
fn generate_wallets(
    inputs: &Vec<AccountInput>,
    entropy: &Vec<AccountEntropy>,
    offset: usize,
    asset_map: &AssetMap,
) -> (res: Result<Vec<AccountFile>, BootstrapError>)
    requires
        offset == places(inputs@, true).len(),
        entropy@.len() >= inputs@.len(),
    ensures
        match res {
            Ok(files) => {
                &&& collected(wallet_results(inputs@, entropy@.skip(offset as int), asset_map@))
                    == Ok::<_, (int, WalletErrorView)>(files_view(files@))
                &&& are_accounts_of(files_view(files@), inputs@, false)
            },
            Err(e) => {
                &&& collected(wallet_results(inputs@, entropy@.skip(offset as int), asset_map@))
                    matches Err((k, error))
                &&& e@ == (BootstrapErrorView::Wallet { index: places(inputs@, false)[k], error })
                &&& only_fungible_faucets(asset_map@) ==> refuses_only_large_amounts(e, inputs@)
                &&& e matches BootstrapError::Wallet { index, .. }
                &&& index < inputs@.len()
                &&& inputs@[index as int] is BasicWallet
            },
        },
        res is Err && only_fungible_faucets(asset_map@) && all_assets_apart(inputs@, asset_map@) && (
        forall|symbol: Seq<char>| #[trigger]
            has_faucet(inputs@, symbol) ==> asset_map@.contains_key(symbol)) ==> !are_sound(inputs@),
{
    let mut files: Vec<AccountFile> = Vec::new();
    let ghost rest = entropy@.skip(offset as int);
    proof {
        assert(inputs@.take(0) =~= Seq::empty());
        assert(wallet_results(inputs@.take(0), rest, asset_map@) =~= Seq::empty());
        assert(files_view(files@) =~= Seq::empty());
        lemma_places_total(inputs@);
    }
    for i in 0..inputs.len()
        invariant
            offset + places(inputs@, false).len() == inputs@.len(),
            entropy@.len() >= inputs@.len(),
            rest == entropy@.skip(offset as int),
            collected(wallet_results(inputs@.take(i as int), rest, asset_map@)) == Ok::<
                _,
                (int, WalletErrorView),
            >(files_view(files@)),
            files@.len() == places(inputs@.take(i as int), false).len(),
            are_accounts_of(files_view(files@), inputs@.take(i as int), false),
    {
        proof {
            assert(inputs@.take(i + 1).drop_last() =~= inputs@.take(i as int));
            assert(inputs@.take(i + 1).last() == inputs@[i as int]);
            lemma_places_prefix(inputs@, false, i + 1);
            lemma_wallet_results_prefix(inputs@.take(i + 1), rest, asset_map@, i as int);
            assert(inputs@.take(i + 1).take(i as int) =~= inputs@.take(i as int));
        }
        let ghost results = wallet_results(inputs@.take(i + 1), rest, asset_map@);
        let ghost before = files@;
        match &inputs[i] {
            AccountInput::BasicWallet(input) => {
                let ghost values = rest[before.len() as int];
                assert(results.drop_last() =~= wallet_results(
                    inputs@.take(i as int),
                    rest,
                    asset_map@,
                ));
                assert(results.last() == wallet_result(*input, values, asset_map@));
                assert(entropy@[offset + before.len()] == values);
                assert(inputs@[i as int] == AccountInput::BasicWallet(*input));
                let file = match resolve_assets(input, asset_map) {
                    Ok(assets) => {
                        proof {
                            lemma_declared_faucets(
                                asset_inputs(*input),
                                asset_map@,
                                account::assets_view(assets@),
                            );
                        }
                        match generate_wallet_account(
                            input,
                            &entropy[offset + files.len()],
                            assets,
                        ) {
                            Ok(file) => Ok(file),
                            Err(error) => Err(WalletError::Generate(error)),
                        }
                    },
                    Err(error) => Err(WalletError::Asset(error)),
                };
                match file {
                    Ok(file) => {
                        files.push(file);
                        proof {
                            assert(files_view(files@) =~= files_view(before).push(file@));
                            lemma_accounts_of_push(
                                files_view(before),
                                file@,
                                inputs@.take(i + 1),
                                false,
                            );
                        }
                    },
                    Err(error) => {
                        proof {
                            lemma_wallet_results_prefix(inputs@, rest, asset_map@, i + 1);
                            lemma_collected_prefix(
                                wallet_results(inputs@, rest, asset_map@),
                                results.len() as int,
                            );
                            assert(places(inputs@, false)[before.len() as int] == places(
                                inputs@.take(i + 1),
                                false,
                            )[before.len() as int]);
                        }
                        return Err(BootstrapError::Wallet { index: i, error });
                    },
                }
            },
            AccountInput::BasicFungibleFaucet(_) => {
                assert(results =~= wallet_results(inputs@.take(i as int), rest, asset_map@));
                proof {
                    lemma_accounts_of_skip(files_view(files@), inputs@.take(i + 1), false);
                }
            },
        }
    }
    assert(inputs@.take(inputs@.len() as int) =~= inputs@);
    Ok(files)
}

/// Whether `plan` is what comes of generating the accounts of a configuration with the given random
/// values.
pub open spec fn is_plan(
    plan: Result<GenesisPlan, BootstrapError>,
    config: GenesisConfig,
    entropy: Seq<AccountEntropy>,
) -> bool {
    match plan {
        Ok(p) => {
            &&& genesis_accounts(inputs_of(config), entropy) == Ok::<_, BootstrapErrorView>(
                files_view(p.accounts@),
            )
            &&& p.version == config.version
            &&& p.timestamp == config.timestamp
        },
        Err(e) => genesis_accounts(inputs_of(config), entropy) == Err::<Seq<AccountFileView>, _>(
            e@,
        ),
    }
}

/// Generates the accounts of a configuration with the given random values, one set for each account.
pub fn plan_genesis(config: &GenesisConfig, entropy: &Vec<AccountEntropy>) -> (plan: Result<
    GenesisPlan,
    BootstrapError,
>)
    requires
        entropy@.len() >= inputs_of(*config).len(),
    ensures
        is_plan(plan, *config, entropy@),
        plan matches Ok(p) ==> are_all_accounts_of(files_view(p.accounts@), inputs_of(*config)),
        plan matches Err(e) ==> refuses_only_large_amounts(e, inputs_of(*config)),
        are_sound(inputs_of(*config)) && all_assets_apart(
            inputs_of(*config),
            generated_faucets(inputs_of(*config), entropy@),
        ) ==> plan is Ok,
        plan matches Ok(p) ==> p.version == config.version && p.timestamp == config.timestamp
            && p.accounts@.len() == (match config.accounts {
            Some(accounts) => accounts@.len() as int,
            None => 0,
        }),
        config.accounts is None ==> plan is Ok,
        plan matches Err(e) ==> match e {
            BootstrapError::Faucet { index, .. } => index < config.accounts->Some_0@.len()
                && config.accounts->Some_0@[index as int] is BasicFungibleFaucet,
            BootstrapError::Wallet { index, .. } => index < config.accounts->Some_0@.len()
                && config.accounts->Some_0@[index as int] is BasicWallet,
        },
{
    let none: Vec<AccountInput> = Vec::new();
    let inputs = match &config.accounts {
        Some(accounts) => accounts,
        None => &none,
    };
    assert(inputs@ =~= inputs_of(*config));
    let (mut accounts, asset_map) = match generate_faucets(inputs, entropy) {
        Ok(generated) => generated,
        Err(error) => {
            return Err(error);
        },
    };
    let ghost faucets = accounts@;
    proof {
        assert forall|symbol: Seq<char>| #[trigger] has_faucet(inputs@, symbol) implies asset_map@
            .contains_key(symbol) by {
            lemma_faucets_are_known(inputs@, files_view(accounts@), symbol);
        }
    }
    let mut wallets = match generate_wallets(inputs, entropy, accounts.len(), &asset_map) {
        Ok(wallets) => wallets,
        Err(error) => {
            return Err(error);
        },
    };
    let ghost generated = wallets@;
    accounts.append(&mut wallets);
    proof {
        assert(files_view(accounts@) =~= files_view(faucets) + files_view(generated));
        let n = places(inputs@, true).len() as int;
        assert(files_view(accounts@).take(n) =~= files_view(faucets));
        assert(files_view(accounts@).skip(n) =~= files_view(generated));
        lemma_places_total(inputs@);
    }
    Ok(GenesisPlan { accounts, version: config.version, timestamp: config.timestamp })
}

/// The number of words that are drawn for one account.
pub const WORDS_PER_ACCOUNT: u128 = 40;

/// Whether the random values of an account are those that a generator gives: first the keys, then
/// the seed.
pub open spec fn is_drawn_from(entropy: AccountEntropy, rng: SeededRngView) -> bool {
    &&& entropy.well_keyed()
    &&& miden::is_falcon_key_of(rng.integers(), entropy.auth_secret_key@)
    &&& entropy.init_seed@ == rng.advanced(8).bytes()
}

/// The generator after the random values of some accounts were drawn.
pub open spec fn after_accounts(rng: SeededRngView, accounts: nat) -> SeededRngView
    decreases accounts,
{
    if accounts == 0 {
        rng
    } else {
        after_accounts(rng, (accounts - 1) as nat).advanced(WORDS_PER_ACCOUNT)
    }
}

/// Draws the random values of one account.
fn draw_account(input: &AccountInput, rng: &mut SeededRng) -> (entropy: AccountEntropy)
    ensures
        is_drawn_from(entropy, old(rng)@),
        final(rng)@ == old(rng)@.advanced(WORDS_PER_ACCOUNT),
{
    let auth_scheme = match input {
        AccountInput::BasicFungibleFaucet(input) => input.auth_scheme,
        AccountInput::BasicWallet(input) => input.auth_scheme,
    };
    let (auth_scheme, auth_secret_key) = auth_scheme.gen_auth_keys(rng);
    let init_seed = rng.next_bytes();
    AccountEntropy { auth_scheme, auth_secret_key, init_seed }
}

/// Whether these are the random values that a generator gives for the accounts of a configuration,
/// one account after the other.
pub open spec fn is_entropy_for(
    entropy: Seq<AccountEntropy>,
    config: GenesisConfig,
    rng: SeededRngView,
) -> bool {
    &&& entropy.len() == inputs_of(config).len()
    &&& forall|k: int|
        0 <= k < entropy.len() ==> is_drawn_from(
            #[trigger] entropy[k],
            after_accounts(rng, k as nat),
        )
}

/// Draws the random values of all accounts of a configuration, in the order in which the accounts
/// are generated.
pub fn draw_entropy(config: &GenesisConfig, rng: &mut SeededRng) -> (entropy: Vec<AccountEntropy>)
    ensures
        is_entropy_for(entropy@, *config, old(rng)@),
        final(rng)@ == after_accounts(old(rng)@, inputs_of(*config).len()),
{
    let mut entropy: Vec<AccountEntropy> = Vec::new();
    if let Some(inputs) = &config.accounts {
        assert(inputs@.take(0) =~= Seq::empty());
        for i in 0..inputs.len()
            invariant
                entropy@.len() == places(inputs@.take(i as int), true).len(),
                rng@ == after_accounts(old(rng)@, entropy@.len()),
                forall|k: int|
                    0 <= k < entropy@.len() ==> is_drawn_from(
                        #[trigger] entropy@[k],
                        after_accounts(old(rng)@, k as nat),
                    ),
        {
            assert(inputs@.take(i + 1).drop_last() =~= inputs@.take(i as int));
            if let AccountInput::BasicFungibleFaucet(_) = &inputs[i] {
                entropy.push(draw_account(&inputs[i], rng));
            }
        }
        assert(inputs@.take(inputs@.len() as int) =~= inputs@);
        let ghost faucets = entropy@.len();
        for i in 0..inputs.len()
            invariant
                faucets == places(inputs@, true).len(),
                entropy@.len() == faucets + places(inputs@.take(i as int), false).len(),
                rng@ == after_accounts(old(rng)@, entropy@.len()),
                forall|k: int|
                    0 <= k < entropy@.len() ==> is_drawn_from(
                        #[trigger] entropy@[k],
                        after_accounts(old(rng)@, k as nat),
                    ),
        {
            assert(inputs@.take(i + 1).drop_last() =~= inputs@.take(i as int));
            if let AccountInput::BasicWallet(_) = &inputs[i] {
                entropy.push(draw_account(&inputs[i], rng));
            }
        }
        proof {
            lemma_places_total(inputs@);
        }
    }
    entropy
}

/// Generates the accounts of a configuration with the random values that a generator gives.
pub fn bootstrap_with(config: &GenesisConfig, rng: &mut SeededRng) -> (plan: Result<
    GenesisPlan,
    BootstrapError,
>)
    ensures
        exists|entropy: Seq<AccountEntropy>| #[trigger]
            is_plan(plan, *config, entropy) && is_entropy_for(entropy, *config, old(rng)@),
        plan matches Ok(p) ==> are_all_accounts_of(files_view(p.accounts@), inputs_of(*config)),
        plan matches Err(e) ==> refuses_only_large_amounts(e, inputs_of(*config)),
        are_sound(inputs_of(*config)) && at_most_one_asset_each(inputs_of(*config)) ==> plan is Ok,
        final(rng)@ == after_accounts(old(rng)@, inputs_of(*config).len()),
        plan matches Ok(p) ==> p.version == config.version && p.timestamp == config.timestamp
            && p.accounts@.len() == (match config.accounts {
            Some(accounts) => accounts@.len() as int,
            None => 0,
        }),
        config.accounts is None ==> plan is Ok,
        plan matches Err(e) ==> match e {
            BootstrapError::Faucet { index, .. } => index < config.accounts->Some_0@.len()
                && config.accounts->Some_0@[index as int] is BasicFungibleFaucet,
            BootstrapError::Wallet { index, .. } => index < config.accounts->Some_0@.len()
                && config.accounts->Some_0@[index as int] is BasicWallet,
        },
{
    let entropy = draw_entropy(config, rng);
    let plan = plan_genesis(config, &entropy);
    assert(is_plan(plan, *config, entropy@));
    plan
}

/// Generates the accounts of a configuration with fresh random values.
pub fn bootstrap(config: &GenesisConfig) -> (plan: Result<GenesisPlan, BootstrapError>)
    ensures
        exists|entropy: Seq<AccountEntropy>, seed: Seq<u8>|
            #![trigger is_plan(plan, *config, entropy), SeededRngView::fresh(seed)]
            is_plan(plan, *config, entropy) && seed.len() == 32 && is_entropy_for(
                entropy,
                *config,
                SeededRngView::fresh(seed),
            ),
        plan matches Ok(p) ==> are_all_accounts_of(files_view(p.accounts@), inputs_of(*config)),
        plan matches Err(e) ==> refuses_only_large_amounts(e, inputs_of(*config)),
        are_sound(inputs_of(*config)) && at_most_one_asset_each(inputs_of(*config)) ==> plan is Ok,
        plan matches Ok(p) ==> p.version == config.version && p.timestamp == config.timestamp
            && p.accounts@.len() == (match config.accounts {
            Some(accounts) => accounts@.len() as int,
            None => 0,
        }),
        config.accounts is None ==> plan is Ok,
        plan matches Err(e) ==> match e {
            BootstrapError::Faucet { index, .. } => index < config.accounts->Some_0@.len()
                && config.accounts->Some_0@[index as int] is BasicFungibleFaucet,
            BootstrapError::Wallet { index, .. } => index < config.accounts->Some_0@.len()
                && config.accounts->Some_0@[index as int] is BasicWallet,
        },
{
    let mut rng = SeededRng::from_entropy();
    let ghost start = rng@;
    let plan = bootstrap_with(config, &mut rng);
    proof {
        let entropy = choose|entropy: Seq<AccountEntropy>| #[trigger]
            is_plan(plan, *config, entropy) && is_entropy_for(entropy, *config, start);
        assert(start == SeededRngView::fresh(start.seed));
        assert(is_plan(plan, *config, entropy));
    }
    plan
}

// FILES AND MESSAGES
// ------------------------------------------------------------------------------------------------

/// The name of the file of the account in place `index`.
pub open spec fn account_file_name_spec(index: nat) -> Seq<char> {
    "account_"@ + text::decimal(index) + ".mac"@
}

/// The name of the file to which the account in place `index` is written.
pub fn account_file_name(index: usize) -> (name: String)
    ensures
        name@ == account_file_name_spec(index as nat),
        name@ == "account_"@ + text::decimal(index as nat) + ".mac"@,
{
    text::join("account_", text::decimal_text(index).as_str(), ".mac")
}

/// A file that is to be written: its name, and what it holds.
#[derive(Debug, PartialEq, Eq)]
pub struct FileToWrite {
    pub name: String,
    pub contents: Vec<u8>,
}

/// What the genesis block is made from: the accounts without their secrets.
#[derive(Debug)]
pub struct GenesisState {
    pub accounts: Vec<Account>,
    pub version: u32,
    pub timestamp: u32,
}

impl GenesisPlan {
    /// The files of the accounts with their secrets, in the order in which they are written.
    pub fn account_files(&self) -> (files: Vec<FileToWrite>)
        ensures
            files@.len() == self.accounts@.len(),
            forall|k: int|
                0 <= k < files@.len() ==> (#[trigger] files@[k]).name@ == account_file_name_spec(
                    k as nat,
                ) && files@[k].contents@ == account::account_file_encoding(self.accounts@[k]@),
            forall|k: int|
                0 <= k < files@.len() ==> (#[trigger] files@[k]).name@ == "account_"@
                    + text::decimal(k as nat) + ".mac"@,
    {
        let mut files: Vec<FileToWrite> = Vec::new();
        for k in 0..self.accounts.len()
            invariant
                files@.len() == k,
                forall|j: int|
                    0 <= j < k ==> (#[trigger] files@[j]).name@ == account_file_name_spec(j as nat)
                        && files@[j].contents@ == account::account_file_encoding(
                        self.accounts@[j]@,
                    ),
        {
            files.push(
                FileToWrite { name: account_file_name(k), contents: self.accounts[k].to_bytes() },
            );
        }
        files
    }

    /// The accounts without their secrets.
    pub fn into_genesis_state(self) -> (state: GenesisState)
        ensures
            state.accounts@ == self.accounts@.map_values(|file: AccountFile| file.account),
            state.accounts@.len() == self.accounts@.len(),
            forall|k: int|
                0 <= k < self.accounts@.len() ==> #[trigger] state.accounts@[k]
                    == self.accounts@[k].account,
            state.version == self.version,
            state.timestamp == self.timestamp,
    {
        let ghost all = self.accounts@;
        let mut accounts: Vec<Account> = Vec::new();
        for file in files: self.accounts
            invariant
                files.seq() == all,
                accounts@ == all.take(files.index() as int).map_values(
                    |file: AccountFile| file.account,
                ),
        {
            accounts.push(file.account);
            assert(accounts@ =~= all.take(files.index() + 1).map_values(
                |file: AccountFile| file.account,
            ));
        }
        assert(all.take(all.len() as int) =~= all);
        GenesisState { accounts, version: self.version, timestamp: self.timestamp }
    }
}

/// The message for an account whose file cannot be written.
pub fn account_write_error(index: usize, path: &str) -> (message: String)
    ensures
        message@ == "failed to write data for account "@ + text::decimal(index as nat)
            + " to file "@ + path@,
{
    let subject = text::join(
        "failed to write data for account ",
        text::decimal_text(index).as_str(),
        " to file ",
    );
    text::concat(subject.as_str(), path)
}

/// The message for genesis data that cannot be written.
pub fn genesis_write_error(path: &str) -> (message: String)
    ensures
        message@ == "failed to write genesis data to file "@ + path@,
{
    text::concat("failed to write genesis data to file ", path)
}

/// The message for a configuration that cannot be read.
pub fn config_read_error(path: &str) -> (message: String)
    ensures
        message@ == "failed to read genesis configuration from "@ + path@,
{
    text::concat("failed to read genesis configuration from ", path)
}

/// The messages of an error, the outermost first. What the innermost cause has to say is not among
/// them.
pub open spec fn error_messages(error: BootstrapErrorView) -> Seq<Seq<char>> {
    match error {
        BootstrapErrorView::Faucet { index, error } => {
            let outer = seq![
                "failed to generate faucet accounts"@,
                "failed to generate account "@ + text::decimal(index as nat),
            ];
            if error == GenerateError::InvalidMaxSupply {
                outer.push("failed to parse max supply"@)
            } else {
                outer
            }
        },
        BootstrapErrorView::Wallet { index, error } => {
            let outer = seq![
                "failed to generate basic wallet accounts"@,
                "Failed to generate wallet account "@ + text::decimal(index as nat),
            ];
            match error {
                WalletErrorView::Asset(AssetInputErrorView::FaucetNotFound(symbol)) => outer.push(
                    "Faucet for token symbol '"@ + symbol + "' not found in asset map"@,
                ),
                WalletErrorView::Asset(AssetInputErrorView::InvalidAsset(symbol)) => outer.push(
                    "Failed to create fungible asset for faucet '"@ + symbol + "'"@,
                ),
                WalletErrorView::Generate(_) => outer,
            }
        },
    }
}

/// The texts of a list of strings.
pub open spec fn texts(strings: Seq<String>) -> Seq<Seq<char>> {
    strings.map_values(|string: String| string@)
}

impl BootstrapError {
    /// The messages of the error, the outermost first.
    pub fn messages(&self) -> (messages: Vec<String>)
        ensures
            texts(messages@) == error_messages(self@),
            match *self {
                BootstrapError::Faucet { index, error } => {
                    &&& messages@.len() == (if error is InvalidMaxSupply {
                        3int
                    } else {
                        2
                    })
                    &&& messages@[0]@ == "failed to generate faucet accounts"@
                    &&& messages@[1]@ == "failed to generate account "@ + text::decimal(
                        index as nat,
                    )
                    &&& error is InvalidMaxSupply ==> messages@[2]@ == "failed to parse max supply"@
                },
                BootstrapError::Wallet { index, error } => {
                    &&& messages@.len() == (if error is Asset {
                        3int
                    } else {
                        2
                    })
                    &&& messages@[0]@ == "failed to generate basic wallet accounts"@
                    &&& messages@[1]@ == "Failed to generate wallet account "@ + text::decimal(
                        index as nat,
                    )
                    &&& error matches WalletError::Asset(AssetInputError::FaucetNotFound(symbol))
                        ==> messages@[2]@ == "Faucet for token symbol '"@ + symbol@
                        + "' not found in asset map"@
                    &&& error matches WalletError::Asset(AssetInputError::InvalidAsset(symbol))
                        ==> messages@[2]@ == "Failed to create fungible asset for faucet '"@
                        + symbol@ + "'"@
                },
            },
    {
        let mut messages: Vec<String> = Vec::new();
        match self {
            BootstrapError::Faucet { index, error } => {
                messages.push("failed to generate faucet accounts".to_string());
                messages.push(
                    text::concat("failed to generate account ", text::decimal_text(*index).as_str()),
                );
                if let GenerateError::InvalidMaxSupply = error {
                    messages.push("failed to parse max supply".to_string());
                }
            },
            BootstrapError::Wallet { index, error } => {
                messages.push("failed to generate basic wallet accounts".to_string());
                messages.push(
                    text::concat("Failed to generate wallet account ", text::decimal_text(*index).as_str()),
                );
                match error {
                    WalletError::Asset(AssetInputError::FaucetNotFound(symbol)) => {
                        messages.push(
                            text::join(
                                "Faucet for token symbol '",
                                symbol.as_str(),
                                "' not found in asset map",
                            ),
                        );
                    },
                    WalletError::Asset(AssetInputError::InvalidAsset(symbol)) => {
                        messages.push(
                            text::join(
                                "Failed to create fungible asset for faucet '",
                                symbol.as_str(),
                                "'",
                            ),
                        );
                    },
                    WalletError::Generate(_) => {},
                }
            },
        }
        assert(texts(messages@) =~= error_messages(self@));
        messages
    }
}

} // verus!
