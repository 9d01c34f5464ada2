//! The calls into the protocol's crates that the genesis logic makes.
//!
//! Everything here is a thin wrapper from plain values to plain values. What such a call returns is
//! stated where a few lines can say it, and named where they cannot.

use crate::account;
use crate::account::{
    AccountId, AccountIdView, AccountStorageMode, AccountType, FungibleAsset, FungibleAssetView,
};
use crate::word;
use crate::word::{Word, FIELD_MODULUS};
use miden_lib::account::faucets::create_basic_fungible_faucet;
use miden_lib::account::wallets::create_basic_wallet;
use miden_lib::AuthScheme;
use miden_objects::account::AccountIdAnchor;
use miden_objects::asset::TokenSymbol;
use miden_objects::crypto::dsa::rpo_falcon512::{PublicKey, SecretKey};
use miden_objects::crypto::rand::RpoRandomCoin;
use miden_objects::utils::serde::Serializable;
use miden_objects::{
    AccountError, AccountIdError, AssetError, AssetVaultError, Felt, TokenSymbolError,
};
use vstd::prelude::*;

verus! {

/// The error of building an account.
#[verifier::external_type_specification]
#[verifier::external_body]
pub struct ExAccountError(AccountError);

/// The error of reading a part of an account identifier.
#[verifier::external_type_specification]
#[verifier::external_body]
pub struct ExAccountIdError(AccountIdError);

/// The error of building an asset.
#[verifier::external_type_specification]
#[verifier::external_body]
pub struct ExAssetError(AssetError);

/// The error of building a vault.
#[verifier::external_type_specification]
#[verifier::external_body]
pub struct ExAssetVaultError(AssetVaultError);

/// The error of reading a token symbol.
#[verifier::external_type_specification]
#[verifier::external_body]
pub struct ExTokenSymbolError(TokenSymbolError);

// KEYS
// ------------------------------------------------------------------------------------------------

/// A secret key in its serialized form, with the public key that belongs to it.
pub struct FalconKey {
    pub secret: Vec<u8>,
    pub public: [u64; 4],
}

/// The public key that `rpo_falcon512::SecretKey::public_key` gives for a serialized secret key.
pub uninterp spec fn falcon_public_key(secret: Seq<u8>) -> Seq<u64>;

/// Whether a serialized secret key is one that `rpo_falcon512::SecretKey::with_rng` gives with the
/// random coin of a seed.
pub uninterp spec fn is_falcon_key_of(seed: Seq<u64>, secret: Seq<u8>) -> bool;

/// `rpo_falcon512::SecretKey::with_rng`, with `RpoRandomCoin::new` on the field elements of four
/// integers, and `SecretKey::public_key`.
///
/// Claimed: the secret key is one that the random coin gives, and the public key is the one of the
/// secret key, and is a word. That the coin gives one key only is not claimed, since the search for
/// the key computes with floating point.
#[verifier::external_body]
pub(crate) fn new_falcon_key(seed: [u64; 4]) -> (key: FalconKey)
    ensures
        is_falcon_key_of(seed@, key.secret@),
        key.public@ == falcon_public_key(key.secret@),
        word::is_word(key.public@),
{
    let mut coin = RpoRandomCoin::new(seed.map(Felt::new));
    let secret = SecretKey::with_rng(&mut coin);
    let public: [Felt; 4] = secret.public_key().into();
    FalconKey { secret: secret.to_bytes(), public: public.map(|felt| felt.as_int()) }
}

// PARSING
// ------------------------------------------------------------------------------------------------

/// Whether a text is made of ASCII characters.
pub open spec fn is_ascii(text: Seq<char>) -> bool {
    forall|i: int| 0 <= i < text.len() ==> (#[trigger] text[i] as u32) < 128
}

/// An ASCII text in lower case.
pub open spec fn ascii_lowercase(text: Seq<char>) -> Seq<char> {
    text.map_values(
        |c: char|
            if 'A' <= c <= 'Z' {
                (c as u32 + 32) as char
            } else {
                c
            },
    )
}

/// The storage mode that an ASCII text names in any case, if it names one.
pub open spec fn ascii_storage_mode(text: Seq<char>) -> Option<AccountStorageMode> {
    let name = ascii_lowercase(text);
    if name == account::storage_mode_name(AccountStorageMode::Public) {
        Some(AccountStorageMode::Public)
    } else if name == account::storage_mode_name(AccountStorageMode::Network) {
        Some(AccountStorageMode::Network)
    } else if name == account::storage_mode_name(AccountStorageMode::Private) {
        Some(AccountStorageMode::Private)
    } else {
        None
    }
}

/// The storage mode that a text with other characters names, if it names one.
pub uninterp spec fn unicode_storage_mode(text: Seq<char>) -> Option<AccountStorageMode>;

/// The storage mode that a text names, if it names one.
pub open spec fn storage_mode_named(text: Seq<char>) -> Option<AccountStorageMode> {
    if is_ascii(text) {
        ascii_storage_mode(text)
    } else {
        unicode_storage_mode(text)
    }
}

/// The names of the storage modes name them.
pub proof fn lemma_storage_mode_names()
    ensures
        storage_mode_named("public"@) == Some(AccountStorageMode::Public),
        storage_mode_named("network"@) == Some(AccountStorageMode::Network),
        storage_mode_named("private"@) == Some(AccountStorageMode::Private),
{
    reveal_strlit("public");
    reveal_strlit("network");
    reveal_strlit("private");
    assert(ascii_lowercase("public"@) =~= "public"@);
    assert(ascii_lowercase("network"@) =~= "network"@);
    assert(ascii_lowercase("private"@) =~= "private"@);
    assert("network"@[0] != "private"@[0]);
}

/// `AccountStorageMode::try_from`.
///
/// Claimed: an ASCII text is accepted exactly if it is the name of a mode in any case, and gives that
/// mode. Of other texts, some of which turn into such a name in lower case, only that the result
/// depends on the text alone.
#[verifier::external_body]
pub(crate) fn parse_storage_mode(text: &str) -> (mode: Result<AccountStorageMode, AccountIdError>)
    ensures
        is_ascii(text@) ==> (mode is Ok <==> ascii_storage_mode(text@) is Some),
        is_ascii(text@) && mode is Ok ==> ascii_storage_mode(text@) == Some(mode->Ok_0),
        !is_ascii(text@) ==> (mode is Ok <==> unicode_storage_mode(text@) is Some),
        !is_ascii(text@) && mode is Ok ==> unicode_storage_mode(text@) == Some(mode->Ok_0),
{
    match miden_objects::account::AccountStorageMode::try_from(text)? {
        miden_objects::account::AccountStorageMode::Public => Ok(AccountStorageMode::Public),
        miden_objects::account::AccountStorageMode::Network => Ok(AccountStorageMode::Network),
        miden_objects::account::AccountStorageMode::Private => Ok(AccountStorageMode::Private),
    }
}

/// The code of the longest token symbol in its last place, `ZZZZZZ`.
pub const MAX_SYMBOL_CODE: u64 = 8_031_810_156;

/// Whether a text is a token symbol: one to six capital Latin letters.
pub open spec fn is_token_symbol(text: Seq<char>) -> bool {
    &&& 1 <= text.len() <= 6
    &&& forall|i: int| 0 <= i < text.len() ==> 'A' <= #[trigger] text[i] <= 'Z'
}

/// The letters of a token symbol read as a number in base 26.
pub open spec fn symbol_digits(text: Seq<char>) -> int
    decreases text.len(),
{
    if text.len() == 0 {
        0
    } else {
        symbol_digits(text.drop_last()) * 26 + (text.last() as int - 'A' as int)
    }
}

/// The code of a token symbol: its letters in base 26, followed by its length.
pub open spec fn symbol_code(text: Seq<char>) -> int {
    symbol_digits(text) * 26 + text.len()
}

/// `TokenSymbol::try_from`, for a text.
///
/// Claimed: exactly one to six capital Latin letters are accepted, and the result is their code.
#[verifier::external_body]
pub(crate) fn parse_token_symbol(text: &str) -> (code: Result<u64, TokenSymbolError>)
    ensures
        code is Ok <==> is_token_symbol(text@),
        code matches Ok(c) ==> (c == symbol_code(text@) && c <= MAX_SYMBOL_CODE),
{
    let symbol = TokenSymbol::try_from(text)?;
    Ok(Felt::from(symbol).as_int())
}

/// `Felt::try_from`, for an integer.
///
/// Claimed: exactly the integers below the order of the field are accepted, unchanged.
#[verifier::external_body]
pub(crate) fn parse_felt(value: u64) -> (felt: Result<u64, String>)
    ensures
        felt is Ok <==> value < FIELD_MODULUS,
        felt matches Ok(f) ==> f == value,
{
    Felt::try_from(value).map(|felt| felt.as_int())
}

// ACCOUNTS
// ------------------------------------------------------------------------------------------------

/// A newly built account in parts. Vault, storage and code are in their serialized form; `seed` is
/// the seed from which the identifier follows.
pub struct NewAccount {
    pub prefix: u64,
    pub suffix: u64,
    pub vault: Vec<u8>,
    pub storage: Vec<u8>,
    pub code: Vec<u8>,
    pub nonce: u64,
    pub seed: [u64; 4],
}

/// What distinguishes one newly built account from another.
pub struct NewAccountView {
    pub id: AccountIdView,
    pub storage: Seq<u8>,
    pub code: Seq<u8>,
    pub seed: Seq<u64>,
}

impl View for NewAccount {
    type V = NewAccountView;

    open spec fn view(&self) -> NewAccountView {
        NewAccountView {
            id: AccountIdView { prefix: self.prefix, suffix: self.suffix },
            storage: self.storage@,
            code: self.code@,
            seed: self.seed@,
        }
    }
}

/// The faucet account that `create_basic_fungible_faucet` builds, where it builds one.
pub uninterp spec fn basic_faucet(
    init_seed: Seq<u8>,
    symbol: u64,
    decimals: u8,
    max_supply: u64,
    storage_mode: AccountStorageMode,
    pub_key: Seq<u64>,
) -> NewAccountView;

/// The largest number of decimals that a faucet can have.
pub const MAX_DECIMALS: u8 = 12;

/// `create_basic_fungible_faucet`, anchored before the genesis block.
///
/// Claimed: the result depends on the arguments alone. Exactly too many decimals and a supply above
/// the largest amount are refused: the other checks are on components that are always the same. A
/// built account is a fungible faucet with the given storage mode and a valid identifier, its vault is
/// empty and its nonce is zero.
#[verifier::external_body]
pub(crate) fn build_faucet(
    init_seed: [u8; 32],
    symbol: u64,
    decimals: u8,
    max_supply: u64,
    storage_mode: AccountStorageMode,
    pub_key: &Word,
) -> (account: Result<NewAccount, AccountError>)
    requires
        symbol <= MAX_SYMBOL_CODE,
        max_supply < FIELD_MODULUS,
    ensures
        account is Ok <==> (decimals <= MAX_DECIMALS && max_supply <= account::MAX_FUNGIBLE_AMOUNT),
        account matches Ok(a) ==> a@ == basic_faucet(
            init_seed@,
            symbol,
            decimals,
            max_supply,
            storage_mode,
            pub_key@,
        ),
        account matches Ok(a) ==> account::is_account_id(a@.id),
        account matches Ok(a) ==> account::account_type_of(a@.id) == AccountType::FungibleFaucet,
        account matches Ok(a) ==> account::storage_mode_of(a@.id) == storage_mode,
        account matches Ok(a) ==> word::is_word(a.seed@),
        account matches Ok(a) ==> a.vault@ == vault_encoding(Seq::empty()),
        account matches Ok(a) ==> a.nonce == 0,
{
    let mode = storage_mode.name().parse().expect("the name of a mode");
    let symbol = TokenSymbol::try_from(Felt::new(symbol)).expect("a code of a symbol");
    let scheme = AuthScheme::RpoFalcon512 { pub_key: PublicKey::new(pub_key.elements().map(Felt::new)) };
    let (account, seed) = create_basic_fungible_faucet(
        init_seed, AccountIdAnchor::PRE_GENESIS, symbol, decimals, Felt::new(max_supply), mode, scheme)?;
    let (id, vault, storage, code, nonce) = account.into_parts();
    Ok(NewAccount {
        prefix: id.prefix().as_u64(),
        suffix: id.suffix().as_int(),
        vault: vault.to_bytes(),
        storage: storage.to_bytes(),
        code: code.to_bytes(),
        nonce: nonce.as_int(),
        seed: seed.map(|felt| felt.as_int()),
    })
}

/// The wallet account that `create_basic_wallet` builds, where it builds one.
pub uninterp spec fn basic_wallet(
    init_seed: Seq<u8>,
    account_type: AccountType,
    storage_mode: AccountStorageMode,
    pub_key: Seq<u64>,
) -> NewAccountView;

/// Whether accounts of a type are regular accounts, not faucets.
pub open spec fn is_regular(account_type: AccountType) -> bool {
    account_type == AccountType::RegularAccountImmutableCode || account_type
        == AccountType::RegularAccountUpdatableCode
}

/// `create_basic_wallet`, anchored before the genesis block.
///
/// Claimed: the result depends on the arguments alone. Exactly the types of faucets are refused: the
/// other checks are on components that are always the same. A built account has the given type and
/// storage mode and a valid identifier, its vault is empty and its nonce is zero.
#[verifier::external_body]
pub(crate) fn build_wallet(
    init_seed: [u8; 32],
    account_type: AccountType,
    storage_mode: AccountStorageMode,
    pub_key: &Word,
) -> (account: Result<NewAccount, AccountError>)
    ensures
        account is Ok <==> is_regular(account_type),
        account matches Ok(a) ==> a@ == basic_wallet(
            init_seed@,
            account_type,
            storage_mode,
            pub_key@,
        ),
        account matches Ok(a) ==> account::is_account_id(a@.id),
        account matches Ok(a) ==> account::account_type_of(a@.id) == account_type,
        account matches Ok(a) ==> account::storage_mode_of(a@.id) == storage_mode,
        account matches Ok(a) ==> word::is_word(a.seed@),
        account matches Ok(a) ==> a.vault@ == vault_encoding(Seq::empty()),
        account matches Ok(a) ==> a.nonce == 0,
{
    let mode = storage_mode.name().parse().expect("the name of a mode");
    let account_type = account_type.name().parse().expect("the name of a type");
    let scheme = AuthScheme::RpoFalcon512 { pub_key: PublicKey::new(pub_key.elements().map(Felt::new)) };
    let (account, seed) = create_basic_wallet(
        init_seed, AccountIdAnchor::PRE_GENESIS, scheme, account_type, mode)?;
    let (id, vault, storage, code, nonce) = account.into_parts();
    Ok(NewAccount {
        prefix: id.prefix().as_u64(),
        suffix: id.suffix().as_int(),
        vault: vault.to_bytes(),
        storage: storage.to_bytes(),
        code: code.to_bytes(),
        nonce: nonce.as_int(),
        seed: seed.map(|felt| felt.as_int()),
    })
}

// ASSETS
// ------------------------------------------------------------------------------------------------

/// `FungibleAsset::new`.
///
/// Claimed: it accepts exactly the identifiers of fungible faucets with an amount of at most
/// `2^63 - 1`.
#[verifier::external_body]
pub(crate) fn build_fungible_asset(faucet_id: AccountId, amount: u64) -> (asset: Result<
    FungibleAsset,
    AssetError,
>)
    ensures
        asset is Ok <==> account::is_fungible_asset(
            (FungibleAssetView { faucet_id: faucet_id@, amount }),
        ),
        asset matches Ok(a) ==> a@ == (FungibleAssetView { faucet_id: faucet_id@, amount }),
{
    let elements = [Felt::new(faucet_id.prefix()), Felt::new(faucet_id.suffix())];
    let id = miden_objects::account::AccountId::new_unchecked(elements);
    let asset = miden_objects::asset::FungibleAsset::new(id, amount)?;
    Ok(FungibleAsset { faucet_id, amount: asset.amount() })
}

/// The serialized form of the vault with these assets, as `AssetVault::to_bytes` gives it.
pub uninterp spec fn vault_encoding(assets: Seq<FungibleAssetView>) -> Seq<u8>;

/// Whether no two assets are of the same faucet.
pub open spec fn distinct_faucets(assets: Seq<FungibleAssetView>) -> bool {
    forall|i: int, j: int|
        0 <= i < j < assets.len() ==> #[trigger] assets[i].faucet_id != #[trigger] assets[j].faucet_id
}

/// `AssetVault::new`, with the serialized form of the vault.
///
/// Claimed: it accepts exactly the lists in which no two assets are of the same faucet, and the
/// serialized form depends on the assets alone.
#[verifier::external_body]
pub(crate) fn build_vault(assets: &Vec<FungibleAsset>) -> (encoded: Result<Vec<u8>, AssetVaultError>)
    ensures
        encoded is Ok <==> distinct_faucets(account::assets_view(assets@)),
        encoded matches Ok(e) ==> e@ == vault_encoding(account::assets_view(assets@)),
{
    let assets: Vec<miden_objects::asset::Asset> = assets.iter().map(|asset| {
        let id = [Felt::new(asset.faucet_id.prefix()), Felt::new(asset.faucet_id.suffix())];
        let id = miden_objects::account::AccountId::new_unchecked(id);
        miden_objects::asset::FungibleAsset::new(id, asset.amount).expect("a fungible asset").into()
    }).collect();
    Ok(miden_objects::asset::AssetVault::new(&assets)?.to_bytes())
}

// LAWS
// ------------------------------------------------------------------------------------------------

/// An ASCII text names a storage mode exactly if it is the name of the mode, each of its letters in
/// either case.
pub proof fn law_storage_modes_are_named_in_any_case(text: Seq<char>, mode: AccountStorageMode)
    requires
        forall|i: int| 0 <= i < text.len() ==> (#[trigger] text[i] as u32) < 128,
    ensures
        ({
            let name = match mode {
                AccountStorageMode::Public => "public"@,
                AccountStorageMode::Network => "network"@,
                AccountStorageMode::Private => "private"@,
            };
            storage_mode_named(text) == Some(mode) <==> text.len() == name.len() && forall|i: int|
                0 <= i < text.len() ==> #[trigger] text[i] == name[i] || text[i] as int + 32
                    == name[i] as int
        }),
{
    reveal_strlit("public");
    reveal_strlit("network");
    reveal_strlit("private");
    let name = match mode {
        AccountStorageMode::Public => "public"@,
        AccountStorageMode::Network => "network"@,
        AccountStorageMode::Private => "private"@,
    };
    let lower = ascii_lowercase(text);
    assert("network"@[0] != "private"@[0]);
    assert forall|i: int| 0 <= i < name.len() implies 'a' <= #[trigger] name[i] <= 'z' by {}
    if lower == name {
        assert forall|i: int| 0 <= i < text.len() implies #[trigger] text[i] == name[i] || text[i]
            as int + 32 == name[i] as int by {
            assert(lower[i] == name[i]);
        }
    }
    if text.len() == name.len() && forall|i: int|
        0 <= i < text.len() ==> #[trigger] text[i] == name[i] || text[i] as int + 32
            == name[i] as int {
        assert forall|i: int| 0 <= i < text.len() implies lower[i] == name[i] by {
            assert(text[i] == name[i] || text[i] as int + 32 == name[i] as int);
            assert('a' <= name[i] <= 'z');
        }
        assert(lower =~= name);
    }
}

/// Different token symbols have different codes. The code of a symbol tells its length, and is at
/// most that of the last symbol of six letters.
pub proof fn law_token_symbols_have_codes_of_their_own(a: Seq<char>, b: Seq<char>)
    requires
        is_token_symbol(a),
        is_token_symbol(b),
    ensures
        symbol_code(a) == symbol_code(b) ==> a == b,
        symbol_code(a) % 26 == a.len(),
        0 < symbol_code(a) <= 8_031_810_156,
{
    lemma_symbol_digits_bounded(a);
    lemma_symbol_digits_bounded(b);
    if symbol_code(a) == symbol_code(b) {
        lemma_symbol_digits_injective(a, b);
    }
}

/// The number of values that so many letters can have.
spec fn letters_limit(letters: nat) -> int
    decreases letters,
{
    if letters == 0 {
        1
    } else {
        letters_limit((letters - 1) as nat) * 26
    }
}

proof fn lemma_symbol_digits_bounded(text: Seq<char>)
    requires
        text.len() <= 6,
        forall|i: int| 0 <= i < text.len() ==> 'A' <= #[trigger] text[i] <= 'Z',
    ensures
        0 <= symbol_digits(text) < letters_limit(text.len()),
        letters_limit(text.len()) <= 308_915_776,
    decreases text.len(),
{
    reveal_with_fuel(letters_limit, 7);
    if text.len() > 0 {
        lemma_symbol_digits_bounded(text.drop_last());
        assert('A' <= text[text.len() - 1] <= 'Z');
    }
}

proof fn lemma_symbol_digits_injective(a: Seq<char>, b: Seq<char>)
    requires
        a.len() == b.len(),
        forall|i: int| 0 <= i < a.len() ==> 'A' <= #[trigger] a[i] <= 'Z',
        forall|i: int| 0 <= i < b.len() ==> 'A' <= #[trigger] b[i] <= 'Z',
        symbol_digits(a) == symbol_digits(b),
    ensures
        a == b,
    decreases a.len(),
{
    if a.len() > 0 {
        assert('A' <= a[a.len() - 1] <= 'Z');
        assert('A' <= b[b.len() - 1] <= 'Z');
        lemma_symbol_digits_injective(a.drop_last(), b.drop_last());
        assert(a =~= a.drop_last().push(a.last()));
        assert(b =~= b.drop_last().push(b.last()));
    } else {
        assert(a =~= b);
    }
}

} // verus!
