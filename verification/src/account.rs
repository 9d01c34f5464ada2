//! Accounts as plain values: identifiers, assets, keys, and the file that holds an account with its
//! secrets.

use crate::word;
use crate::word::{Word, FIELD_MODULUS};
use vstd::prelude::*;

verus! {

/// The kinds of accounts that the protocol knows.
#[derive(Debug, Clone, Copy, PartialEq, Eq, Structural)]
pub enum AccountType {
    FungibleFaucet,
    NonFungibleFaucet,
    RegularAccountImmutableCode,
    RegularAccountUpdatableCode,
}

/// The name of an account type.
pub open spec fn account_type_name(account_type: AccountType) -> Seq<char> {
    match account_type {
        AccountType::FungibleFaucet => "FungibleFaucet"@,
        AccountType::NonFungibleFaucet => "NonFungibleFaucet"@,
        AccountType::RegularAccountImmutableCode => "RegularAccountImmutableCode"@,
        AccountType::RegularAccountUpdatableCode => "RegularAccountUpdatableCode"@,
    }
}

impl AccountType {
    /// The name of the type.
    pub fn name(&self) -> (name: &'static str)
        ensures
            name@ == account_type_name(*self),
            name@ == (match *self {
                AccountType::FungibleFaucet => "FungibleFaucet"@,
                AccountType::NonFungibleFaucet => "NonFungibleFaucet"@,
                AccountType::RegularAccountImmutableCode => "RegularAccountImmutableCode"@,
                AccountType::RegularAccountUpdatableCode => "RegularAccountUpdatableCode"@,
            }),
    {
        match self {
            AccountType::FungibleFaucet => "FungibleFaucet",
            AccountType::NonFungibleFaucet => "NonFungibleFaucet",
            AccountType::RegularAccountImmutableCode => "RegularAccountImmutableCode",
            AccountType::RegularAccountUpdatableCode => "RegularAccountUpdatableCode",
        }
    }
}

/// Where the state of an account is stored.
#[derive(Debug, Clone, Copy, PartialEq, Eq, Structural)]
pub enum AccountStorageMode {
    Public,
    Network,
    Private,
}

/// The name of a storage mode.
pub open spec fn storage_mode_name(mode: AccountStorageMode) -> Seq<char> {
    match mode {
        AccountStorageMode::Public => "public"@,
        AccountStorageMode::Network => "network"@,
        AccountStorageMode::Private => "private"@,
    }
}

impl AccountStorageMode {
    /// The name of the mode.
    pub fn name(&self) -> (name: &'static str)
        ensures
            name@ == storage_mode_name(*self),
            name@ == (match *self {
                AccountStorageMode::Public => "public"@,
                AccountStorageMode::Network => "network"@,
                AccountStorageMode::Private => "private"@,
            }),
    {
        match self {
            AccountStorageMode::Public => "public",
            AccountStorageMode::Network => "network",
            AccountStorageMode::Private => "private",
        }
    }
}

/// The identifier of an account: a random prefix and suffix, some bits of which hold metadata.
#[derive(Debug, Clone, Copy, PartialEq, Eq, Structural)]
pub struct AccountId {
    prefix: u64,
    suffix: u64,
}

/// The plain value of an [`AccountId`].
pub struct AccountIdView {
    pub prefix: u64,
    pub suffix: u64,
}

/// The largest amount that an asset of a fungible faucet can have.
pub const MAX_FUNGIBLE_AMOUNT: u64 = 0x7fff_ffff_ffff_ffff;

/// Whether a prefix and a suffix form an account identifier: the version in the lowest four bits of
/// the prefix is zero, its storage mode bits name a mode, the suffix ends in a zero byte, and the
/// epoch in its upper 16 bits is not the largest one.
pub open spec fn is_account_id(id: AccountIdView) -> bool {
    &&& id.prefix < FIELD_MODULUS
    &&& id.prefix & 0xf == 0
    &&& (id.prefix >> 6) & 3 != 3
    &&& id.suffix & 0xff == 0
    &&& id.suffix >> 48 != 0xffff
}

/// The account type in bits 4 and 5 of an identifier's prefix.
pub open spec fn account_type_of(id: AccountIdView) -> AccountType {
    let bits = (id.prefix >> 4) & 3;
    if bits == 0 {
        AccountType::RegularAccountImmutableCode
    } else if bits == 1 {
        AccountType::RegularAccountUpdatableCode
    } else if bits == 2 {
        AccountType::FungibleFaucet
    } else {
        AccountType::NonFungibleFaucet
    }
}

/// The storage mode in bits 6 and 7 of an identifier's prefix.
pub open spec fn storage_mode_of(id: AccountIdView) -> AccountStorageMode {
    let bits = (id.prefix >> 6) & 3;
    if bits == 0 {
        AccountStorageMode::Public
    } else if bits == 1 {
        AccountStorageMode::Network
    } else {
        AccountStorageMode::Private
    }
}

impl View for AccountId {
    type V = AccountIdView;

    closed spec fn view(&self) -> AccountIdView {
        AccountIdView { prefix: self.prefix, suffix: self.suffix }
    }
}

impl AccountId {
    #[verifier::type_invariant]
    closed spec fn valid(self) -> bool {
        is_account_id(self@)
    }

    /// The identifier with this prefix and suffix, if they form one.
    pub fn new(prefix: u64, suffix: u64) -> (id: Option<AccountId>)
        ensures
            id is Some <==> is_account_id((AccountIdView { prefix, suffix })),
            id matches Some(i) ==> i@ == (AccountIdView { prefix, suffix }),
            id is Some <==> prefix < 0xffff_ffff_0000_0001 && prefix & 0xf == 0 && (prefix >> 6) & 3
                != 3 && suffix & 0xff == 0 && suffix >> 48 != 0xffff,
    {
        if prefix < FIELD_MODULUS && prefix & 0xf == 0 && (prefix >> 6) & 3 != 3 && suffix & 0xff
            == 0 && suffix >> 48 != 0xffff {
            Some(AccountId { prefix, suffix })
        } else {
            None
        }
    }

    /// The identifier with a prefix and a suffix that form one.
    pub(crate) fn from_parts(prefix: u64, suffix: u64) -> (id: AccountId)
        requires
            is_account_id((AccountIdView { prefix, suffix })),
        ensures
            id@ == (AccountIdView { prefix, suffix }),
    {
        AccountId { prefix, suffix }
    }

    /// The first part of the identifier.
    pub fn prefix(&self) -> (prefix: u64)
        ensures
            prefix == self@.prefix,
            is_account_id(self@),
    {
        proof {
            use_type_invariant(self);
        }
        self.prefix
    }

    /// The second part of the identifier.
    pub fn suffix(&self) -> (suffix: u64)
        ensures
            suffix == self@.suffix,
            is_account_id(self@),
    {
        proof {
            use_type_invariant(self);
        }
        self.suffix
    }

    /// The 15 bytes of the identifier.
    pub fn to_bytes(&self) -> (bytes: Vec<u8>)
        ensures
            bytes@ == account_id_encoding(self@),
            bytes@.len() == 15,
    {
        let prefix = vstd::bytes::u64_to_le_bytes(self.prefix);
        let suffix = vstd::bytes::u64_to_le_bytes(self.suffix);
        let bytes = vec![
            prefix[7], prefix[6], prefix[5], prefix[4], prefix[3], prefix[2], prefix[1], prefix[0],
            suffix[7], suffix[6], suffix[5], suffix[4], suffix[3], suffix[2], suffix[1],
        ];
        assert(bytes@ =~= account_id_encoding(self@));
        bytes
    }
}

/// An amount of the token that a fungible faucet issues.
#[derive(Debug, Clone, Copy, PartialEq, Eq, Structural)]
pub struct FungibleAsset {
    pub(crate) faucet_id: AccountId,
    pub(crate) amount: u64,
}

/// The plain value of a [`FungibleAsset`].
pub struct FungibleAssetView {
    pub faucet_id: AccountIdView,
    pub amount: u64,
}

/// Whether an asset can exist: a fungible faucet issues it, and the amount is not too large.
pub open spec fn is_fungible_asset(asset: FungibleAssetView) -> bool {
    &&& account_type_of(asset.faucet_id) == AccountType::FungibleFaucet
    &&& asset.amount <= MAX_FUNGIBLE_AMOUNT
}

impl View for FungibleAsset {
    type V = FungibleAssetView;

    closed spec fn view(&self) -> FungibleAssetView {
        FungibleAssetView { faucet_id: self.faucet_id@, amount: self.amount }
    }
}

impl FungibleAsset {
    #[verifier::type_invariant]
    closed spec fn issuable(self) -> bool {
        is_fungible_asset(self@)
    }

    /// An amount of the token of the given faucet, if there can be such an asset.
    pub fn new(faucet_id: AccountId, amount: u64) -> (asset: Option<FungibleAsset>)
        ensures
            asset is Some <==> is_fungible_asset(
                (FungibleAssetView { faucet_id: faucet_id@, amount }),
            ),
            asset matches Some(a) ==> a@ == (FungibleAssetView { faucet_id: faucet_id@, amount }),
            asset is Some <==> (faucet_id@.prefix >> 4) & 3 == 2 && amount
                <= 0x7fff_ffff_ffff_ffff,
    {
        match crate::miden::build_fungible_asset(faucet_id, amount) {
            Ok(asset) => Some(asset),
            Err(_) => None,
        }
    }

    /// The faucet that issues the asset.
    pub fn faucet_id(&self) -> (id: AccountId)
        ensures
            id@ == self@.faucet_id,
            is_fungible_asset(self@),
    {
        proof {
            use_type_invariant(self);
        }
        self.faucet_id
    }

    /// The amount of the asset.
    pub fn amount(&self) -> (amount: u64)
        ensures
            amount == self@.amount,
            is_fungible_asset(self@),
    {
        proof {
            use_type_invariant(self);
        }
        self.amount
    }
}

/// The plain values of a list of assets.
pub open spec fn assets_view(assets: Seq<FungibleAsset>) -> Seq<FungibleAssetView> {
    assets.map_values(|asset: FungibleAsset| asset@)
}

/// An asset: an amount of a fungible token, or a non-fungible token given by its commitment.
#[derive(Debug, Clone, Copy, PartialEq, Eq, Structural)]
pub enum Asset {
    Fungible(FungibleAsset),
    NonFungible(Word),
}

/// The plain value of an [`Asset`].
pub enum AssetView {
    Fungible(FungibleAssetView),
    NonFungible(Seq<u64>),
}

impl View for Asset {
    type V = AssetView;

    open spec fn view(&self) -> AssetView {
        match *self {
            Asset::Fungible(asset) => AssetView::Fungible(asset@),
            Asset::NonFungible(word) => AssetView::NonFungible(word@),
        }
    }
}

/// How an account authenticates its transactions.
#[derive(Debug, Clone, Copy, PartialEq, Eq, Structural)]
pub enum AuthScheme {
    RpoFalcon512 { pub_key: Word },
}

impl AuthScheme {
    /// The public key of the scheme.
    pub open spec fn public_key(self) -> Seq<u64> {
        match self {
            AuthScheme::RpoFalcon512 { pub_key } => pub_key@,
        }
    }
}

/// The secret key that belongs to an [`AuthScheme`], in its serialized form.
#[derive(Debug, PartialEq, Eq)]
pub enum AuthSecretKey {
    RpoFalcon512(Vec<u8>),
}

impl View for AuthSecretKey {
    type V = Seq<u8>;

    open spec fn view(&self) -> Seq<u8> {
        match *self {
            AuthSecretKey::RpoFalcon512(key) => key@,
        }
    }
}

/// The assets of an account, with their serialized form.
#[derive(Debug, PartialEq, Eq)]
pub struct AssetVault {
    assets: Vec<FungibleAsset>,
    encoded: Vec<u8>,
}

impl View for AssetVault {
    type V = Seq<FungibleAssetView>;

    closed spec fn view(&self) -> Seq<FungibleAssetView> {
        assets_view(self.assets@)
    }
}

impl AssetVault {
    /// The serialized form is that of the assets.
    #[verifier::type_invariant]
    closed spec fn consistent(self) -> bool {
        self.encoded@ == crate::miden::vault_encoding(self@)
    }

    /// The vault with these assets, of which `encoded` is the serialized form.
    pub(crate) fn from_parts(assets: Vec<FungibleAsset>, encoded: Vec<u8>) -> (vault: AssetVault)
        requires
            encoded@ == crate::miden::vault_encoding(assets_view(assets@)),
        ensures
            vault@ == assets_view(assets@),
    {
        AssetVault { assets, encoded }
    }

    /// The assets in the vault.
    pub fn assets(&self) -> (assets: &Vec<FungibleAsset>)
        ensures
            assets_view(assets@) == self@,
    {
        &self.assets
    }

    /// The serialized form of the vault.
    pub fn to_bytes(&self) -> (bytes: &Vec<u8>)
        ensures
            bytes@ == crate::miden::vault_encoding(self@),
    {
        proof {
            use_type_invariant(self);
        }
        &self.encoded
    }
}

/// An account: its identifier, assets, storage, code and nonce. Storage and code are in their
/// serialized form.
#[derive(Debug, PartialEq, Eq)]
pub struct Account {
    pub id: AccountId,
    pub vault: AssetVault,
    pub storage: Vec<u8>,
    pub code: Vec<u8>,
    pub nonce: u64,
}

/// The plain value of an [`Account`].
#[verifier::ext_equal]
pub struct AccountView {
    pub id: AccountIdView,
    pub vault: Seq<FungibleAssetView>,
    pub storage: Seq<u8>,
    pub code: Seq<u8>,
    pub nonce: u64,
}

impl View for Account {
    type V = AccountView;

    open spec fn view(&self) -> AccountView {
        AccountView {
            id: self.id@,
            vault: self.vault@,
            storage: self.storage@,
            code: self.code@,
            nonce: self.nonce,
        }
    }
}

/// An account with the seed of its identifier, if it is new, and its secret key.
#[derive(Debug, PartialEq, Eq)]
pub struct AccountFile {
    pub account: Account,
    pub account_seed: Option<Word>,
    pub auth_secret_key: AuthSecretKey,
}

/// The plain value of an [`AccountFile`].
#[verifier::ext_equal]
pub struct AccountFileView {
    pub account: AccountView,
    pub account_seed: Option<Seq<u64>>,
    pub auth_secret_key: Seq<u8>,
}

/// The elements of an optional word.
pub open spec fn seed_view(seed: Option<Word>) -> Option<Seq<u64>> {
    match seed {
        Some(word) => Some(word@),
        None => None,
    }
}

impl View for AccountFile {
    type V = AccountFileView;

    open spec fn view(&self) -> AccountFileView {
        AccountFileView {
            account: self.account@,
            account_seed: seed_view(self.account_seed),
            auth_secret_key: self.auth_secret_key@,
        }
    }
}

/// The bytes of an account identifier: the prefix in big-endian form, then the suffix in the same
/// form without its last byte, which is always zero.
pub open spec fn account_id_encoding(id: AccountIdView) -> Seq<u8> {
    vstd::bytes::spec_u64_to_le_bytes(id.prefix).reverse() + vstd::bytes::spec_u64_to_le_bytes(
        id.suffix,
    ).reverse().take(7)
}

/// The bytes of an account: its parts one after the other.
pub open spec fn account_encoding(account: AccountView) -> Seq<u8> {
    account_id_encoding(account.id) + crate::miden::vault_encoding(account.vault) + account.storage
        + account.code + vstd::bytes::spec_u64_to_le_bytes(account.nonce)
}

/// The bytes of an optional seed: a flag, then the seed if there is one.
pub open spec fn seed_encoding(seed: Option<Seq<u64>>) -> Seq<u8> {
    match seed {
        Some(elements) => seq![1u8] + word::word_to_bytes(elements),
        None => seq![0u8],
    }
}

/// The bytes of an account file: the marker `acct`, the account, the optional seed, the number of
/// the authentication scheme, and the secret key.
pub open spec fn account_file_encoding(file: AccountFileView) -> Seq<u8> {
    seq![97u8, 99, 99, 116] + account_encoding(file.account) + seed_encoding(file.account_seed)
        + seq![0u8] + file.auth_secret_key
}

/// Appends a copy of `bytes` to `target`.
fn extend(target: &mut Vec<u8>, bytes: &Vec<u8>)
    ensures
        final(target)@ == old(target)@ + bytes@,
{
    target.extend_from_slice(bytes.as_slice());
    assert(target@ =~= old(target)@ + bytes@);
}

impl Account {
    /// The serialized form of the account.
    pub fn to_bytes(&self) -> (bytes: Vec<u8>)
        ensures
            bytes@ == account_encoding(self@),
            bytes@ == account_id_encoding(self.id@) + crate::miden::vault_encoding(self.vault@)
                + self.storage@ + self.code@ + vstd::bytes::spec_u64_to_le_bytes(self.nonce),
    {
        let mut bytes = self.id.to_bytes();
        extend(&mut bytes, self.vault.to_bytes());
        extend(&mut bytes, &self.storage);
        extend(&mut bytes, &self.code);
        extend(&mut bytes, &vstd::bytes::u64_to_le_bytes(self.nonce));
        bytes
    }
}

impl AccountFile {
    /// Puts an account together with its seed and its secret key.
    pub fn new(account: Account, account_seed: Option<Word>, auth: AuthSecretKey) -> (file: AccountFile)
        ensures
            file.account == account,
            file.account_seed == account_seed,
            file.auth_secret_key == auth,
    {
        AccountFile { account, account_seed, auth_secret_key: auth }
    }

    /// The content of the file that holds the account and its secrets.
    pub fn to_bytes(&self) -> (bytes: Vec<u8>)
        ensures
            bytes@ == account_file_encoding(self@),
            bytes@ == seq![97u8, 99, 99, 116] + account_encoding(self.account@) + (
            match self.account_seed {
                Some(seed) => seq![1u8] + word::word_to_bytes(seed@),
                None => seq![0u8],
            }) + seq![0u8] + (match self.auth_secret_key {
                AuthSecretKey::RpoFalcon512(key) => key@,
            }),
    {
        let mut bytes = vec![97u8, 99, 99, 116];
        extend(&mut bytes, &self.account.to_bytes());
        match &self.account_seed {
            Some(seed) => {
                bytes.push(1);
                extend(&mut bytes, &seed.to_bytes());
            },
            None => {
                bytes.push(0);
            },
        }
        bytes.push(0);
        match &self.auth_secret_key {
            AuthSecretKey::RpoFalcon512(key) => extend(&mut bytes, key),
        }
        assert(bytes@ =~= account_file_encoding(self@));
        bytes
    }
}

// LAWS
// ------------------------------------------------------------------------------------------------

/// The lowest byte of an identifier tells the type and the storage mode of its account: it is 16
/// times the number of the type, from zero to three for regular accounts with immutable and with
/// updatable code, fungible faucets and non-fungible faucets, plus 64 times the number of the mode,
/// from zero to two for public, network and private.
pub proof fn law_identifier_tells_type_and_mode(id: AccountIdView)
    requires
        is_account_id(id),
    ensures
        id.prefix % 256 == 16 * (match account_type_of(id) {
            AccountType::RegularAccountImmutableCode => 0int,
            AccountType::RegularAccountUpdatableCode => 1,
            AccountType::FungibleFaucet => 2,
            AccountType::NonFungibleFaucet => 3,
        }) + 64 * (match storage_mode_of(id) {
            AccountStorageMode::Public => 0int,
            AccountStorageMode::Network => 1,
            AccountStorageMode::Private => 2,
        }),
        id.prefix < 0xffff_ffff_0000_0001,
        id.suffix % 256 == 0,
        id.suffix < 0xffff_0000_0000_0000,
{
    let prefix = id.prefix;
    let suffix = id.suffix;
    assert(prefix % 256 == (prefix & 0xf) + 16 * ((prefix >> 4) & 3) + 64 * ((prefix >> 6) & 3))
        by (bit_vector);
    assert((prefix >> 4) & 3 <= 3 && (prefix >> 6) & 3 <= 3) by (bit_vector);
    assert(suffix & 0xff == 0 ==> suffix % 256 == 0) by (bit_vector);
    assert(suffix >> 48 != 0xffff ==> suffix < 0xffff_0000_0000_0000) by (bit_vector);
}

/// An asset can exist exactly if its faucet is a fungible one and its amount is below `2^63`.
pub proof fn law_fungible_assets_are_bounded(asset: FungibleAssetView)
    requires
        is_account_id(asset.faucet_id),
    ensures
        is_fungible_asset(asset) <==> asset.faucet_id.prefix / 16 % 4 == 2 && asset.amount
            < 0x8000_0000_0000_0000,
{
    let prefix = asset.faucet_id.prefix;
    assert(prefix / 16 % 4 == (prefix >> 4) & 3) by (bit_vector);
}

/// The bytes of an identifier stand for its prefix and its suffix.
pub proof fn law_identifier_reads_back(id: AccountIdView)
    requires
        is_account_id(id),
    ensures
        account_id_encoding(id).len() == 15,
        vstd::bytes::spec_u64_from_le_bytes(account_id_encoding(id).subrange(0, 8).reverse())
            == id.prefix,
        vstd::bytes::spec_u64_from_le_bytes(
            account_id_encoding(id).subrange(8, 15).push(0).reverse(),
        ) == id.suffix,
{
    vstd::bytes::lemma_auto_spec_u64_to_from_le_bytes();
    let suffix = id.suffix;
    assert(account_id_encoding(id).subrange(0, 8).reverse() =~= vstd::bytes::spec_u64_to_le_bytes(
        id.prefix,
    ));
    vstd::bytes::spec_u64_to_le_bytes_to_open(suffix);
    assert(account_id_encoding(id).subrange(8, 15).push(0).reverse()
        =~= vstd::bytes::spec_u64_to_le_bytes(suffix));
}

/// The bytes of an account are those of its identifier, its assets, its storage, its code and its
/// nonce, in this order and with nothing between them.
pub proof fn law_account_is_laid_out(account: AccountView)
    ensures
        ({
            let bytes = account_encoding(account);
            let vault = crate::miden::vault_encoding(account.vault);
            let storage_at = 15 + vault.len() as int;
            let code_at = storage_at + account.storage.len();
            let nonce_at = code_at + account.code.len();
            &&& bytes.len() == nonce_at + 8
            &&& bytes.subrange(0, 15) == account_id_encoding(account.id)
            &&& bytes.subrange(15, storage_at) == vault
            &&& bytes.subrange(storage_at, code_at) == account.storage
            &&& bytes.subrange(code_at, nonce_at) == account.code
            &&& vstd::bytes::spec_u64_from_le_bytes(bytes.subrange(nonce_at, nonce_at + 8))
                == account.nonce
        }),
{
    vstd::bytes::lemma_auto_spec_u64_to_from_le_bytes();
    let bytes = account_encoding(account);
    let vault = crate::miden::vault_encoding(account.vault);
    let storage_at = 15 + vault.len() as int;
    let code_at = storage_at + account.storage.len();
    let nonce_at = code_at + account.code.len();
    assert(bytes.subrange(0, 15) =~= account_id_encoding(account.id));
    assert(bytes.subrange(15, storage_at) =~= vault);
    assert(bytes.subrange(storage_at, code_at) =~= account.storage);
    assert(bytes.subrange(code_at, nonce_at) =~= account.code);
    assert(bytes.subrange(nonce_at, nonce_at + 8) =~= vstd::bytes::spec_u64_to_le_bytes(
        account.nonce,
    ));
}

/// The file of an account is made of the letters `acct`, the account, a one and the seed or else a
/// zero, a zero for the authentication scheme, and the secret key, in this order and with nothing
/// between them.
pub proof fn law_account_file_is_laid_out(file: AccountFileView)
    requires
        file.account_seed matches Some(seed) ==> word::is_word(seed),
    ensures
        ({
            let bytes = account_file_encoding(file);
            let seed_at = 4 + account_encoding(file.account).len() as int;
            let scheme_at = match file.account_seed {
                Some(_) => seed_at + 33,
                None => seed_at + 1,
            };
            &&& bytes.len() == scheme_at + 1 + file.auth_secret_key.len()
            &&& bytes[0] == 'a' as int
            &&& bytes[1] == 'c' as int
            &&& bytes[2] == 'c' as int
            &&& bytes[3] == 't' as int
            &&& bytes.subrange(4, seed_at) == account_encoding(file.account)
            &&& bytes[seed_at] == (if file.account_seed is Some {
                1int
            } else {
                0
            })
            &&& file.account_seed matches Some(seed) ==> word::word_from_bytes(
                bytes.skip(seed_at + 1),
            ) == seed
            &&& bytes[scheme_at] == 0
            &&& bytes.skip(scheme_at + 1) == file.auth_secret_key
        }),
{
    let bytes = account_file_encoding(file);
    let seed_at = 4 + account_encoding(file.account).len() as int;
    assert(bytes.subrange(4, seed_at) =~= account_encoding(file.account));
    match file.account_seed {
        Some(seed) => {
            word::law_word_round_trip(seed, seq![0u8] + file.auth_secret_key);
            assert(bytes.skip(seed_at + 1) =~= word::word_to_bytes(seed) + (seq![0u8]
                + file.auth_secret_key));
            assert(bytes.skip(seed_at + 34) =~= file.auth_secret_key);
        },
        None => {
            assert(bytes.skip(seed_at + 2) =~= file.auth_secret_key);
        },
    }
}

/// Accounts, their files and their assets are seen part by part as they are.
pub proof fn law_accounts_are_seen_as_they_are(file: AccountFile, assets: Seq<FungibleAsset>)
    ensures
        file@.account.id == file.account.id@,
        file@.account.vault == file.account.vault@,
        file@.account.storage == file.account.storage@,
        file@.account.code == file.account.code@,
        file@.account.nonce == file.account.nonce,
        match file.account_seed {
            Some(seed) => file@.account_seed == Some(seed@),
            None => file@.account_seed is None,
        },
        match file.auth_secret_key {
            AuthSecretKey::RpoFalcon512(key) => file@.auth_secret_key == key@,
        },
        assets_view(assets).len() == assets.len(),
        forall|j: int| 0 <= j < assets.len() ==> #[trigger] assets_view(assets)[j] == assets[j]@,
{
}

} // verus!
