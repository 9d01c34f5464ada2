//! What holds of the generation of the genesis accounts as a whole.

use crate::account;
use crate::account::{AccountFileView, AccountIdView, FungibleAssetView};
use crate::bootstrap;
use crate::bootstrap::{AccountEntropy, BootstrapError, BootstrapErrorView, GenerateError};
use crate::bootstrap::{GenesisPlan, WalletError, WalletErrorView};
use crate::genesis;
use crate::genesis::{AssetInputError, AssetInputErrorView};
use crate::genesis::{AccountInput, AssetInput, BasicFungibleFaucetInputs, BasicWalletInputs};
use crate::genesis::GenesisConfig;
use crate::miden;
use crate::random;
use crate::random::SeededRngView;
use crate::text;
use vstd::prelude::*;

verus! {

/// The faucets and the wallets keep the order in which they are declared, and every input is one or
/// the other.
pub proof fn law_places(inputs: Seq<AccountInput>, faucets: bool)
    ensures
        forall|k: int, l: int|
            0 <= k < l < bootstrap::places(inputs, faucets).len() ==> #[trigger] bootstrap::places(
                inputs,
                faucets,
            )[k] < #[trigger] bootstrap::places(inputs, faucets)[l],
        forall|k: int|
            0 <= k < bootstrap::places(inputs, faucets).len() ==> {
                let i = #[trigger] bootstrap::places(inputs, faucets)[k];
                0 <= i < inputs.len() && (inputs[i] is BasicFungibleFaucet) == faucets
            },
        forall|i: int|
            0 <= i < inputs.len() && ((#[trigger] inputs[i]) is BasicFungibleFaucet) == faucets
                ==> bootstrap::places(inputs, faucets).contains(i),
    decreases inputs.len(),
{
    if inputs.len() > 0 {
        let before = bootstrap::places(inputs.drop_last(), faucets);
        let now = bootstrap::places(inputs, faucets);
        law_places(inputs.drop_last(), faucets);
        assert forall|k: int| 0 <= k < now.len() implies {
            let i = #[trigger] now[k];
            0 <= i < inputs.len() && (inputs[i] is BasicFungibleFaucet) == faucets
        } by {
            if k < before.len() {
                assert(now[k] == before[k]);
                assert(inputs.drop_last()[before[k]] == inputs[before[k]]);
            }
        }
        assert forall|k: int, l: int| 0 <= k < l < now.len() implies #[trigger] now[k]
            < #[trigger] now[l] by {
            assert(now[k] == before[k]);
            if l < before.len() {
                assert(now[l] == before[l]);
            }
        }
        assert forall|i: int|
            0 <= i < inputs.len() && ((#[trigger] inputs[i]) is BasicFungibleFaucet)
                == faucets implies now.contains(i) by {
            if i < inputs.len() - 1 {
                assert(inputs.drop_last()[i] == inputs[i]);
                let k = before.index_of(i);
                assert(before.contains(i));
                assert(now[k] == i);
            } else {
                assert(now[now.len() - 1] == i);
            }
        }
    }
}

/// Collecting gives every value in its place, or the first error and nothing after it.
pub proof fn law_collected<T, E>(results: Seq<Result<T, E>>)
    ensures
        match bootstrap::collected(results) {
            Ok(values) => {
                &&& values.len() == results.len()
                &&& forall|k: int|
                    0 <= k < results.len() ==> #[trigger] results[k] == Ok::<T, E>(values[k])
            },
            Err((k, error)) => {
                &&& 0 <= k < results.len()
                &&& results[k] == Err::<T, E>(error)
                &&& forall|j: int| 0 <= j < k ==> (#[trigger] results[j]) is Ok
            },
        },
    decreases results.len(),
{
    if results.len() > 0 {
        law_collected(results.drop_last());
        assert forall|k: int| 0 <= k < results.len() - 1 implies #[trigger] results[k]
            == results.drop_last()[k] by {}
    }
}

/// If generation succeeds there is one file for each input: first the faucets, then the wallets,
/// each in the order of their declaration, and each built with random values of its own.
pub proof fn law_one_file_for_each_account(
    inputs: Seq<AccountInput>,
    entropy: Seq<AccountEntropy>,
    files: Seq<AccountFileView>,
)
    requires
        bootstrap::genesis_accounts(inputs, entropy) == Ok::<_, BootstrapErrorView>(files),
    ensures
        files.len() == inputs.len(),
        ({
            let faucets = bootstrap::places(inputs, true);
            let wallets = bootstrap::places(inputs, false);
            let n = faucets.len() as int;
            let ids = bootstrap::faucet_ids(inputs, files.take(n));
            &&& n + wallets.len() == inputs.len()
            &&& forall|k: int|
                0 <= k < n ==> bootstrap::faucet_file(
                    inputs[#[trigger] faucets[k]]->BasicFungibleFaucet_0,
                    entropy[k],
                ) == Ok::<_, bootstrap::GenerateError>(files[k])
            &&& forall|k: int|
                0 <= k < wallets.len() ==> bootstrap::wallet_result(
                    inputs[#[trigger] wallets[k]]->BasicWallet_0,
                    entropy.skip(n)[k],
                    ids,
                ) == Ok::<_, WalletErrorView>(files[n + k])
        }),
{
    let faucets = bootstrap::places(inputs, true);
    let wallets = bootstrap::places(inputs, false);
    let results = bootstrap::faucet_results(inputs, entropy);
    law_collected(results);
    let faucet_files = bootstrap::collected(results)->Ok_0;
    let n = faucet_files.len() as int;
    let rest = bootstrap::wallet_results(
        inputs,
        entropy.skip(n),
        bootstrap::faucet_ids(inputs, faucet_files),
    );
    law_collected(rest);
    bootstrap::lemma_places_total(inputs);
    let wallet_files = bootstrap::collected(rest)->Ok_0;
    assert(files.take(n) =~= faucet_files);
    assert forall|k: int| 0 <= k < n implies bootstrap::faucet_file(
        inputs[#[trigger] faucets[k]]->BasicFungibleFaucet_0,
        entropy[k],
    ) == Ok::<_, bootstrap::GenerateError>(files[k]) by {
        assert(results[k] == Ok::<_, bootstrap::GenerateError>(faucet_files[k]));
    }
    assert forall|k: int| 0 <= k < wallets.len() implies bootstrap::wallet_result(
        inputs[#[trigger] wallets[k]]->BasicWallet_0,
        entropy.skip(n)[k],
        bootstrap::faucet_ids(inputs, faucet_files),
    ) == Ok::<_, WalletErrorView>(files[n + k]) by {
        assert(rest[k] == Ok::<_, WalletErrorView>(wallet_files[k]));
    }
}

/// If generation fails, it fails for the first faucet that cannot be generated or, when all faucets
/// can, for the first wallet that cannot. The error names that input.
pub proof fn law_first_failure_is_reported(
    inputs: Seq<AccountInput>,
    entropy: Seq<AccountEntropy>,
    error: BootstrapErrorView,
)
    requires
        bootstrap::genesis_accounts(inputs, entropy) == Err::<Seq<AccountFileView>, _>(error),
    ensures
        match error {
            BootstrapErrorView::Faucet { index, error } => {
                let places = bootstrap::places(inputs, true);
                exists|k: int|
                    0 <= k < places.len() && #[trigger] places[k] == index
                        && bootstrap::faucet_results(inputs, entropy)[k] == Err::<
                        AccountFileView,
                        _,
                    >(error) && forall|j: int|
                        0 <= j < k ==> (#[trigger] bootstrap::faucet_results(
                            inputs,
                            entropy,
                        )[j]) is Ok
            },
            BootstrapErrorView::Wallet { index, error } => {
                let places = bootstrap::places(inputs, false);
                bootstrap::collected(bootstrap::faucet_results(inputs, entropy)) matches Ok(faucets)
                    && exists|k: int|
                    {
                        let results = bootstrap::wallet_results(
                            inputs,
                            entropy.skip(faucets.len() as int),
                            bootstrap::faucet_ids(inputs, faucets),
                        );
                        0 <= k < places.len() && #[trigger] places[k] == index && results[k]
                            == Err::<AccountFileView, _>(error) && forall|j: int|
                            0 <= j < k ==> (#[trigger] results[j]) is Ok
                    }
            },
        },
{
    let results = bootstrap::faucet_results(inputs, entropy);
    law_collected(results);
    match bootstrap::collected(results) {
        Err((k, _)) => {
            assert(bootstrap::places(inputs, true)[k] == bootstrap::places(inputs, true)[k]);
        },
        Ok(faucets) => {
            let rest = bootstrap::wallet_results(
                inputs,
                entropy.skip(faucets.len() as int),
                bootstrap::faucet_ids(inputs, faucets),
            );
            law_collected(rest);
            let k = bootstrap::collected(rest)->Err_0.0;
            assert(bootstrap::places(inputs, false)[k] == bootstrap::places(inputs, false)[k]);
        },
    }
}

/// Every file keeps the secret key that was drawn for its account.
pub proof fn law_secret_keys_are_kept(
    inputs: Seq<AccountInput>,
    entropy: Seq<AccountEntropy>,
    files: Seq<AccountFileView>,
)
    requires
        entropy.len() == inputs.len(),
        bootstrap::genesis_accounts(inputs, entropy) == Ok::<_, BootstrapErrorView>(files),
    ensures
        files.len() == entropy.len(),
        forall|k: int|
            0 <= k < files.len() ==> (#[trigger] files[k]).auth_secret_key
                == entropy[k].auth_secret_key@,
{
    law_one_file_for_each_account(inputs, entropy, files);
    let faucets = bootstrap::places(inputs, true);
    let wallets = bootstrap::places(inputs, false);
    let n = faucets.len() as int;
    assert forall|k: int| 0 <= k < files.len() implies (#[trigger] files[k]).auth_secret_key
        == entropy[k].auth_secret_key@ by {
        if k < n {
            assert(bootstrap::faucet_file(
                inputs[faucets[k]]->BasicFungibleFaucet_0,
                entropy[k],
            ) == Ok::<_, bootstrap::GenerateError>(files[k]));
        } else {
            assert(bootstrap::wallet_result(
                inputs[wallets[k - n]]->BasicWallet_0,
                entropy.skip(n)[k - n],
                bootstrap::faucet_ids(inputs, files.take(n)),
            ) == Ok::<_, WalletErrorView>(files[n + (k - n)]));
            assert(entropy.skip(n)[k - n] == entropy[k]);
        }
    }
}

/// Each generated account, faucet or wallet, is the one that the protocol builds for its input with
/// the public key that belongs to the secret key in its own file, provided that each drawn public key
/// belongs to the secret key drawn with it. A faucet is new: it has no assets and its nonce is zero,
/// and its seed is kept. A wallet counts as existing: its nonce is one and no seed is kept.
pub proof fn law_accounts_belong_to_their_keys(
    inputs: Seq<AccountInput>,
    entropy: Seq<AccountEntropy>,
    files: Seq<AccountFileView>,
)
    requires
        entropy.len() == inputs.len(),
        bootstrap::genesis_accounts(inputs, entropy) == Ok::<_, BootstrapErrorView>(files),
        forall|k: int|
            0 <= k < entropy.len() ==> (#[trigger] entropy[k]).auth_scheme->pub_key@
                == miden::falcon_public_key(entropy[k].auth_secret_key@),
    ensures
        files.len() == inputs.len(),
        ({
            let faucets = bootstrap::places(inputs, true);
            let wallets = bootstrap::places(inputs, false);
            let n = faucets.len() as int;
            &&& n + wallets.len() == inputs.len()
            &&& forall|k: int|
                0 <= k < n ==> {
                    let input = inputs[#[trigger] faucets[k]]->BasicFungibleFaucet_0;
                    let built = miden::basic_faucet(
                        entropy[k].init_seed@,
                        miden::symbol_code(input.token_symbol@) as u64,
                        input.decimals,
                        input.max_supply,
                        miden::storage_mode_named(input.storage_mode@)->Some_0,
                        miden::falcon_public_key(files[k].auth_secret_key),
                    );
                    &&& files[k].account.id == built.id
                    &&& files[k].account.storage == built.storage
                    &&& files[k].account.code == built.code
                    &&& files[k].account_seed == Some(built.seed)
                    &&& files[k].account.nonce == 0
                    &&& files[k].account.vault.len() == 0
                }
            &&& forall|k: int|
                0 <= k < wallets.len() ==> {
                    let input = inputs[#[trigger] wallets[k]]->BasicWallet_0;
                    let built = miden::basic_wallet(
                        entropy[n + k].init_seed@,
                        input.account_type,
                        miden::storage_mode_named(input.storage_mode@)->Some_0,
                        miden::falcon_public_key(files[n + k].auth_secret_key),
                    );
                    &&& files[n + k].account.id == built.id
                    &&& files[n + k].account.storage == built.storage
                    &&& files[n + k].account.code == built.code
                    &&& files[n + k].account_seed is None
                    &&& files[n + k].account.nonce == 1
                }
        }),
{
    law_one_file_for_each_account(inputs, entropy, files);
    let faucets = bootstrap::places(inputs, true);
    let wallets = bootstrap::places(inputs, false);
    let n = faucets.len() as int;
    assert forall|k: int| 0 <= k < n implies {
        let input = inputs[#[trigger] faucets[k]]->BasicFungibleFaucet_0;
        let built = miden::basic_faucet(
            entropy[k].init_seed@,
            miden::symbol_code(input.token_symbol@) as u64,
            input.decimals,
            input.max_supply,
            miden::storage_mode_named(input.storage_mode@)->Some_0,
            miden::falcon_public_key(files[k].auth_secret_key),
        );
        &&& files[k].account.id == built.id
        &&& files[k].account.storage == built.storage
        &&& files[k].account.code == built.code
        &&& files[k].account_seed == Some(built.seed)
        &&& files[k].account.nonce == 0
        &&& files[k].account.vault.len() == 0
    } by {
        assert(entropy[k].auth_scheme->pub_key@ == miden::falcon_public_key(
            entropy[k].auth_secret_key@,
        ));
    }
    assert forall|k: int| 0 <= k < wallets.len() implies {
        let input = inputs[#[trigger] wallets[k]]->BasicWallet_0;
        let built = miden::basic_wallet(
            entropy[n + k].init_seed@,
            input.account_type,
            miden::storage_mode_named(input.storage_mode@)->Some_0,
            miden::falcon_public_key(files[n + k].auth_secret_key),
        );
        &&& files[n + k].account.id == built.id
        &&& files[n + k].account.storage == built.storage
        &&& files[n + k].account.code == built.code
        &&& files[n + k].account_seed is None
        &&& files[n + k].account.nonce == 1
    } by {
        assert(entropy.skip(n)[k] == entropy[n + k]);
        assert(entropy[n + k].auth_scheme->pub_key@ == miden::falcon_public_key(
            entropy[n + k].auth_secret_key@,
        ));
    }
}

/// Each account of a plan whose random values a generator gave, as [`bootstrap::bootstrap_with`]
/// makes it, is the one that the protocol builds with the public key of the secret key in its file.
pub proof fn law_planned_accounts_belong_to_their_keys(
    plan: GenesisPlan,
    config: GenesisConfig,
    entropy: Seq<AccountEntropy>,
    rng: SeededRngView,
)
    requires
        bootstrap::is_plan(Ok(plan), config, entropy),
        bootstrap::is_entropy_for(entropy, config, rng),
    ensures
        plan.version == config.version,
        plan.timestamp == config.timestamp,
        plan.accounts@.len() == entropy.len(),
        ({
            let inputs = match config.accounts {
                Some(accounts) => accounts@,
                None => Seq::empty(),
            };
            let faucets = bootstrap::places(inputs, true);
            let wallets = bootstrap::places(inputs, false);
            let n = faucets.len() as int;
            &&& forall|k: int|
                0 <= k < n ==> {
                    let input = inputs[#[trigger] faucets[k]]->BasicFungibleFaucet_0;
                    let file = plan.accounts@[k];
                    let built = miden::basic_faucet(
                        entropy[k].init_seed@,
                        miden::symbol_code(input.token_symbol@) as u64,
                        input.decimals,
                        input.max_supply,
                        miden::storage_mode_named(input.storage_mode@)->Some_0,
                        miden::falcon_public_key(file.auth_secret_key@),
                    );
                    &&& file.account.id@ == built.id
                    &&& file.account.storage@ == built.storage
                    &&& file.account.code@ == built.code
                    &&& file.account.nonce == 0
                    &&& file.account_seed matches Some(seed) && seed@ == built.seed
                    &&& file.auth_secret_key@ == entropy[k].auth_secret_key@
                }
            &&& forall|k: int|
                0 <= k < wallets.len() ==> {
                    let input = inputs[#[trigger] wallets[k]]->BasicWallet_0;
                    let file = plan.accounts@[n + k];
                    let built = miden::basic_wallet(
                        entropy[n + k].init_seed@,
                        input.account_type,
                        miden::storage_mode_named(input.storage_mode@)->Some_0,
                        miden::falcon_public_key(file.auth_secret_key@),
                    );
                    &&& file.account.id@ == built.id
                    &&& file.account.storage@ == built.storage
                    &&& file.account.code@ == built.code
                    &&& file.account.nonce == 1
                    &&& file.account_seed is None
                    &&& file.auth_secret_key@ == entropy[n + k].auth_secret_key@
                }
        }),
{
    let inputs = bootstrap::inputs_of(config);
    let files = bootstrap::files_view(plan.accounts@);
    assert forall|k: int| 0 <= k < entropy.len() implies (
    #[trigger] entropy[k]).auth_scheme->pub_key@ == miden::falcon_public_key(
        entropy[k].auth_secret_key@,
    ) by {
        assert(bootstrap::is_drawn_from(entropy[k], bootstrap::after_accounts(rng, k as nat)));
    }
    law_accounts_belong_to_their_keys(inputs, entropy, files);
    law_secret_keys_are_kept(inputs, entropy, files);
    assert forall|k: int| 0 <= k < files.len() implies #[trigger] files[k]
        == plan.accounts@[k]@ by {}
    let n = bootstrap::places(inputs, true).len() as int;
    let wallets = bootstrap::places(inputs, false);
    assert forall|k: int| #![trigger wallets[k]] 0 <= k < wallets.len() implies files[n
        + k].auth_secret_key == entropy[n + k].auth_secret_key@ by {}
}

/// The random values of the account in place `k` are made of the forty words of the stream that start
/// forty times `k` after the position of the generator: eight for the seed of its key, the lower word
/// of each integer first, then the lowest byte of each of 32 for its own seed. Its public key is the
/// one of its secret key.
pub proof fn law_random_values_are_drawn_in_order(
    entropy: Seq<AccountEntropy>,
    config: GenesisConfig,
    rng: SeededRngView,
    k: nat,
)
    requires
        bootstrap::is_entropy_for(entropy, config, rng),
        k < entropy.len(),
        rng.position + 40 * (k + 1) <= u128::MAX,
    ensures
        forall|i: int|
            0 <= i < 32 ==> #[trigger] entropy[k as int].init_seed@[i] == random::chacha20_word(
                rng.seed,
                rng.position + 40 * k + 8 + i,
            ) % 0x100,
        exists|seed: Seq<u64>| #[trigger]
            miden::is_falcon_key_of(seed, entropy[k as int].auth_secret_key@) && seed.len() == 4
                && forall|i: int|
                0 <= i < 4 ==> (#[trigger] seed[i]) == random::chacha20_word(
                    rng.seed,
                    rng.position + 40 * k + 2 * i,
                ) + 0x1_0000_0000 * random::chacha20_word(
                    rng.seed,
                    rng.position + 40 * k + 2 * i + 1,
                ),
        entropy[k as int].auth_scheme->pub_key@ == miden::falcon_public_key(
            entropy[k as int].auth_secret_key@,
        ),
{
    lemma_position_after_accounts(rng, k);
    let start = bootstrap::after_accounts(rng, k);
    assert(bootstrap::is_drawn_from(entropy[k as int], start));
    assert(start.advanced(8).position == rng.position + 40 * k + 8);
    let seed = start.integers();
    assert(miden::is_falcon_key_of(seed, entropy[k as int].auth_secret_key@));
    assert forall|i: int| 0 <= i < 4 implies (#[trigger] seed[i]) == random::chacha20_word(
        rng.seed,
        rng.position + 40 * k + 2 * i,
    ) + 0x1_0000_0000 * random::chacha20_word(rng.seed, rng.position + 40 * k + 2 * i + 1) by {
        random::law_words_are_drawn_in_order(start, 8);
    }
}

/// A failure names the input that failed by its place in the configuration: the first faucet that
/// cannot be generated with the random values drawn for it or, if all faucets can, the first wallet
/// that cannot.
pub proof fn law_failure_names_the_first_input_that_fails(
    error: BootstrapError,
    config: GenesisConfig,
    entropy: Seq<AccountEntropy>,
)
    requires
        bootstrap::is_plan(Err(error), config, entropy),
    ensures
        config.accounts is Some,
        ({
            let inputs = config.accounts->Some_0@;
            let faucets = bootstrap::places(inputs, true);
            let wallets = bootstrap::places(inputs, false);
            match error {
                BootstrapError::Faucet { index, error } => exists|k: int|
                    {
                        &&& 0 <= k < faucets.len()
                        &&& #[trigger] faucets[k] == index
                        &&& bootstrap::faucet_file(
                            inputs[index as int]->BasicFungibleFaucet_0,
                            entropy[k],
                        ) == Err::<AccountFileView, _>(error)
                        &&& forall|j: int|
                            0 <= j < k ==> bootstrap::faucet_file(
                                inputs[#[trigger] faucets[j]]->BasicFungibleFaucet_0,
                                entropy[j],
                            ) is Ok
                    },
                BootstrapError::Wallet { index, error } => exists|k: int, files: Seq<AccountFileView>|
                    {
                        let ids = #[trigger] bootstrap::faucet_ids(inputs, files);
                        let rest = entropy.skip(faucets.len() as int);
                        &&& 0 <= k < wallets.len()
                        &&& #[trigger] wallets[k] == index
                        &&& files.len() == faucets.len()
                        &&& forall|j: int|
                            0 <= j < faucets.len() ==> bootstrap::faucet_file(
                                inputs[#[trigger] faucets[j]]->BasicFungibleFaucet_0,
                                entropy[j],
                            ) == Ok::<_, GenerateError>(files[j])
                        &&& bootstrap::wallet_result(
                            inputs[index as int]->BasicWallet_0,
                            rest[k],
                            ids,
                        ) == Err::<AccountFileView, _>(error@)
                        &&& forall|j: int|
                            0 <= j < k ==> bootstrap::wallet_result(
                                inputs[#[trigger] wallets[j]]->BasicWallet_0,
                                rest[j],
                                ids,
                            ) is Ok
                    },
            }
        }),
{
    let inputs = bootstrap::inputs_of(config);
    let faucets = bootstrap::places(inputs, true);
    let wallets = bootstrap::places(inputs, false);
    let results = bootstrap::faucet_results(inputs, entropy);
    law_collected(results);
    match bootstrap::collected(results) {
        Err((k, _)) => {
            assert(faucets[k] == error->Faucet_index);
            assert forall|j: int| 0 <= j < k implies bootstrap::faucet_file(
                inputs[#[trigger] faucets[j]]->BasicFungibleFaucet_0,
                entropy[j],
            ) is Ok by {
                assert(results[j] is Ok);
            }
        },
        Ok(files) => {
            let ids = bootstrap::faucet_ids(inputs, files);
            let rest = entropy.skip(files.len() as int);
            let more = bootstrap::wallet_results(inputs, rest, ids);
            law_collected(more);
            let k = bootstrap::collected(more)->Err_0.0;
            assert(wallets[k] == error->Wallet_index);
            assert forall|j: int| 0 <= j < faucets.len() implies bootstrap::faucet_file(
                inputs[#[trigger] faucets[j]]->BasicFungibleFaucet_0,
                entropy[j],
            ) == Ok::<_, GenerateError>(files[j]) by {
                assert(results[j] == Ok::<_, GenerateError>(files[j]));
            }
            assert forall|j: int| 0 <= j < k implies bootstrap::wallet_result(
                inputs[#[trigger] wallets[j]]->BasicWallet_0,
                rest[j],
                ids,
            ) is Ok by {
                assert(more[j] is Ok);
            }
        },
    }
}

/// Errors are seen part by part as they are.
pub proof fn law_errors_are_seen_as_they_are(error: BootstrapError)
    ensures
        match error {
            BootstrapError::Faucet { index, error: cause } => error@ == (
            BootstrapErrorView::Faucet { index: index as int, error: cause }),
            BootstrapError::Wallet { index, error: WalletError::Generate(cause) } => error@ == (
            BootstrapErrorView::Wallet {
                index: index as int,
                error: WalletErrorView::Generate(cause),
            }),
            BootstrapError::Wallet {
                index,
                error: WalletError::Asset(AssetInputError::FaucetNotFound(symbol)),
            } => error@ == (BootstrapErrorView::Wallet {
                index: index as int,
                error: WalletErrorView::Asset(AssetInputErrorView::FaucetNotFound(symbol@)),
            }),
            BootstrapError::Wallet {
                index,
                error: WalletError::Asset(AssetInputError::InvalidAsset(symbol)),
            } => error@ == (BootstrapErrorView::Wallet {
                index: index as int,
                error: WalletErrorView::Asset(AssetInputErrorView::InvalidAsset(symbol@)),
            }),
        },
{
}

/// Different accounts are built from different words of the random stream, as long as the stream
/// does not come to its end.
pub proof fn law_accounts_draw_apart(rng: SeededRngView, i: nat, j: nat)
    requires
        i < j,
        rng.position + (j + 1) * bootstrap::WORDS_PER_ACCOUNT <= u128::MAX,
    ensures
        bootstrap::after_accounts(rng, i).seed == bootstrap::after_accounts(rng, j).seed,
        bootstrap::after_accounts(rng, i).position + bootstrap::WORDS_PER_ACCOUNT
            <= bootstrap::after_accounts(rng, j).position,
{
    lemma_position_after_accounts(rng, i);
    lemma_position_after_accounts(rng, j);
}

/// Forty words are drawn for each account, as long as the stream does not come to its end.
pub proof fn law_forty_words_are_drawn_for_each_account(rng: SeededRngView, accounts: nat)
    requires
        rng.position + 40 * accounts <= u128::MAX,
    ensures
        bootstrap::after_accounts(rng, accounts).seed == rng.seed,
        bootstrap::after_accounts(rng, accounts).position == rng.position + 40 * accounts,
{
    lemma_position_after_accounts(rng, accounts);
}

proof fn lemma_position_after_accounts(rng: SeededRngView, n: nat)
    requires
        rng.position + n * bootstrap::WORDS_PER_ACCOUNT <= u128::MAX,
    ensures
        bootstrap::after_accounts(rng, n).seed == rng.seed,
        bootstrap::after_accounts(rng, n).position == rng.position + n
            * bootstrap::WORDS_PER_ACCOUNT,
    decreases n,
{
    if n > 0 {
        lemma_position_after_accounts(rng, (n - 1) as nat);
    }
}

/// A token is known exactly if a faucet for it is declared, anywhere among the inputs. Of several
/// faucets for one token, the last one counts.
pub proof fn law_last_faucet_counts(
    inputs: Seq<AccountInput>,
    files: Seq<AccountFileView>,
    symbol: Seq<char>,
)
    ensures
        ({
            let places = bootstrap::places(inputs, true);
            let declares = |k: int|
                inputs[places[k]]->BasicFungibleFaucet_0.token_symbol@ == symbol;
            let ids = bootstrap::faucet_ids(inputs, files);
            &&& ids.contains_key(symbol) <==> exists|k: int|
                0 <= k < places.len() && #[trigger] declares(k)
            &&& forall|k: int|
                0 <= k < places.len() && #[trigger] declares(k) && (forall|l: int|
                    k < l < places.len() ==> !#[trigger] declares(l)) ==> ids[symbol]
                    == files[k].account.id
        }),
    decreases inputs.len(),
{
    if inputs.len() > 0 {
        let before = inputs.drop_last();
        law_last_faucet_counts(before, files, symbol);
        law_places(before, true);
        law_places(inputs, true);
        let places = bootstrap::places(inputs, true);
        let earlier = bootstrap::places(before, true);
        let declares = |k: int| inputs[places[k]]->BasicFungibleFaucet_0.token_symbol@ == symbol;
        let declared = |k: int| before[earlier[k]]->BasicFungibleFaucet_0.token_symbol@ == symbol;
        let ids = bootstrap::faucet_ids(inputs, files);
        let old_ids = bootstrap::faucet_ids(before, files);
        assert forall|k: int| 0 <= k < earlier.len() implies #[trigger] declares(k) == declared(
            k,
        ) by {
            assert(places[k] == earlier[k]);
            assert(before[earlier[k]] == inputs[earlier[k]]);
        }
        if inputs.last() is BasicFungibleFaucet {
            let last = earlier.len() as int;
            assert(places[last] == inputs.len() - 1);
            let name = inputs.last()->BasicFungibleFaucet_0.token_symbol@;
            assert(declares(last) == (name == symbol));
        }
        if ids.contains_key(symbol) {
            if old_ids.contains_key(symbol) {
                let k = choose|k: int| 0 <= k < earlier.len() && #[trigger] declared(k);
                assert(declares(k));
            } else {
                assert(declares(earlier.len() as int));
            }
        }
        if exists|k: int| 0 <= k < places.len() && #[trigger] declares(k) {
            let k = choose|k: int| 0 <= k < places.len() && #[trigger] declares(k);
            if k < earlier.len() {
                assert(declared(k));
            }
        }
        assert forall|k: int|
            0 <= k < places.len() && #[trigger] declares(k) && (forall|l: int|
                k < l < places.len() ==> !#[trigger] declares(l)) implies ids[symbol]
            == files[k].account.id by {
            if k < earlier.len() {
                assert(declared(k));
                assert forall|l: int| k < l < earlier.len() implies !#[trigger] declared(l) by {
                    assert(!declares(l));
                }
                if inputs.last() is BasicFungibleFaucet {
                    assert(!declares(earlier.len() as int));
                }
            }
        }
    }
}

/// A generated wallet holds exactly the assets that are declared for it, in order: of each declared
/// token the declared amount, issued by the faucet of that token.
pub proof fn law_wallet_holds_declared_assets(
    input: BasicWalletInputs,
    entropy: AccountEntropy,
    faucets: Map<Seq<char>, AccountIdView>,
    file: AccountFileView,
)
    requires
        bootstrap::wallet_result(input, entropy, faucets) == Ok::<_, WalletErrorView>(file),
    ensures
        file.account.vault.len() == (match input.assets {
            Some(assets) => assets@.len() as int,
            None => 0,
        }),
        forall|j: int|
            0 <= j < file.account.vault.len() ==> {
                let declared = input.assets->Some_0@[j];
                &&& faucets.contains_key(declared.token_symbol@)
                &&& #[trigger] file.account.vault[j] == (FungibleAssetView {
                    faucet_id: faucets[declared.token_symbol@],
                    amount: declared.amount,
                })
                &&& account::is_fungible_asset(file.account.vault[j])
            },
        miden::distinct_faucets(file.account.vault),
{
    let results = bootstrap::asset_inputs(input).map_values(
        |input: AssetInput| genesis::declared_asset(input, faucets),
    );
    law_collected(results);
    assert forall|j: int|
        #![trigger file.account.vault[j]]
        #![trigger bootstrap::asset_inputs(input)[j]]
        0 <= j < file.account.vault.len() implies {
        let declared = input.assets->Some_0@[j];
        &&& faucets.contains_key(declared.token_symbol@)
        &&& file.account.vault[j] == (FungibleAssetView {
            faucet_id: faucets[declared.token_symbol@],
            amount: declared.amount,
        })
        &&& account::is_fungible_asset(file.account.vault[j])
    } by {
        assert(results[j] == genesis::declared_asset(bootstrap::asset_inputs(input)[j], faucets));
    }
}

/// A faucet is generated exactly if its storage mode is known, its symbol is one to six capital
/// letters, it has at most twelve decimals, and its supply is below `2^63`. The error names the first
/// part that is not valid, in the order mode, symbol, supply as a field element, and the rest.
pub proof fn law_faucets_are_generated_unless_refused(
    input: BasicFungibleFaucetInputs,
    entropy: AccountEntropy,
)
    ensures
        ({
            let mode_is_known = miden::storage_mode_named(input.storage_mode@) is Some;
            let symbol = input.token_symbol@;
            let symbol_is_valid = 1 <= symbol.len() <= 6 && forall|i: int|
                0 <= i < symbol.len() ==> 'A' <= #[trigger] symbol[i] <= 'Z';
            match bootstrap::faucet_file(input, entropy) {
                Ok(_) => mode_is_known && symbol_is_valid && input.decimals <= 12
                    && input.max_supply < 0x8000_0000_0000_0000,
                Err(GenerateError::UnknownStorageMode) => !mode_is_known,
                Err(GenerateError::InvalidTokenSymbol) => mode_is_known && !symbol_is_valid,
                Err(GenerateError::InvalidMaxSupply) => mode_is_known && symbol_is_valid
                    && input.max_supply >= 0xffff_ffff_0000_0001,
                Err(GenerateError::CreationFailed) => mode_is_known && symbol_is_valid
                    && input.max_supply < 0xffff_ffff_0000_0001 && (input.decimals > 12
                    || input.max_supply >= 0x8000_0000_0000_0000),
            }
        }),
{
}

/// A wallet is generated exactly if its storage mode is known, its type is that of a regular account,
/// and no two of its assets are of the same faucet; it holds these assets.
pub proof fn law_wallets_are_generated_unless_refused(
    input: BasicWalletInputs,
    entropy: AccountEntropy,
    assets: Seq<FungibleAssetView>,
)
    ensures
        ({
            let mode_is_known = miden::storage_mode_named(input.storage_mode@) is Some;
            let is_faucet = input.account_type is FungibleFaucet
                || input.account_type is NonFungibleFaucet;
            let repeats = exists|j: int, l: int|
                0 <= j < l < assets.len() && #[trigger] assets[j].faucet_id
                    == #[trigger] assets[l].faucet_id;
            match bootstrap::wallet_file(input, entropy, assets) {
                Ok(file) => mode_is_known && !is_faucet && !repeats && file.account.vault == assets,
                Err(GenerateError::UnknownStorageMode) => !mode_is_known,
                Err(GenerateError::CreationFailed) => mode_is_known && (is_faucet || repeats),
                Err(_) => false,
            }
        }),
{
}

/// A wallet without declared assets is generated without assets, and the first declared asset that
/// cannot be made is the one that is reported.
pub proof fn law_first_refused_asset_is_reported(
    input: BasicWalletInputs,
    entropy: AccountEntropy,
    faucets: Map<Seq<char>, AccountIdView>,
)
    ensures
        input.assets is None ==> (bootstrap::wallet_result(input, entropy, faucets) matches Ok(file)
            ==> file.account.vault.len() == 0),
        bootstrap::wallet_result(input, entropy, faucets) matches Err(WalletErrorView::Asset(error))
            ==> input.assets is Some && exists|j: int|
            0 <= j < input.assets->Some_0@.len() && genesis::declared_asset(
                #[trigger] input.assets->Some_0@[j],
                faucets,
            ) == Err::<FungibleAssetView, _>(error) && forall|i: int|
                0 <= i < j ==> genesis::declared_asset(
                    #[trigger] input.assets->Some_0@[i],
                    faucets,
                ) is Ok,
{
    let declared = bootstrap::asset_inputs(input);
    let results = declared.map_values(|input: AssetInput| genesis::declared_asset(input, faucets));
    law_collected(results);
    match bootstrap::collected(results) {
        Err((j, error)) => {
            assert(results[j] == genesis::declared_asset(declared[j], faucets));
            assert forall|i: int| 0 <= i < j implies genesis::declared_asset(
                #[trigger] declared[i],
                faucets,
            ) is Ok by {
                assert(results[i] is Ok);
            }
            assert(input.assets is Some);
            assert(input.assets->Some_0@[j] == declared[j]);
        },
        Ok(_) => {},
    }
}

/// The name of an account's file is `account_`, the place of the account in decimal, and `.mac`: what
/// stands between the two reads as that place.
pub proof fn law_file_name_tells_the_place(index: nat)
    ensures
        ({
            let name = bootstrap::account_file_name_spec(index);
            &&& name.len() >= 13
            &&& name.take(8) == "account_"@
            &&& name.skip(name.len() - 4) == ".mac"@
            &&& text::number_of(name.subrange(8, name.len() - 4)) == index
        }),
{
    reveal_strlit("account_");
    reveal_strlit(".mac");
    text::law_decimal_reads_back(index);
    let name = bootstrap::account_file_name_spec(index);
    assert(name.take(8) =~= "account_"@);
    assert(name.skip(name.len() - 4) =~= ".mac"@);
    assert(name.subrange(8, name.len() - 4) =~= text::decimal(index));
}

/// No two accounts are written to the same file.
pub proof fn law_file_names_differ(i: nat, j: nat)
    requires
        i != j,
    ensures
        bootstrap::account_file_name_spec(i) != bootstrap::account_file_name_spec(j),
{
    if bootstrap::account_file_name_spec(i) == bootstrap::account_file_name_spec(j) {
        let prefix = "account_"@;
        let suffix = ".mac"@;
        let a = bootstrap::account_file_name_spec(i);
        let b = bootstrap::account_file_name_spec(j);
        assert(a.len() == prefix.len() + text::decimal(i).len() + suffix.len());
        assert(b.len() == prefix.len() + text::decimal(j).len() + suffix.len());
        let n = prefix.len() as int;
        assert(a.subrange(n, n + text::decimal(i).len()) =~= text::decimal(i));
        assert(b.subrange(n, n + text::decimal(j).len()) =~= text::decimal(j));
        text::lemma_decimal_injective(i, j);
    }
}

/// The default configuration declares nothing that would be refused, so that its accounts can always
/// be generated.
pub proof fn law_default_config_is_sound(config: GenesisConfig, unix_seconds: u64)
    requires
        genesis::is_default_config(config, unix_seconds),
    ensures
        bootstrap::inputs_of(config).len() == 1,
        bootstrap::are_sound(bootstrap::inputs_of(config)),
        bootstrap::at_most_one_asset_each(bootstrap::inputs_of(config)),
{
    reveal_strlit("POL");
    miden::lemma_storage_mode_names();
}

} // verus!
