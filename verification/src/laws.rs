//! Laws of the minter that span its operations.
use vstd::prelude::*;

use crate::contract::{
    config_only_result, giveaways_requested,
    added_nft_contract, giveaways_check, giveaways_result, is_admin, purchase_check,
    purchase_result, started_mint, stopped_mint, supply_check, ContractError, CosmosAction,
    HandleOutcome, MinterState,
};
use crate::entropy::{lemma_truncated_entropy_len, ENTROPY_POOL_LEN};
use crate::draw::{
    batch_by, counters_fit, drawn, lemma_draws_conserve_numbers, lemma_draws_count_mints,
    lemma_counters_grow, lemma_draws_distinct, total, Draw,
};
use crate::msg::{Mint, NftsHandleMsg, Trait};
use crate::state::{ConfigView, SecretContract};
use crate::token::is_private_rock_metadata;

verus! {

/// Law: the two revenue shares of a payment never add up to more than the payment, and at
/// most one unit of it stays with the minter.
pub proof fn lemma_revenue_split(amount: u128)
    ensures
        amount * 15 / 1000 + amount * 985 / 1000 <= amount,
        amount - (amount * 15 / 1000 + amount * 985 / 1000) <= 1,
{
    let a = amount as int;
    let q = a / 1000;
    let r = a % 1000;
    assert(a == 1000 * q + r && 0 <= r < 1000);
    assert(a * 15 == 1000 * (15 * q) + 15 * r) by (nonlinear_arith)
        requires
            a == 1000 * q + r,
    ;
    assert(a * 985 == 1000 * (985 * q) + 985 * r) by (nonlinear_arith)
        requires
            a == 1000 * q + r,
    ;
    let f1 = 15 * r / 1000;
    let f2 = 985 * r / 1000;
    assert(a * 15 / 1000 == 15 * q + f1) by (nonlinear_arith)
        requires
            a * 15 == 1000 * (15 * q) + 15 * r,
            0 <= r < 1000,
            f1 == 15 * r / 1000,
    ;
    assert(a * 985 / 1000 == 985 * q + f2) by (nonlinear_arith)
        requires
            a * 985 == 1000 * (985 * q) + 985 * r,
            0 <= r < 1000,
            f2 == 985 * r / 1000,
    ;
    assert(r - 1 <= f1 + f2 <= r) by (nonlinear_arith)
        requires
            0 <= r < 1000,
            f1 == 15 * r / 1000,
            f2 == 985 * r / 1000,
    ;
}

/// Law: nobody but the administrator adds the collection, starts or stops the sale, or mints
/// the giveaways; each of them is refused as unauthorized.
pub proof fn lemma_only_admin(config: ConfigView, sender: String, contract: SecretContract)
    requires
        !is_admin(config, sender),
    ensures
        added_nft_contract(config, sender, contract) == Err::<ConfigView, ContractError>(
            ContractError::Unauthorized,
        ),
        started_mint(config, sender) == Err::<ConfigView, ContractError>(
            ContractError::Unauthorized,
        ),
        stopped_mint(config, sender) == Err::<ConfigView, ContractError>(
            ContractError::Unauthorized,
        ),
        giveaways_check(config, sender) == Err::<(), ContractError>(ContractError::Unauthorized),
{
}

/// Law: starting and then stopping the sale leaves the configuration as it was, but for the
/// sale being stopped.
pub proof fn lemma_start_then_stop(config: ConfigView, sender: String)
    requires
        started_mint(config, sender) is Ok,
    ensures
        stopped_mint(started_mint(config, sender)->Ok_0, sender) == Ok::<
            ConfigView,
            ContractError,
        >(ConfigView { mint_started: false, ..config }),
{
    assert(ConfigView { mint_started: false, ..started_mint(config, sender)->Ok_0 }
        =~= ConfigView { mint_started: false, ..config });
}

/// Law: the sale opens only once a collection is known, and the collection is set only while
/// the sale is closed, so it never changes while tokens are being sold.
pub proof fn lemma_collection_fixed_while_selling(
    config: ConfigView,
    sender: String,
    contract: SecretContract,
)
    ensures
        started_mint(config, sender) is Ok ==> config.nft_contract is Some,
        added_nft_contract(config, sender, contract) is Ok ==> !config.mint_started,
        added_nft_contract(config, sender, contract) is Ok ==> !(added_nft_contract(
            config,
            sender,
            contract,
        )->Ok_0.mint_started),
{
}

/// Law: a purchase that passes its checks is paid exactly the price of what it mints, stays
/// within the per-purchase cap, happens while the sale is open, and never mints beyond the
/// collection's limit.
pub proof fn lemma_purchase_within_bounds(config: ConfigView, count: u32, amount: u128, supply: u32)
    requires
        purchase_check(config, count, amount) is Ok,
        supply_check(config, count as int, supply, ContractError::NotEnoughMints) is Ok,
        supply <= config.mint_limit,
    ensures
        amount == config.mint_price * count,
        count <= config.mint_amount_cap_per_tx,
        config.mint_started,
        config.nft_contract is Some,
        supply + count <= config.mint_limit,
        supply < config.mint_limit,
{
}

/// Law: the rocks of one batch keep different secret numbers, each taken from the list, and
/// the minted counters grow by exactly the number of rocks.
pub proof fn lemma_batch_secrets_distinct(
    draws: Seq<Draw>,
    owners: Seq<String>,
    utilities: Seq<Seq<Trait>>,
    list: Seq<u32>,
    counters: Seq<u32>,
    mints: Seq<Mint>,
    counters_after_batch: Seq<u32>,
)
    requires
        batch_by(draws, owners, utilities, list, counters, mints, counters_after_batch),
        list.no_duplicates(),
        counters_fit(counters, draws),
    ensures
        mints.len() == owners.len(),
        forall|i: int| 0 <= i < mints.len() ==> (#[trigger] mints[i]).owner == Some(owners[i]),
        drawn(list, draws).len() == mints.len(),
        drawn(list, draws).no_duplicates(),
        forall|i: int|
            0 <= i < mints.len() ==> list.contains(#[trigger] drawn(list, draws)[i])
                && is_private_rock_metadata(mints[i].private_metadata, drawn(list, draws)[i]),
        total(counters_after_batch) == total(counters) + owners.len(),
{
    lemma_draws_conserve_numbers(list, utilities.len(), draws);
    lemma_draws_distinct(list, utilities.len(), draws);
    lemma_draws_count_mints(counters, draws);
    let numbers = drawn(list, draws);
    assert forall|i: int| 0 <= i < mints.len() implies list.contains(#[trigger] numbers[i])
        && is_private_rock_metadata(mints[i].private_metadata, numbers[i]) by {
        assert(numbers.contains(numbers[i]));
    }
}

/// What every handled message keeps: the administrator, the payment token, the hashed seed,
/// the price, the limit, the utilities and the per-purchase cap stay; there are as many minted
/// counters and none goes down; the pending giveaways stay or are emptied; and an open sale
/// stays open, in the same collection.
pub open spec fn settings_kept(before: ConfigView, after: ConfigView) -> bool {
    &&& after.admin == before.admin
    &&& after.token_contract == before.token_contract
    &&& after.prng_seed == before.prng_seed
    &&& after.mint_price == before.mint_price
    &&& after.mint_limit == before.mint_limit
    &&& after.utilities == before.utilities
    &&& after.mint_amount_cap_per_tx == before.mint_amount_cap_per_tx
    &&& after.minted_current_utilities.len() == before.minted_current_utilities.len()
    &&& forall|j: int|
        0 <= j < before.minted_current_utilities.len() ==> before.minted_current_utilities[j]
            <= #[trigger] after.minted_current_utilities[j]
    &&& after.giveaways_to_send == before.giveaways_to_send || after.giveaways_to_send.len() == 0
    &&& before.mint_started ==> after.mint_started && after.nft_contract == before.nft_contract
}

/// Law: adding the collection and starting the sale keep the settings (see `settings_kept`).
pub proof fn lemma_config_messages_keep_settings(
    config: ConfigView,
    sender: String,
    contract: SecretContract,
)
    ensures
        added_nft_contract(config, sender, contract) is Ok ==> settings_kept(
            config,
            added_nft_contract(config, sender, contract)->Ok_0,
        ),
        started_mint(config, sender) is Ok ==> settings_kept(
            config,
            started_mint(config, sender)->Ok_0,
        ),
{
}

/// Law: a purchase that goes through keeps the settings (see `settings_kept`) and the sale
/// open; and a pool of 1000 bytes or more keeps its length.
pub proof fn lemma_purchase_keeps_settings(
    state: MinterState,
    block_time: u64,
    from: String,
    amount: u128,
    count: u32,
    entropy: Seq<u8>,
    supply: u32,
    outcome: HandleOutcome,
)
    requires
        purchase_result(state, block_time, from, amount, count, entropy, supply, Some(Ok(outcome))),
    ensures
        settings_kept(state.config@, outcome.config@),
        state.additional_entropy@.len() >= ENTROPY_POOL_LEN ==> (outcome.additional_entropy matches Some(
            pool,
        ) && pool@.len() == state.additional_entropy@.len()),
{
    let values = crate::contract::purchase_values(state, block_time, count, entropy);
    let draws = crate::contract::purchase_draws(values);
    lemma_counters_grow(state.config.minted_current_utilities@, draws);
    lemma_truncated_entropy_len(entropy);
}

/// Law: giveaways that go through keep the settings (see `settings_kept`) and the sale open.
pub proof fn lemma_giveaways_keep_settings(
    state: MinterState,
    sender: String,
    block_time: u64,
    supply: u32,
    outcome: HandleOutcome,
)
    requires
        giveaways_result(state, sender, block_time, supply, Some(Ok(outcome))),
    ensures
        settings_kept(state.config@, outcome.config@),
{
    let values = crate::contract::giveaways_values(state, block_time);
    lemma_counters_grow(state.config.minted_current_utilities@, crate::draw::paired(values));
}

/// Law: the settings kept by one handled message are kept through any sequence of them, so
/// an open sale stays open in the same collection whatever messages follow.
pub proof fn lemma_settings_kept_through(configs: Seq<ConfigView>)
    requires
        configs.len() > 0,
        forall|i: int| 0 <= i < configs.len() - 1 ==> settings_kept(configs[i], #[trigger] configs[i + 1]),
    ensures
        settings_kept(configs[0], configs.last()),
    decreases configs.len(),
{
    if configs.len() > 1 {
        let prefix = configs.drop_last();
        assert forall|i: int| 0 <= i < prefix.len() - 1 implies settings_kept(
            prefix[i],
            #[trigger] prefix[i + 1],
        ) by {
            assert(prefix[i] == configs[i] && prefix[i + 1] == configs[i + 1]);
        }
        lemma_settings_kept_through(prefix);
        let a = configs[0];
        let b = prefix.last();
        let c = configs.last();
        let k = configs.len() - 2;
        assert(b == configs[k] && c == configs[k + 1]);
        assert(settings_kept(configs[k], configs[k + 1]));
        assert forall|j: int| 0 <= j < a.minted_current_utilities.len() implies a.minted_current_utilities[j]
            <= #[trigger] c.minted_current_utilities[j] by {
            assert(a.minted_current_utilities[j] <= b.minted_current_utilities[j]);
            assert(b.minted_current_utilities[j] <= c.minted_current_utilities[j]);
        }
    } else {
        assert(configs[0] == configs.last());
        assert(settings_kept(configs[0], configs[0]));
    }
}

/// Law: each giveaway address gets its rock once: after giveaways that went through, asking
/// again while the collection is short of its limit mints nothing and leaves the configuration
/// as it is.
pub proof fn lemma_giveaways_once(
    first: MinterState,
    second: MinterState,
    sender: String,
    first_time: u64,
    second_time: u64,
    first_supply: u32,
    second_supply: u32,
    first_outcome: HandleOutcome,
    second_result: Option<Result<HandleOutcome, ContractError>>,
)
    requires
        giveaways_result(first, sender, first_time, first_supply, Some(Ok(first_outcome))),
        second.config@ == first_outcome.config@,
        second_supply < second.config.mint_limit,
        giveaways_result(second, sender, second_time, second_supply, second_result),
    ensures
        second_result matches Some(Ok(second_outcome)) && {
            &&& second_outcome.config@ == first_outcome.config@
            &&& second_outcome.messages@[0] matches CosmosAction::Mint {
                msg: NftsHandleMsg::BatchMintNft { mints, .. },
                ..
            }
            &&& mints@.len() == 0
        },
{
    let values = crate::contract::giveaways_values(second, second_time);
    assert(second.config.giveaways_to_send@.len() == 0);
    assert(crate::contract::giveaways_uppers(second).len() == 0);
    assert(crate::draw::paired(values).len() == 0);
    let counters = second.config.minted_current_utilities@;
    assert(crate::draw::counters_after(counters, crate::draw::paired(values)) =~= counters);
    let second_outcome = second_result->Some_0->Ok_0;
    assert(second_outcome.config@ =~= second.config@);
}

/// Law: a purchase is reproducible: the same state, block time, buyer, payment, count, entropy
/// and supply give the same answer, the same configuration and the same pool.
pub proof fn lemma_purchase_reproducible(
    state: MinterState,
    block_time: u64,
    from: String,
    amount: u128,
    count: u32,
    entropy: Seq<u8>,
    supply: u32,
    first: Option<Result<HandleOutcome, ContractError>>,
    second: Option<Result<HandleOutcome, ContractError>>,
)
    requires
        purchase_result(state, block_time, from, amount, count, entropy, supply, first),
        purchase_result(state, block_time, from, amount, count, entropy, supply, second),
    ensures
        first is None <==> second is None,
        first matches Some(Err(e)) ==> second == first,
        first matches Some(Ok(a)) ==> (second matches Some(Ok(b)) && {
            &&& a.config@ == b.config@
            &&& a.answer == b.answer
            &&& a.additional_entropy->Some_0@ == b.additional_entropy->Some_0@
        }),
{
}

/// Law: giveaways are reproducible: the same state, sender, block time and supply give the
/// same answer and the same configuration.
pub proof fn lemma_giveaways_reproducible(
    state: MinterState,
    sender: String,
    block_time: u64,
    supply: u32,
    first: Option<Result<HandleOutcome, ContractError>>,
    second: Option<Result<HandleOutcome, ContractError>>,
)
    requires
        giveaways_result(state, sender, block_time, supply, first),
        giveaways_result(state, sender, block_time, supply, second),
    ensures
        first is None <==> second is None,
        first matches Some(Err(e)) ==> second == first,
        first matches Some(Ok(a)) ==> (second matches Some(Ok(b)) && a.config@ == b.config@
            && a.answer == b.answer),
{
}

/// Law: once the sale has started, whatever handled messages follow (each keeping the settings,
/// see `settings_kept`), the administrator cannot replace the collection: adding one is refused
/// as long as the sale is open, and the collection stays the one the sale started with.
pub proof fn lemma_collection_fixed_after_start(
    before: ConfigView,
    starter: String,
    configs: Seq<ConfigView>,
    sender: String,
    contract: SecretContract,
)
    requires
        started_mint(before, starter) is Ok,
        configs.len() > 0,
        configs[0] == started_mint(before, starter)->Ok_0,
        forall|i: int| 0 <= i < configs.len() - 1 ==> settings_kept(configs[i], #[trigger] configs[i + 1]),
        is_admin(configs.last(), sender),
    ensures
        configs.last().mint_started,
        configs.last().nft_contract == before.nft_contract,
        added_nft_contract(configs.last(), sender, contract) == Err::<ConfigView, ContractError>(
            ContractError::MintNotStopped,
        ),
{
    lemma_settings_kept_through(configs);
}

/// Law: the administrator can always set the collection while the sale is stopped, and the
/// collection then stored is exactly the one given, whatever was set before; nothing else in
/// the configuration changes.
pub proof fn lemma_add_collection_sets_it(
    config: ConfigView,
    sender: String,
    contract: SecretContract,
    result: Result<HandleOutcome, ContractError>,
)
    requires
        config_only_result(result, added_nft_contract(config, sender, contract)),
        sender@ == config.admin@,
        !config.mint_started,
    ensures
        result matches Ok(outcome) && outcome.config@.nft_contract == Some(contract)
            && outcome.config@ == (ConfigView { nft_contract: Some(contract), ..config }),
{
}

/// Law: the administrator can always open the sale once a collection is set, whatever has been
/// minted so far: the sale is then open and nothing else in the configuration changes.
pub proof fn lemma_start_opens_the_sale(
    config: ConfigView,
    sender: String,
    result: Result<HandleOutcome, ContractError>,
)
    requires
        config_only_result(result, started_mint(config, sender)),
        sender@ == config.admin@,
        config.nft_contract is Some,
    ensures
        result matches Ok(outcome) && outcome.config@.mint_started
            && outcome.config@ == (ConfigView { mint_started: true, ..config }),
{
}

/// Law: a purchase that is paid exactly, within the per-purchase cap, while the sale is open in
/// a collection that still has at least `count` tokens left, is never refused: it either goes
/// through or finds that the drawn values cannot be carried out. In particular a purchase of
/// exactly the tokens left goes through.
pub proof fn lemma_purchase_within_supply_not_refused(
    state: MinterState,
    block_time: u64,
    from: String,
    amount: u128,
    count: u32,
    entropy: Seq<u8>,
    supply: u32,
    result: Option<Result<HandleOutcome, ContractError>>,
)
    requires
        purchase_result(state, block_time, from, amount, count, entropy, supply, result),
        count <= state.config.mint_amount_cap_per_tx,
        state.config.mint_started,
        state.config.nft_contract is Some,
        state.config.mint_price * count == amount,
        supply < state.config.mint_limit,
        count <= state.config.mint_limit - supply,
    ensures
        !(result matches Some(Err(_))),
{
}

/// Law: a purchase is refused for want of tokens only when fewer than `count` are left in the
/// collection.
pub proof fn lemma_not_enough_mints_only_when_short(
    state: MinterState,
    block_time: u64,
    from: String,
    amount: u128,
    count: u32,
    entropy: Seq<u8>,
    supply: u32,
    result: Option<Result<HandleOutcome, ContractError>>,
)
    requires
        purchase_result(state, block_time, from, amount, count, entropy, supply, result),
        result == Some(Err::<HandleOutcome, ContractError>(ContractError::NotEnoughMints)),
    ensures
        state.config.mint_limit - supply < count,
{
}

/// Law: the administrator can mint the giveaways as soon as a collection is set, whether or not
/// the sale is open and however many addresses are pending, as long as the collection has room
/// for them all: the giveaways are never refused then.
pub proof fn lemma_giveaways_need_only_admin_collection_and_room(
    state: MinterState,
    sender: String,
    block_time: u64,
    supply: u32,
    result: Option<Result<HandleOutcome, ContractError>>,
)
    requires
        giveaways_result(state, sender, block_time, supply, result),
        sender@ == state.config.admin@,
        state.config.nft_contract is Some,
        supply < state.config.mint_limit,
        state.config.giveaways_to_send@.len() <= state.config.mint_limit - supply,
    ensures
        giveaways_check(state.config@, sender) is Ok,
        !(result matches Some(Err(_))),
{
    assert(giveaways_requested(state.config@) == state.config.giveaways_to_send@.len());
}

} // verus!
