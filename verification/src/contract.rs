//! The minter's decisions: instantiation, the handled messages and the query.
use vstd::prelude::*;
use vstd::utf8::encode_utf8;

use crate::draw::{
    batch_by, batch_uppers, counters_fit, draws_within, fits_counters, lemma_paired_valid,
    mint_batch, pair_draws, paired, push_batch_uppers, Draw,
};
use crate::entropy::{
    char_boundary_at, generator_seed, initial_entropy_pool, initial_pool, is_char_boundary,
    mix_entropy, mixed_entropy, prng_seed_for, truncate_entropy, truncated_entropy,
    ENTROPY_POOL_LEN, MAX_USER_ENTROPY,
};
use crate::msg::{
    HandleAnswer, HandleMsg, InitMsg, NftsHandleMsg, QueryAnswer, QueryMsg, ResponseStatus,
};
use crate::outside::{
    chacha_draws, chacha_draws_from_seed, chacha_shuffle, chacha_shuffled, multiply_ratio,
    secret_toolkit_sha_256, toolkit_sha_256,
};
use crate::state::{
    duplicate_contract, duplicate_u32s, duplicate_utilities, utilities_view, Config, ConfigView,
    SecretContract,
};

verus! {

/// Messages to other contracts are padded to blocks of this many bytes.
pub const BLOCK_SIZE: usize = 256;

/// Everything the minter keeps between messages.
#[derive(Clone, Debug, PartialEq, Eq)]
pub struct MinterState {
    pub config: Config,
    /// The pool of entropy that buyers feed: the bytes of a UTF-8 text.
    pub additional_entropy: Vec<u8>,
    /// The shuffled secret numbers that tokens are minted with.
    pub secret_numbers: Vec<u32>,
}

/// Why a message is refused.
#[derive(Clone, Debug, PartialEq, Eq)]
pub enum ContractError {
    /// "Only admin can execute this action!"
    Unauthorized,
    /// "Mint should be stoped to perform this"
    MintNotStopped,
    /// "A NFT contract should be added before this action"
    NoNftContractForGiveaways,
    /// "A NFT contract should be added before the mint is started"
    NoNftContractForStart,
    /// "Nft needs to be added!"
    NoNftContract,
    /// "No more mints available!"
    NoMoreMints,
    /// "Giveaway mints surpass the mint limit!"
    GiveawaysSurpassLimit,
    /// "Only {cap} tokens can be minted at the same time!"
    TooManyTokens { cap: u32 },
    /// "Mint has not started yet!"
    MintNotStarted,
    /// "Incorrect amount of snip20 tokens received {received} != {expected}"
    IncorrectAmount { received: u128, expected: u128 },
    /// "Not sufficient available mints to satisfy this request!"
    NotEnoughMints,
    /// "Invalid token sent!"
    InvalidToken,
    /// "Receive handler not found!"
    ReceiveHandlerNotFound,
    /// "action not found!"
    ActionNotFound,
}

/// A message that the minter sends to another contract.
#[derive(Clone, Debug, PartialEq, Eq)]
pub enum CosmosAction {
    /// Registers the minter with the payment token, so that the token forwards what it receives.
    RegisterReceive { code_hash: String, block_size: usize, token: SecretContract },
    /// A transfer of payment tokens from the minter.
    Transfer { recipient: String, amount: u128, block_size: usize, token: SecretContract },
    /// Mints in the collection.
    Mint { nft: SecretContract, msg: NftsHandleMsg },
}

/// What instantiation stores and sends.
#[derive(Clone, Debug, PartialEq, Eq)]
pub struct InitOutcome {
    pub state: MinterState,
    pub messages: Vec<CosmosAction>,
}

/// What a handled message stores and sends.
#[derive(Clone, Debug, PartialEq, Eq)]
pub struct HandleOutcome {
    /// The configuration to store.
    pub config: Config,
    /// The pool of entropy to store, when it changed.
    pub additional_entropy: Option<Vec<u8>>,
    pub messages: Vec<CosmosAction>,
    pub answer: HandleAnswer,
}

/// The secret numbers 1 to `limit`, in order.
pub open spec fn all_secret_numbers(limit: u32) -> Seq<u32> {
    Seq::new(limit as nat, |i: int| (i + 1) as u32)
}

/// The configuration stored at instantiation.
pub open spec fn initial_config(sender: String, msg: InitMsg) -> ConfigView {
    ConfigView {
        admin: match msg.admin {
            Some(a) => a,
            None => sender,
        },
        token_contract: msg.token_contract,
        nft_contract: None,
        prng_seed: toolkit_sha_256(msg.prng_seed@),
        mint_started: false,
        mint_price: msg.mint_price,
        mint_limit: msg.mint_limit,
        giveaways_to_send: msg.giveaways@,
        utilities: utilities_view(msg.utilities@),
        mint_amount_cap_per_tx: msg.mint_amount_cap_per_tx,
        minted_current_utilities: Seq::new(msg.utilities@.len(), |i: int| 0u32),
    }
}

/// The numbers 1 to `limit` are all different.
proof fn lemma_all_secret_numbers_distinct(limit: u32)
    ensures
        all_secret_numbers(limit).no_duplicates(),
{
}

/// The order in which instantiation stores the secret numbers: 1 to `limit`, shuffled by a
/// generator seeded from the initial pool, the hashed seed and the block time.
pub open spec fn initial_secret_numbers(prng_seed: Seq<u8>, block_time: u64, limit: u32) -> Seq<u32> {
    chacha_shuffled(
        generator_seed(initial_pool(), Seq::empty(), toolkit_sha_256(prng_seed), block_time),
        all_secret_numbers(limit),
    )
}

/// Instantiates the minter: stores the configuration, an entropy pool of 1000 "0" and the
/// numbers 1 to `mint_limit` shuffled by a generator seeded from the SHA-256 digest of the pool,
/// the hashed seed and the block time; and registers with the payment token.
pub fn init(sender: &String, contract_code_hash: &String, block_time: u64, msg: InitMsg) -> (outcome:
    InitOutcome)
    requires
        msg.mint_limit < u32::MAX,
    ensures
        outcome.state.config@ == initial_config(*sender, msg),
        outcome.state.additional_entropy@ == initial_pool(),
        outcome.state.secret_numbers@ == initial_secret_numbers(
            msg.prng_seed@,
            block_time,
            msg.mint_limit,
        ),
        outcome.state.secret_numbers@.to_multiset() == all_secret_numbers(
            msg.mint_limit,
        ).to_multiset(),
        outcome.state.secret_numbers@.len() == msg.mint_limit,
        outcome.state.secret_numbers@.no_duplicates(),
        outcome.messages@.len() == 1,
        outcome.messages@[0] == (CosmosAction::RegisterReceive {
            code_hash: *contract_code_hash,
            block_size: 1,
            token: msg.token_contract,
        }),
{
    let ghost given = msg;
    let prng_seed_hashed = secret_toolkit_sha_256(&msg.prng_seed);
    let admin = match msg.admin {
        Some(a) => a,
        None => sender.clone(),
    };
    let mut minted: Vec<u32> = Vec::new();
    let mut i: usize = 0;
    while i < msg.utilities.len()
        invariant
            i <= msg.utilities.len(),
            minted@ == Seq::new(i as nat, |j: int| 0u32),
        decreases msg.utilities.len() - i,
    {
        minted.push(0u32);
        i = i + 1;
        assert(minted@ =~= Seq::new(i as nat, |j: int| 0u32));
    }
    let pool = initial_entropy_pool();
    let mut secret_numbers: Vec<u32> = Vec::new();
    let mut n: u32 = 0;
    while n < msg.mint_limit
        invariant
            n <= msg.mint_limit,
            secret_numbers@ == all_secret_numbers(n),
        decreases msg.mint_limit - n,
    {
        secret_numbers.push(n + 1);
        n = n + 1;
        assert(secret_numbers@ =~= all_secret_numbers(n));
    }
    let no_fresh: Vec<u8> = Vec::new();
    let seed = prng_seed_for(&pool, &no_fresh, &prng_seed_hashed, block_time);
    let ghost ordered = secret_numbers@;
    chacha_shuffle(&seed, &mut secret_numbers);
    assert(no_fresh@ =~= Seq::<u8>::empty());
    proof {
        broadcast use vstd::multiset::group_multiset_axioms;

        lemma_all_secret_numbers_distinct(msg.mint_limit);
        ordered.lemma_multiset_has_no_duplicates();
        secret_numbers@.lemma_multiset_has_no_duplicates_conv();
    }
    let register = CosmosAction::RegisterReceive {
        code_hash: contract_code_hash.clone(),
        block_size: 1,
        token: msg.token_contract.duplicate(),
    };
    let mut messages: Vec<CosmosAction> = Vec::new();
    messages.push(register);
    let config = Config {
        admin,
        token_contract: msg.token_contract,
        nft_contract: None,
        prng_seed: prng_seed_hashed,
        mint_started: false,
        mint_price: msg.mint_price,
        mint_limit: msg.mint_limit,
        giveaways_to_send: msg.giveaways,
        utilities: msg.utilities,
        mint_amount_cap_per_tx: msg.mint_amount_cap_per_tx,
        minted_current_utilities: minted,
    };
    assert(config@ =~= initial_config(*sender, given));
    InitOutcome {
        state: MinterState { config, additional_entropy: pool, secret_numbers },
        messages,
    }
}

/// The sender is the administrator.
pub open spec fn is_admin(config: ConfigView, sender: String) -> bool {
    sender@ == config.admin@
}

/// What a handled message that only changes the configuration gives: on success the new
/// configuration, no message, no new pool and the answer `StartMint { Success }`.
pub open spec fn config_only_result(
    result: Result<HandleOutcome, ContractError>,
    expected: Result<ConfigView, ContractError>,
) -> bool {
    match expected {
        Ok(config) => result matches Ok(outcome) && {
            &&& outcome.config@ == config
            &&& outcome.additional_entropy is None
            &&& outcome.messages@.len() == 0
            &&& outcome.answer == (HandleAnswer::StartMint { status: ResponseStatus::Success })
        },
        Err(e) => result == Err::<HandleOutcome, ContractError>(e),
    }
}

/// Adding the collection: only the administrator, and only while minting is stopped.
pub open spec fn added_nft_contract(config: ConfigView, sender: String, contract: SecretContract) -> Result<
    ConfigView,
    ContractError,
> {
    if !is_admin(config, sender) {
        Err(ContractError::Unauthorized)
    } else if config.mint_started {
        Err(ContractError::MintNotStopped)
    } else {
        Ok(ConfigView { nft_contract: Some(contract), ..config })
    }
}

/// Starting the mint: only the administrator, and only once the collection is known.
pub open spec fn started_mint(config: ConfigView, sender: String) -> Result<ConfigView, ContractError> {
    if !is_admin(config, sender) {
        Err(ContractError::Unauthorized)
    } else if config.nft_contract is None {
        Err(ContractError::NoNftContractForStart)
    } else {
        Ok(ConfigView { mint_started: true, ..config })
    }
}

/// Stopping the mint: only the administrator.
pub open spec fn stopped_mint(config: ConfigView, sender: String) -> Result<ConfigView, ContractError> {
    if !is_admin(config, sender) {
        Err(ContractError::Unauthorized)
    } else {
        Ok(ConfigView { mint_started: false, ..config })
    }
}

fn success_outcome(config: Config) -> (outcome: HandleOutcome)
    ensures
        outcome.config == config,
        outcome.additional_entropy is None,
        outcome.messages@.len() == 0,
        outcome.answer == (HandleAnswer::StartMint { status: ResponseStatus::Success }),
{
    HandleOutcome {
        config,
        additional_entropy: None,
        messages: Vec::new(),
        answer: HandleAnswer::StartMint { status: ResponseStatus::Success },
    }
}

/// Sets the collection in which the minter mints.
pub fn add_nft_contract(config: &Config, sender: &String, contract: SecretContract) -> (result:
    Result<HandleOutcome, ContractError>)
    ensures
        config_only_result(result, added_nft_contract(config@, *sender, contract)),
{
    if *sender != config.admin {
        return Err(ContractError::Unauthorized);
    }
    if config.mint_started != false {
        return Err(ContractError::MintNotStopped);
    }
    let ghost expected = added_nft_contract(config@, *sender, contract);
    let mut updated = config.duplicate();
    updated.nft_contract = Some(contract);
    assert(updated@ =~= expected->Ok_0);
    Ok(success_outcome(updated))
}

/// Opens the sale.
pub fn start_mint(config: &Config, sender: &String) -> (result: Result<HandleOutcome, ContractError>)
    ensures
        config_only_result(result, started_mint(config@, *sender)),
{
    if *sender != config.admin {
        return Err(ContractError::Unauthorized);
    }
    if config.nft_contract.is_none() {
        return Err(ContractError::NoNftContractForStart);
    }
    let mut updated = config.duplicate();
    updated.mint_started = true;
    assert(updated@ =~= started_mint(config@, *sender)->Ok_0);
    Ok(success_outcome(updated))
}

/// Closes the sale.
pub fn stop_mint(config: &Config, sender: &String) -> (result: Result<HandleOutcome, ContractError>)
    ensures
        config_only_result(result, stopped_mint(config@, *sender)),
{
    if *sender != config.admin {
        return Err(ContractError::Unauthorized);
    }
    let mut updated = config.duplicate();
    updated.mint_started = false;
    assert(updated@ =~= stopped_mint(config@, *sender)->Ok_0);
    Ok(success_outcome(updated))
}

/// The wallet that receives 15 per mille of every purchase.
pub open spec fn first_revenue_wallet() -> Seq<char> {
    "secret1q7kkhvkwzlj0dv3p3nk2ewfgvxs22u6hav3a65"@
}

/// The wallet that receives 985 per mille of every purchase.
pub open spec fn second_revenue_wallet() -> Seq<char> {
    "secret1r4gka3q0zcner6vg629e887a6wejpy00djwlk6"@
}

/// The checks of a purchase that come before the collection is asked for its supply: the
/// count within the per-purchase cap, the sale open, the collection known, and the payment
/// exactly the price times the count.
pub open spec fn purchase_check(config: ConfigView, count: u32, amount: u128) -> Result<
    (),
    ContractError,
> {
    if count > config.mint_amount_cap_per_tx {
        Err(ContractError::TooManyTokens { cap: config.mint_amount_cap_per_tx })
    } else if !config.mint_started {
        Err(ContractError::MintNotStarted)
    } else if config.nft_contract is None {
        Err(ContractError::NoNftContract)
    } else if config.mint_price * count != amount {
        Err(
            ContractError::IncorrectAmount {
                received: amount,
                expected: (config.mint_price * count) as u128,
            },
        )
    } else {
        Ok(())
    }
}

/// The price of the purchase is computed only once the first three checks pass; it must fit.
pub open spec fn purchase_price_fits(config: ConfigView, count: u32) -> bool {
    count <= config.mint_amount_cap_per_tx && config.mint_started && config.nft_contract is Some
        ==> config.mint_price * count <= u128::MAX
}

/// The checks against the supply of the collection: some token still left to mint, and at
/// least `requested` of them (`short` otherwise).
pub open spec fn supply_check(
    config: ConfigView,
    requested: int,
    supply: u32,
    short: ContractError,
) -> Result<(), ContractError> {
    if supply == config.mint_limit {
        Err(ContractError::NoMoreMints)
    } else if config.mint_limit - supply < requested {
        Err(short)
    } else {
        Ok(())
    }
}

/// A batch of `n` mints can be drawn: enough secret numbers, some utility to pick, and no more
/// utilities or numbers than the generator's 32-bit draws reach.
pub open spec fn batch_can_run(config: ConfigView, secret_len: nat, n: nat) -> bool {
    &&& n <= secret_len
    &&& n > 0 ==> {
        &&& 0 < config.utilities.len() <= u32::MAX
        &&& secret_len <= u32::MAX
    }
}

/// The inputs on which a purchase runs to its end, stops at one of its checks, or finds that
/// the generator's values do not let it finish: the price computable, the supply within the
/// limit, room for the draws, and a payment whose revenue shares can be computed.
pub open spec fn purchase_well_defined(
    config: ConfigView,
    secret_len: nat,
    amount: u128,
    count: u32,
    supply: u32,
) -> bool {
    &&& purchase_price_fits(config, count)
    &&& purchase_check(config, count, amount) is Ok ==> supply <= config.mint_limit
    &&& (purchase_check(config, count, amount) is Ok && supply_check(
        config,
        count as int,
        supply,
        ContractError::NotEnoughMints,
    ) is Ok) ==> {
        &&& batch_can_run(config, secret_len, count as nat)
        &&& amount * 985 <= u128::MAX
    }
}

/// A transfer of `amount` payment tokens to `wallet`.
pub open spec fn is_revenue_transfer(
    action: CosmosAction,
    wallet: Seq<char>,
    amount: int,
    token: SecretContract,
) -> bool {
    &&& action matches CosmosAction::Transfer { recipient, amount: paid, block_size, token: t }
    &&& recipient@ == wallet
    &&& paid == amount
    &&& block_size == BLOCK_SIZE
    &&& t == token
}

/// A batch mint in the collection `nft`: one rock per owner, as the draws say, and the
/// counters as those draws leave them.
pub open spec fn is_batch_mint(
    action: CosmosAction,
    nft: Option<SecretContract>,
    owners: Seq<String>,
    config: ConfigView,
    secret_numbers: Seq<u32>,
    draws: Seq<Draw>,
    counters_after_batch: Seq<u32>,
) -> bool {
    &&& action matches CosmosAction::Mint { nft: collection, msg }
    &&& nft == Some(collection)
    &&& msg matches NftsHandleMsg::BatchMintNft { mints, padding }
    &&& padding is None
    &&& batch_by(
        draws,
        owners,
        config.utilities,
        secret_numbers,
        config.minted_current_utilities,
        mints@,
        counters_after_batch,
    )
}

/// The bounds of the values a purchase draws: first how many bytes of the buyer's entropy go
/// into the pool, then the draws of the batch.
pub open spec fn purchase_uppers(fresh_len: nat, n_utilities: nat, secret_len: nat, count: nat) -> Seq<
    usize,
> {
    seq![fresh_len as usize] + batch_uppers(n_utilities, secret_len, count)
}

/// The values that the generator of a purchase draws; it is seeded from the pool, the buyer's
/// entropy, the hashed seed and the block time.
pub open spec fn purchase_values(state: MinterState, block_time: u64, count: u32, entropy: Seq<u8>) -> Seq<
    usize,
> {
    let fresh = truncated_entropy(entropy);
    chacha_draws(
        generator_seed(state.additional_entropy@, fresh, state.config.prng_seed@, block_time),
        purchase_uppers(
            fresh.len(),
            state.config.utilities@.len(),
            state.secret_numbers@.len(),
            count as nat,
        ),
    )
}

/// The draws of the batch among the values of a purchase: all values but the first.
pub open spec fn purchase_draws(values: Seq<usize>) -> Seq<Draw> {
    paired(values.skip(1))
}

/// The buyer's text can be cut to its first 20 bytes.
pub open spec fn entropy_cut_fits(entropy: Seq<u8>) -> bool {
    entropy.len() > MAX_USER_ENTROPY ==> is_char_boundary(entropy, MAX_USER_ENTROPY as int)
}

/// The values drawn let the purchase finish: the number of entropy bytes that go into the pool
/// (the first value) cuts the buyer's text, and a full pool, at character boundaries, and no
/// counter of a drawn utility overflows.
pub open spec fn purchase_values_fit(state: MinterState, entropy: Seq<u8>, values: Seq<usize>) -> bool {
    let pool = state.additional_entropy@;
    &&& is_char_boundary(truncated_entropy(entropy), values[0] as int)
    &&& pool.len() >= ENTROPY_POOL_LEN ==> is_char_boundary(pool, values[0] as int)
    &&& counters_fit(state.config.minted_current_utilities@, purchase_draws(values))
}

/// A successful purchase of `count` rocks by `from`, paid `amount`, with the drawn `values`:
/// the first `values[0]` bytes of the buyer's entropy go into the pool, one batch mint goes to
/// the collection as the other values say, 15 and 985 per mille of the payment go to the two
/// revenue wallets, and only the minted counters change in the configuration.
pub open spec fn is_purchase(
    state: MinterState,
    from: String,
    amount: u128,
    count: u32,
    entropy: Seq<u8>,
    values: Seq<usize>,
    outcome: HandleOutcome,
) -> bool {
    let config = state.config@;
    &&& outcome.config@ == ConfigView {
        minted_current_utilities: outcome.config.minted_current_utilities@,
        ..config
    }
    &&& outcome.additional_entropy matches Some(new_pool) && new_pool@ == mixed_entropy(
        state.additional_entropy@,
        truncated_entropy(entropy),
        values[0] as int,
    )
    &&& outcome.messages@.len() == 3
    &&& is_batch_mint(
        outcome.messages@[0],
        config.nft_contract,
        Seq::new(count as nat, |i: int| from),
        config,
        state.secret_numbers@,
        purchase_draws(values),
        outcome.config.minted_current_utilities@,
    )
    &&& is_revenue_transfer(
        outcome.messages@[1],
        first_revenue_wallet(),
        amount * 15 / 1000,
        config.token_contract,
    )
    &&& is_revenue_transfer(
        outcome.messages@[2],
        second_revenue_wallet(),
        amount * 985 / 1000,
        config.token_contract,
    )
    &&& outcome.answer == (HandleAnswer::MintNfts { status: ResponseStatus::Success })
}

/// What a purchase gives once the collection answered that it holds `supply` tokens: the
/// error of the first check that fails; else, where the generator's values let it finish, the
/// purchase with those values; else nothing (a text cut would fall inside a character, or a
/// counter would overflow).
pub open spec fn purchase_result(
    state: MinterState,
    block_time: u64,
    from: String,
    amount: u128,
    count: u32,
    entropy: Seq<u8>,
    supply: u32,
    result: Option<Result<HandleOutcome, ContractError>>,
) -> bool {
    match purchase_check(state.config@, count, amount) {
        Err(e) => result == Some(Err::<HandleOutcome, ContractError>(e)),
        Ok(_) => match supply_check(
            state.config@,
            count as int,
            supply,
            ContractError::NotEnoughMints,
        ) {
            Err(e) => result == Some(Err::<HandleOutcome, ContractError>(e)),
            Ok(_) => if !entropy_cut_fits(entropy) {
                result is None
            } else {
                let values = purchase_values(state, block_time, count, entropy);
                &&& draws_within(
                    values,
                    purchase_uppers(
                        truncated_entropy(entropy).len(),
                        state.config.utilities@.len(),
                        state.secret_numbers@.len(),
                        count as nat,
                    ),
                )
                &&& if purchase_values_fit(state, entropy, values) {
                    result matches Some(Ok(outcome)) && is_purchase(
                        state,
                        from,
                        amount,
                        count,
                        entropy,
                        values,
                        outcome,
                    )
                } else {
                    result is None
                }
            },
        },
    }
}

/// The checks of a purchase before the supply is asked for; on success, the collection to ask.
pub fn check_purchase(config: &Config, count: u32, amount: u128) -> (result: Result<
    SecretContract,
    ContractError,
>)
    requires
        purchase_price_fits(config@, count),
    ensures
        match purchase_check(config@, count, amount) {
            Ok(_) => config.nft_contract == Some(result->Ok_0) && result is Ok,
            Err(e) => result == Err::<SecretContract, ContractError>(e),
        },
{
    if count > config.mint_amount_cap_per_tx {
        return Err(ContractError::TooManyTokens { cap: config.mint_amount_cap_per_tx });
    }
    if config.mint_started != true {
        return Err(ContractError::MintNotStarted);
    }
    let nft = match &config.nft_contract {
        Some(nft) => nft.duplicate(),
        None => {
            return Err(ContractError::NoNftContract);
        },
    };
    let total_amount_expected = config.mint_price * (count as u128);
    if total_amount_expected != amount {
        return Err(
            ContractError::IncorrectAmount { received: amount, expected: total_amount_expected },
        );
    }
    Ok(nft)
}

/// `count` copies of `owner`.
fn repeat_owner(owner: &String, count: u32) -> (owners: Vec<String>)
    ensures
        owners@ == Seq::new(count as nat, |i: int| *owner),
{
    let mut owners: Vec<String> = Vec::new();
    let mut i: u32 = 0;
    while i < count
        invariant
            i <= count,
            owners@ == Seq::new(i as nat, |j: int| *owner),
        decreases count - i,
    {
        owners.push(owner.clone());
        i = i + 1;
        assert(owners@ =~= Seq::new(i as nat, |j: int| *owner));
    }
    owners
}

/// Values drawn within a purchase's bounds give one valid draw per rock.
proof fn lemma_purchase_draws_valid(
    values: Seq<usize>,
    fresh_len: nat,
    n_utilities: nat,
    secret_len: nat,
    count: nat,
)
    requires
        draws_within(values, purchase_uppers(fresh_len, n_utilities, secret_len, count)),
        count <= secret_len,
    ensures
        purchase_draws(values).len() == count,
        crate::draw::draws_valid(secret_len, n_utilities, purchase_draws(values)),
        values[0] < fresh_len,
{
    let uppers = purchase_uppers(fresh_len, n_utilities, secret_len, count);
    let rest = batch_uppers(n_utilities, secret_len, count);
    assert(uppers.skip(1) =~= rest);
    assert(values[0] < uppers[0]);
    assert forall|i: int| 0 <= i < values.skip(1).len() implies #[trigger] values.skip(1)[i]
        < rest[i] by {
        assert(values[i + 1] < uppers[i + 1]);
    }
    lemma_paired_valid(values.skip(1), n_utilities, secret_len, count);
}

/// A purchase that passed its checks, with the values its generator drew: the first value is
/// how many bytes of the buyer's entropy go into the pool, the others pick the utility and the
/// secret number of each rock, two by two.
pub fn mint_nfts_with_draws(
    state: &MinterState,
    from: &String,
    amount: u128,
    count: u32,
    entropy: &Vec<u8>,
    values: &Vec<usize>,
) -> (outcome: HandleOutcome)
    requires
        purchase_check(state.config@, count, amount) is Ok,
        count <= state.secret_numbers@.len(),
        amount * 985 <= u128::MAX,
        draws_within(
            values@,
            purchase_uppers(
                truncated_entropy(entropy@).len(),
                state.config.utilities@.len(),
                state.secret_numbers@.len(),
                count as nat,
            ),
        ),
        purchase_values_fit(*state, entropy@, values@),
    ensures
        is_purchase(*state, *from, amount, count, entropy@, values@, outcome),
{
    let config = &state.config;
    proof {
        lemma_purchase_draws_valid(
            values@,
            truncated_entropy(entropy@).len(),
            config.utilities@.len(),
            state.secret_numbers@.len(),
            count as nat,
        );
    }
    let nft = duplicate_contract(&config.nft_contract).unwrap();
    let fresh = truncate_entropy(entropy);
    let pool = mix_entropy(&state.additional_entropy, &fresh, values[0]);
    let draws = pair_draws(values, 1);
    let owners = repeat_owner(from, count);
    let mut secret_numbers = duplicate_u32s(&state.secret_numbers);
    let mut minted = duplicate_u32s(&config.minted_current_utilities);
    let mints = mint_batch(&owners, &draws, &mut secret_numbers, &mut minted, &config.utilities);
    let mut updated = config.duplicate();
    updated.minted_current_utilities = minted;
    let first_share = multiply_ratio(amount, 15, 1000);
    let second_share = multiply_ratio(amount, 985, 1000);
    let mut messages: Vec<CosmosAction> = Vec::new();
    messages.push(
        CosmosAction::Mint { nft, msg: NftsHandleMsg::BatchMintNft { mints, padding: None } },
    );
    messages.push(
        CosmosAction::Transfer {
            recipient: String::from_str("secret1q7kkhvkwzlj0dv3p3nk2ewfgvxs22u6hav3a65"),
            amount: first_share,
            block_size: BLOCK_SIZE,
            token: config.token_contract.duplicate(),
        },
    );
    messages.push(
        CosmosAction::Transfer {
            recipient: String::from_str("secret1r4gka3q0zcner6vg629e887a6wejpy00djwlk6"),
            amount: second_share,
            block_size: BLOCK_SIZE,
            token: config.token_contract.duplicate(),
        },
    );
    let outcome = HandleOutcome {
        config: updated,
        additional_entropy: Some(pool),
        messages,
        answer: HandleAnswer::MintNfts { status: ResponseStatus::Success },
    };
    proof {
        assert(outcome.config@ =~= ConfigView {
            minted_current_utilities: outcome.config.minted_current_utilities@,
            ..config@
        });
    }
    outcome
}

/// A purchase of `count` rocks by `from`, who paid `amount`, once the collection answered
/// that it holds `nft_supply` tokens. After the checks, a generator is seeded from the pool,
/// the buyer's entropy, the hashed seed and the block time; it draws how many bytes of the
/// buyer's entropy go into the pool, then a utility and a secret number for each rock. Where
/// those values do not let the purchase finish, nothing comes back.
pub fn mint_nfts(
    state: &MinterState,
    block_time: u64,
    from: &String,
    amount: u128,
    count: u32,
    entropy: &Vec<u8>,
    nft_supply: u32,
) -> (result: Option<Result<HandleOutcome, ContractError>>)
    requires
        purchase_well_defined(
            state.config@,
            state.secret_numbers@.len(),
            amount,
            count,
            nft_supply,
        ),
    ensures
        purchase_result(*state, block_time, *from, amount, count, entropy@, nft_supply, result),
{
    let config = &state.config;
    match check_purchase(config, count, amount) {
        Ok(_) => {},
        Err(e) => {
            return Some(Err(e));
        },
    }
    if nft_supply == config.mint_limit {
        return Some(Err(ContractError::NoMoreMints));
    }
    let mints_available = config.mint_limit - nft_supply;
    if mints_available < count {
        return Some(Err(ContractError::NotEnoughMints));
    }
    if entropy.len() > MAX_USER_ENTROPY && !char_boundary_at(entropy, MAX_USER_ENTROPY) {
        return None;
    }
    let fresh = truncate_entropy(entropy);
    let seed = prng_seed_for(&state.additional_entropy, &fresh, &config.prng_seed, block_time);
    let mut uppers: Vec<usize> = Vec::new();
    uppers.push(fresh.len());
    push_batch_uppers(
        &mut uppers,
        config.utilities.len(),
        state.secret_numbers.len(),
        count as usize,
    );
    let ghost expected_uppers = purchase_uppers(
        fresh@.len(),
        config.utilities@.len(),
        state.secret_numbers@.len(),
        count as nat,
    );
    assert(uppers@ =~= expected_uppers);
    assert forall|i: int| 0 <= i < uppers@.len() implies 0 < #[trigger] uppers@[i] <= u32::MAX by {
        if i > 0 {
            let k = i - 1;
            assert(uppers@[i] == batch_uppers(
                config.utilities@.len(),
                state.secret_numbers@.len(),
                count as nat,
            )[k]);
            assert(k / 2 < count);
        }
    }
    let values = chacha_draws_from_seed(&seed, &uppers);
    let taken = values[0];
    if !char_boundary_at(&fresh, taken) {
        return None;
    }
    if state.additional_entropy.len() >= ENTROPY_POOL_LEN && !char_boundary_at(
        &state.additional_entropy,
        taken,
    ) {
        return None;
    }
    let draws = pair_draws(&values, 1);
    if !fits_counters(&config.minted_current_utilities, &draws) {
        return None;
    }
    Some(Ok(mint_nfts_with_draws(state, from, amount, count, entropy, &values)))
}

/// The checks of the giveaways before the supply is asked for.
pub open spec fn giveaways_check(config: ConfigView, sender: String) -> Result<(), ContractError> {
    if !is_admin(config, sender) {
        Err(ContractError::Unauthorized)
    } else if config.nft_contract is None {
        Err(ContractError::NoNftContractForGiveaways)
    } else {
        Ok(())
    }
}

/// The number of pending giveaways as the supply check counts it (a `u32`, cut to 32 bits).
pub open spec fn giveaways_requested(config: ConfigView) -> int {
    (config.giveaways_to_send.len() as u32) as int
}

/// The inputs on which the giveaways run to their end, stop at one of their checks, or find
/// that the generator's values do not let them finish.
pub open spec fn giveaways_well_defined(config: ConfigView, secret_len: nat, sender: String, supply: u32) -> bool {
    &&& giveaways_check(config, sender) is Ok ==> supply <= config.mint_limit
    &&& (giveaways_check(config, sender) is Ok && supply_check(
        config,
        giveaways_requested(config),
        supply,
        ContractError::GiveawaysSurpassLimit,
    ) is Ok) ==> batch_can_run(config, secret_len, config.giveaways_to_send.len())
}

/// The bounds of the values drawn for the giveaways.
pub open spec fn giveaways_uppers(state: MinterState) -> Seq<usize> {
    batch_uppers(
        state.config.utilities@.len(),
        state.secret_numbers@.len(),
        state.config.giveaways_to_send@.len(),
    )
}

/// The values that the generator of the giveaways draws; it is seeded from the pool, the
/// hashed seed and the block time.
pub open spec fn giveaways_values(state: MinterState, block_time: u64) -> Seq<usize> {
    chacha_draws(
        generator_seed(
            state.additional_entropy@,
            Seq::empty(),
            state.config.prng_seed@,
            block_time,
        ),
        giveaways_uppers(state),
    )
}

/// Successful giveaways with the given draws: one rock for each pending giveaway address, the
/// list of pending giveaways emptied and the minted counters raised; the pool is left as it is.
pub open spec fn is_giveaways(
    config: ConfigView,
    secret_numbers: Seq<u32>,
    draws: Seq<Draw>,
    outcome: HandleOutcome,
) -> bool {
    &&& outcome.config@ == ConfigView {
        giveaways_to_send: Seq::empty(),
        minted_current_utilities: outcome.config.minted_current_utilities@,
        ..config
    }
    &&& outcome.additional_entropy is None
    &&& outcome.messages@.len() == 1
    &&& is_batch_mint(
        outcome.messages@[0],
        config.nft_contract,
        config.giveaways_to_send,
        config,
        secret_numbers,
        draws,
        outcome.config.minted_current_utilities@,
    )
    &&& outcome.answer == (HandleAnswer::StartMint { status: ResponseStatus::Success })
}

/// What the giveaways give once the collection answered that it holds `supply` tokens: the
/// error of the first check that fails; else, where the generator's values let them finish,
/// the giveaways with those values; else nothing (a counter would overflow).
pub open spec fn giveaways_result(
    state: MinterState,
    sender: String,
    block_time: u64,
    supply: u32,
    result: Option<Result<HandleOutcome, ContractError>>,
) -> bool {
    match giveaways_check(state.config@, sender) {
        Err(e) => result == Some(Err::<HandleOutcome, ContractError>(e)),
        Ok(_) => match supply_check(
            state.config@,
            giveaways_requested(state.config@),
            supply,
            ContractError::GiveawaysSurpassLimit,
        ) {
            Err(e) => result == Some(Err::<HandleOutcome, ContractError>(e)),
            Ok(_) => {
                let values = giveaways_values(state, block_time);
                &&& draws_within(values, giveaways_uppers(state))
                &&& if counters_fit(state.config.minted_current_utilities@, paired(values)) {
                    result matches Some(Ok(outcome)) && is_giveaways(
                        state.config@,
                        state.secret_numbers@,
                        paired(values),
                        outcome,
                    )
                } else {
                    result is None
                }
            },
        },
    }
}

/// The checks of the giveaways before the supply is asked for; on success, the collection to ask.
pub fn check_giveaways(config: &Config, sender: &String) -> (result: Result<SecretContract, ContractError>)
    ensures
        match giveaways_check(config@, *sender) {
            Ok(_) => config.nft_contract == Some(result->Ok_0) && result is Ok,
            Err(e) => result == Err::<SecretContract, ContractError>(e),
        },
{
    if *sender != config.admin {
        return Err(ContractError::Unauthorized);
    }
    match &config.nft_contract {
        Some(nft) => Ok(nft.duplicate()),
        None => Err(ContractError::NoNftContractForGiveaways),
    }
}

/// The giveaways, once they passed their checks, with the values their generator drew: two
/// by two, the utility and the secret number of each rock.
pub fn mint_giveaways_with_draws(state: &MinterState, values: &Vec<usize>) -> (outcome: HandleOutcome)
    requires
        state.config.nft_contract is Some,
        state.config.giveaways_to_send@.len() <= state.secret_numbers@.len(),
        draws_within(values@, giveaways_uppers(*state)),
        counters_fit(state.config.minted_current_utilities@, paired(values@)),
    ensures
        is_giveaways(state.config@, state.secret_numbers@, paired(values@), outcome),
{
    let config = &state.config;
    proof {
        lemma_paired_valid(
            values@,
            config.utilities@.len(),
            state.secret_numbers@.len(),
            config.giveaways_to_send@.len(),
        );
        assert(values@.skip(0) =~= values@);
    }
    let nft = duplicate_contract(&config.nft_contract).unwrap();
    let draws = pair_draws(values, 0);
    let mut secret_numbers = duplicate_u32s(&state.secret_numbers);
    let mut minted = duplicate_u32s(&config.minted_current_utilities);
    let mints = mint_batch(
        &config.giveaways_to_send,
        &draws,
        &mut secret_numbers,
        &mut minted,
        &config.utilities,
    );
    let mut updated = config.duplicate();
    updated.giveaways_to_send = Vec::new();
    updated.minted_current_utilities = minted;
    let mut messages: Vec<CosmosAction> = Vec::new();
    messages.push(
        CosmosAction::Mint { nft, msg: NftsHandleMsg::BatchMintNft { mints, padding: None } },
    );
    let outcome = HandleOutcome {
        config: updated,
        additional_entropy: None,
        messages,
        answer: HandleAnswer::StartMint { status: ResponseStatus::Success },
    };
    proof {
        assert(outcome.config@ =~= ConfigView {
            giveaways_to_send: Seq::empty(),
            minted_current_utilities: outcome.config.minted_current_utilities@,
            ..config@
        });
    }
    outcome
}

/// Mints the pending giveaways, once the collection answered that it holds `nft_supply`
/// tokens. The generator is seeded from the pool, the hashed seed and the block time; where
/// its values do not let the giveaways finish, nothing comes back.
pub fn mint_giveaways(state: &MinterState, sender: &String, block_time: u64, nft_supply: u32) -> (result:
    Option<Result<HandleOutcome, ContractError>>)
    requires
        giveaways_well_defined(state.config@, state.secret_numbers@.len(), *sender, nft_supply),
    ensures
        giveaways_result(*state, *sender, block_time, nft_supply, result),
{
    let config = &state.config;
    match check_giveaways(config, sender) {
        Ok(_) => {},
        Err(e) => {
            return Some(Err(e));
        },
    }
    if nft_supply == config.mint_limit {
        return Some(Err(ContractError::NoMoreMints));
    }
    let mints_available = config.mint_limit - nft_supply;
    if mints_available < config.giveaways_to_send.len() as u32 {
        return Some(Err(ContractError::GiveawaysSurpassLimit));
    }
    let no_fresh: Vec<u8> = Vec::new();
    let seed = prng_seed_for(&state.additional_entropy, &no_fresh, &config.prng_seed, block_time);
    assert(no_fresh@ =~= Seq::<u8>::empty());
    let mut uppers: Vec<usize> = Vec::new();
    push_batch_uppers(
        &mut uppers,
        config.utilities.len(),
        state.secret_numbers.len(),
        config.giveaways_to_send.len(),
    );
    assert(uppers@ =~= giveaways_uppers(*state));
    assert forall|i: int| 0 <= i < uppers@.len() implies 0 < #[trigger] uppers@[i] <= u32::MAX by {
        assert(i / 2 < config.giveaways_to_send@.len());
    }
    let values = chacha_draws_from_seed(&seed, &uppers);
    let draws = pair_draws(&values, 0);
    assert(values@.skip(0) =~= values@);
    if !fits_counters(&config.minted_current_utilities, &draws) {
        return None;
    }
    Some(Ok(mint_giveaways_with_draws(state, &values)))
}

/// The answer to `QueryMsg::Info`: the collection, the cap, the limit, the supply and what is
/// left of it, the utilities and their minted counters.
pub open spec fn is_info_answer(config: ConfigView, nft_supply: u32, answer: QueryAnswer) -> bool {
    answer matches QueryAnswer::Info {
        nft_contract,
        mint_amount_cap_per_tx,
        max_total_supply,
        mint_current_count,
        mint_current_left,
        utilities,
        minted_current_utilities,
    } && {
        &&& config.nft_contract == Some(nft_contract)
        &&& mint_amount_cap_per_tx == config.mint_amount_cap_per_tx
        &&& max_total_supply == config.mint_limit
        &&& mint_current_count == nft_supply
        &&& mint_current_left == config.mint_limit - nft_supply
        &&& utilities_view(utilities@) == config.utilities
        &&& minted_current_utilities@ == config.minted_current_utilities
    }
}

/// What the minter tells of itself, once the collection answered that it holds `nft_supply`
/// tokens.
pub fn query_info(config: &Config, nft_supply: u32) -> (answer: QueryAnswer)
    requires
        config.nft_contract is Some,
        nft_supply <= config.mint_limit,
    ensures
        is_info_answer(config@, nft_supply, answer),
{
    let nft_contract = duplicate_contract(&config.nft_contract).unwrap();
    QueryAnswer::Info {
        nft_contract,
        mint_amount_cap_per_tx: config.mint_amount_cap_per_tx,
        max_total_supply: config.mint_limit,
        mint_current_count: nft_supply,
        mint_current_left: config.mint_limit - nft_supply,
        utilities: duplicate_utilities(&config.utilities),
        minted_current_utilities: duplicate_u32s(&config.minted_current_utilities),
    }
}

/// Answers a query, once the collection answered that it holds `nft_supply` tokens.
pub fn query(config: &Config, msg: QueryMsg, nft_supply: u32) -> (answer: QueryAnswer)
    requires
        config.nft_contract is Some,
        nft_supply <= config.mint_limit,
    ensures
        match msg {
            QueryMsg::Info {  } => is_info_answer(config@, nft_supply, answer),
        },
{
    match msg {
        QueryMsg::Info {  } => query_info(config, nft_supply),
    }
}

/// A handled message that waits for the collection's supply.
#[derive(Clone, Debug, PartialEq, Eq)]
pub enum Pending {
    /// A purchase that passed its first checks; `entropy` holds the bytes of the buyer's text.
    Purchase { from: String, amount: u128, count: u32, entropy: Vec<u8> },
    /// The giveaways, asked for by the administrator.
    Giveaways {},
}

/// Where the handling of a message stands.
#[derive(Debug, PartialEq, Eq)]
pub enum HandleStep {
    /// Handled.
    Done(Result<HandleOutcome, ContractError>),
    /// The message inside a SNIP-20 `Send` must be decoded, then given to `try_receive`.
    DecodeReceive { from: String, amount: u128, msg: Vec<u8> },
    /// The collection must be asked how many tokens it holds, then `resume_with_supply` called.
    QuerySupply { nft: SecretContract, pending: Pending },
}

/// The bytes of a string.
fn string_bytes(text: &String) -> (bytes: Vec<u8>)
    ensures
        bytes@ == encode_utf8(text@),
{
    let slice = text.as_str().as_bytes();
    let mut bytes: Vec<u8> = Vec::new();
    let mut i: usize = 0;
    while i < slice.len()
        invariant
            i <= slice@.len(),
            slice@ == encode_utf8(text@),
            bytes@ == slice@.take(i as int),
        decreases slice@.len() - i,
    {
        bytes.push(slice[i]);
        i = i + 1;
        assert(bytes@ =~= slice@.take(i as int));
    }
    assert(slice@.take(slice@.len() as int) =~= slice@);
    bytes
}

/// Handles a message from `sender` as far as the minter can without outside help.
pub fn handle(state: &MinterState, sender: &String, msg: HandleMsg) -> (step: HandleStep)
    ensures
        match msg {
            HandleMsg::Receive { sender: _, from, amount, msg: inner } => step == (HandleStep::DecodeReceive {
                from,
                amount,
                msg: inner,
            }),
            HandleMsg::AddNftContract { contract } => step matches HandleStep::Done(result)
                && config_only_result(result, added_nft_contract(state.config@, *sender, contract)),
            HandleMsg::StartMint {  } => step matches HandleStep::Done(result) && config_only_result(
                result,
                started_mint(state.config@, *sender),
            ),
            HandleMsg::MintGiveaways {  } => match giveaways_check(state.config@, *sender) {
                Err(e) => step == HandleStep::Done(Err(e)),
                Ok(_) => step matches HandleStep::QuerySupply { nft, pending } && state.config.nft_contract
                    == Some(nft) && pending == (Pending::Giveaways {  }),
            },
            HandleMsg::MintNfts { .. } => step == HandleStep::Done(Err(ContractError::ActionNotFound)),
        },
{
    match msg {
        HandleMsg::Receive { sender: _, from, amount, msg } => HandleStep::DecodeReceive {
            from,
            amount,
            msg,
        },
        HandleMsg::AddNftContract { contract } => HandleStep::Done(
            add_nft_contract(&state.config, sender, contract),
        ),
        HandleMsg::MintGiveaways {  } => match check_giveaways(&state.config, sender) {
            Ok(nft) => HandleStep::QuerySupply { nft, pending: Pending::Giveaways {  } },
            Err(e) => HandleStep::Done(Err(e)),
        },
        HandleMsg::StartMint {  } => HandleStep::Done(start_mint(&state.config, sender)),
        HandleMsg::MintNfts { .. } => HandleStep::Done(Err(ContractError::ActionNotFound)),
    }
}

/// Handles the decoded message inside a SNIP-20 `Send` of `amount` tokens from `from`, which
/// the token contract `sender` forwarded: only a purchase sent by the payment token is taken.
pub fn try_receive(config: &Config, sender: &String, from: String, amount: u128, msg: HandleMsg) -> (step:
    HandleStep)
    requires
        sender@ == config.token_contract.address@ ==> (msg matches HandleMsg::MintNfts {
            count,
            entropy,
        } ==> purchase_price_fits(config@, count)),
    ensures
        match msg {
            HandleMsg::MintNfts { count, entropy } => if sender@ != config.token_contract.address@ {
                step == HandleStep::Done(Err(ContractError::InvalidToken))
            } else {
                match purchase_check(config@, count, amount) {
                    Err(e) => step == HandleStep::Done(Err(e)),
                    Ok(_) => step matches HandleStep::QuerySupply {
                        nft,
                        pending: Pending::Purchase { from: f, amount: a, count: c, entropy: e },
                    } && {
                        &&& config.nft_contract == Some(nft)
                        &&& f == from
                        &&& a == amount
                        &&& c == count
                        &&& e@ == encode_utf8(entropy@)
                    },
                }
            },
            _ => step == HandleStep::Done(Err(ContractError::ReceiveHandlerNotFound)),
        },
{
    match msg {
        HandleMsg::MintNfts { count, entropy } => {
            if *sender != config.token_contract.address {
                HandleStep::Done(Err(ContractError::InvalidToken))
            } else {
                match check_purchase(config, count, amount) {
                    Err(e) => HandleStep::Done(Err(e)),
                    Ok(nft) => HandleStep::QuerySupply {
                        nft,
                        pending: Pending::Purchase {
                            from,
                            amount,
                            count,
                            entropy: string_bytes(&entropy),
                        },
                    },
                }
            }
        },
        _ => HandleStep::Done(Err(ContractError::ReceiveHandlerNotFound)),
    }
}

/// The inputs on which a pending message runs to its end, stops at one of its checks, or finds
/// that the generator's values do not let it finish.
pub open spec fn pending_well_defined(state: &MinterState, sender: String, pending: Pending, supply: u32) -> bool {
    match pending {
        Pending::Purchase { from, amount, count, entropy } => purchase_well_defined(
            state.config@,
            state.secret_numbers@.len(),
            amount,
            count,
            supply,
        ),
        Pending::Giveaways {  } => giveaways_well_defined(
            state.config@,
            state.secret_numbers@.len(),
            sender,
            supply,
        ),
    }
}

/// Finishes a pending message once the collection answered that it holds `nft_supply` tokens,
/// as `mint_nfts` or `mint_giveaways` does.
pub fn resume_with_supply(
    state: &MinterState,
    sender: &String,
    block_time: u64,
    pending: Pending,
    nft_supply: u32,
) -> (result: Option<Result<HandleOutcome, ContractError>>)
    requires
        pending_well_defined(state, *sender, pending, nft_supply),
    ensures
        match pending {
            Pending::Purchase { from, amount, count, entropy } => purchase_result(
                *state,
                block_time,
                from,
                amount,
                count,
                entropy@,
                nft_supply,
                result,
            ),
            Pending::Giveaways {  } => giveaways_result(
                *state,
                *sender,
                block_time,
                nft_supply,
                result,
            ),
        },
{
    match pending {
        Pending::Purchase { from, amount, count, entropy } => mint_nfts(
            state,
            block_time,
            &from,
            amount,
            count,
            &entropy,
            nft_supply,
        ),
        Pending::Giveaways {  } => mint_giveaways(state, sender, block_time, nft_supply),
    }
}

/// Whether a batch of `n` mints can be drawn (see `batch_can_run`).
fn batch_possible(config: &Config, secret_len: usize, n: usize) -> (ok: bool)
    ensures
        ok == batch_can_run(config@, secret_len as nat, n as nat),
{
    if n > secret_len {
        return false;
    }
    if n == 0 {
        return true;
    }
    assert(config@.utilities.len() == config.utilities@.len());
    config.utilities.len() > 0 && config.utilities.len() as u64 <= u32::MAX as u64
        && secret_len as u64 <= u32::MAX as u64
}

/// Whether the price of a purchase of `count` can be computed (see `purchase_price_fits`).
pub fn purchase_price_computable(config: &Config, count: u32) -> (ok: bool)
    ensures
        ok == purchase_price_fits(config@, count),
{
    if count <= config.mint_amount_cap_per_tx && config.mint_started
        && config.nft_contract.is_some() {
        config.mint_price.checked_mul(count as u128).is_some()
    } else {
        true
    }
}

/// Whether `resume_with_supply` may be called with these arguments (see
/// `pending_well_defined`): where it answers `false`, finishing the message would fail halfway.
pub fn pending_can_resume(state: &MinterState, sender: &String, pending: &Pending, supply: u32) -> (ok:
    bool)
    ensures
        ok == pending_well_defined(state, *sender, *pending, supply),
{
    let config = &state.config;
    match pending {
        Pending::Purchase { from: _, amount, count, entropy: _ } => {
            if !purchase_price_computable(config, *count) {
                return false;
            }
            let checked = check_purchase(config, *count, *amount);
            if checked.is_err() {
                return true;
            }
            if supply > config.mint_limit {
                return false;
            }
            if supply == config.mint_limit || config.mint_limit - supply < *count {
                return true;
            }
            batch_possible(config, state.secret_numbers.len(), *count as usize)
                && amount.checked_mul(985).is_some()
        },
        Pending::Giveaways {  } => {
            let checked = check_giveaways(config, sender);
            if checked.is_err() {
                return true;
            }
            if supply > config.mint_limit {
                return false;
            }
            if supply == config.mint_limit || config.mint_limit - supply
                < config.giveaways_to_send.len() as u32 {
                return true;
            }
            batch_possible(config, state.secret_numbers.len(), config.giveaways_to_send.len())
        },
    }
}

} // verus!
