use secret_rocks_minter::contract::{
    add_nft_contract, check_giveaways, check_purchase, handle, init, mint_giveaways, mint_nfts,
    pending_can_resume, purchase_price_computable, query_info, resume_with_supply, start_mint,
    stop_mint, try_receive, ContractError, CosmosAction, HandleOutcome, HandleStep, MinterState,
    Pending, BLOCK_SIZE,
};
use secret_rocks_minter::msg::{
    HandleAnswer, HandleMsg, InitMsg, Mint, NftsHandleMsg, QueryAnswer, ResponseStatus, Trait,
};
use secret_rocks_minter::state::{Config, SecretContract, Utilities};

const ADMIN: &str = "secret1admin";
const BUYER: &str = "secret1buyer";
const WALLET1: &str = "secret1q7kkhvkwzlj0dv3p3nk2ewfgvxs22u6hav3a65";
const WALLET2: &str = "secret1r4gka3q0zcner6vg629e887a6wejpy00djwlk6";

fn token() -> SecretContract {
    SecretContract { address: "secret1token".to_string(), contract_hash: "tokenhash".to_string() }
}

fn nft() -> SecretContract {
    SecretContract { address: "secret1nft".to_string(), contract_hash: "nfthash".to_string() }
}

fn trait_of(kind: &str, value: &str) -> Trait {
    Trait {
        display_type: None,
        trait_type: Some(kind.to_string()),
        value: value.to_string(),
        max_value: None,
    }
}

fn utilities() -> Vec<Utilities> {
    vec![
        Utilities { traits: vec![trait_of("Utility", "Gold")] },
        Utilities { traits: vec![trait_of("Utility", "Silver"), trait_of("Power", "3")] },
    ]
}

fn init_msg(mint_limit: u32, giveaways: Vec<String>) -> InitMsg {
    InitMsg {
        admin: Some(ADMIN.to_string()),
        token_contract: token(),
        prng_seed: b"test".to_vec(),
        mint_limit,
        mint_price: 1_000_000,
        giveaways,
        utilities: utilities(),
        mint_amount_cap_per_tx: 5,
    }
}

fn fresh_state(mint_limit: u32) -> MinterState {
    init(&"secret1creator".to_string(), &"minterhash".to_string(), 1_650_000_000, init_msg(mint_limit, vec![]))
        .state
}

fn selling_state(mint_limit: u32) -> MinterState {
    let mut state = fresh_state(mint_limit);
    state.config.nft_contract = Some(nft());
    state.config.mint_started = true;
    state
}

fn secret_number_of(mint: &Mint) -> u32 {
    let md = mint.private_metadata.as_ref().unwrap();
    let attrs = md.extension.as_ref().unwrap().attributes.as_ref().unwrap();
    assert_eq!(attrs.len(), 1);
    assert_eq!(attrs[0].trait_type.as_deref(), Some("Attracted Secret Rock ID"));
    attrs[0].value.parse().unwrap()
}

fn public_traits_of(mint: &Mint) -> Vec<Trait> {
    let md = mint.public_metadata.as_ref().unwrap();
    md.extension.as_ref().unwrap().attributes.clone().unwrap()
}

fn batch_of(outcome: &HandleOutcome) -> Vec<Mint> {
    match &outcome.messages[0] {
        CosmosAction::Mint { nft: collection, msg: NftsHandleMsg::BatchMintNft { mints, padding } } => {
            assert_eq!(collection, &nft());
            assert_eq!(padding, &None);
            mints.clone()
        },
        other => panic!("expected a batch mint, got {:?}", other),
    }
}

#[test]
fn init_stores_config_pool_and_shuffled_numbers() {
    let outcome = init(
        &"secret1creator".to_string(),
        &"minterhash".to_string(),
        1_650_000_000,
        init_msg(50, vec!["secret1friend".to_string()]),
    );
    let config = &outcome.state.config;
    assert_eq!(config.admin, ADMIN);
    assert_eq!(config.token_contract, token());
    assert_eq!(config.nft_contract, None);
    assert!(!config.mint_started);
    assert_eq!(config.mint_price, 1_000_000);
    assert_eq!(config.mint_limit, 50);
    assert_eq!(config.giveaways_to_send, vec!["secret1friend".to_string()]);
    assert_eq!(config.utilities, utilities());
    assert_eq!(config.mint_amount_cap_per_tx, 5);
    assert_eq!(config.minted_current_utilities, vec![0, 0]);
    // SHA-256 of "test"
    let expected: [u8; 32] = [
        159, 134, 208, 129, 136, 76, 125, 101, 154, 47, 234, 160, 197, 90, 208, 21, 163, 191, 79,
        27, 43, 11, 130, 44, 209, 93, 108, 21, 176, 240, 10, 8,
    ];
    assert_eq!(config.prng_seed, expected.to_vec());
    assert_eq!(outcome.state.additional_entropy, vec![b'0'; 1000]);
    let mut sorted = outcome.state.secret_numbers.clone();
    sorted.sort();
    assert_eq!(sorted, (1..=50).collect::<Vec<u32>>());
    // the generator did move the numbers
    assert_ne!(outcome.state.secret_numbers, sorted);
    assert_eq!(
        outcome.messages,
        vec![CosmosAction::RegisterReceive {
            code_hash: "minterhash".to_string(),
            block_size: 1,
            token: token(),
        }]
    );
}

#[test]
fn init_without_admin_makes_the_sender_admin() {
    let mut msg = init_msg(3, vec![]);
    msg.admin = None;
    let outcome = init(&"secret1creator".to_string(), &"h".to_string(), 7, msg);
    assert_eq!(outcome.state.config.admin, "secret1creator");
}

#[test]
fn init_shuffle_is_a_permutation_even_of_one_and_zero() {
    assert_eq!(fresh_state(1).secret_numbers, vec![1]);
    assert_eq!(fresh_state(0).secret_numbers, Vec::<u32>::new());
}

#[test]
fn add_nft_contract_rules() {
    let state = fresh_state(10);
    assert_eq!(
        add_nft_contract(&state.config, &BUYER.to_string(), nft()),
        Err(ContractError::Unauthorized)
    );
    let outcome = add_nft_contract(&state.config, &ADMIN.to_string(), nft()).unwrap();
    assert_eq!(outcome.config.nft_contract, Some(nft()));
    assert_eq!(outcome.messages, vec![]);
    assert_eq!(outcome.additional_entropy, None);
    assert_eq!(outcome.answer, HandleAnswer::StartMint { status: ResponseStatus::Success });
    let mut expected = state.config.clone();
    expected.nft_contract = Some(nft());
    assert_eq!(outcome.config, expected);
    let selling = selling_state(10);
    assert_eq!(
        add_nft_contract(&selling.config, &ADMIN.to_string(), token()),
        Err(ContractError::MintNotStopped)
    );
}

#[test]
fn start_and_stop_mint_rules() {
    let state = fresh_state(10);
    assert_eq!(start_mint(&state.config, &BUYER.to_string()), Err(ContractError::Unauthorized));
    assert_eq!(
        start_mint(&state.config, &ADMIN.to_string()),
        Err(ContractError::NoNftContractForStart)
    );
    let with_nft = add_nft_contract(&state.config, &ADMIN.to_string(), nft()).unwrap().config;
    let started = start_mint(&with_nft, &ADMIN.to_string()).unwrap().config;
    assert!(started.mint_started);
    assert_eq!(stop_mint(&started, &BUYER.to_string()), Err(ContractError::Unauthorized));
    let stopped = stop_mint(&started, &ADMIN.to_string()).unwrap();
    assert_eq!(stopped.config, with_nft);
    assert_eq!(stopped.answer, HandleAnswer::StartMint { status: ResponseStatus::Success });
}

#[test]
fn handle_routes_messages() {
    let state = fresh_state(10);
    let admin = ADMIN.to_string();
    assert_eq!(
        handle(&state, &admin, HandleMsg::MintNfts { count: 1, entropy: "x".to_string() }),
        HandleStep::Done(Err(ContractError::ActionNotFound))
    );
    assert_eq!(
        handle(
            &state,
            &"secret1token".to_string(),
            HandleMsg::Receive {
                sender: BUYER.to_string(),
                from: BUYER.to_string(),
                amount: 5,
                msg: b"{}".to_vec(),
            },
        ),
        HandleStep::DecodeReceive { from: BUYER.to_string(), amount: 5, msg: b"{}".to_vec() }
    );
    assert_eq!(
        handle(&state, &admin, HandleMsg::MintGiveaways {}),
        HandleStep::Done(Err(ContractError::NoNftContractForGiveaways))
    );
    assert_eq!(
        handle(&state, &admin, HandleMsg::StartMint {}),
        HandleStep::Done(Err(ContractError::NoNftContractForStart))
    );
    match handle(&state, &admin, HandleMsg::AddNftContract { contract: nft() }) {
        HandleStep::Done(Ok(outcome)) => assert_eq!(outcome.config.nft_contract, Some(nft())),
        other => panic!("unexpected {:?}", other),
    }
    let selling = selling_state(10);
    assert_eq!(
        handle(&selling, &admin, HandleMsg::MintGiveaways {}),
        HandleStep::QuerySupply { nft: nft(), pending: Pending::Giveaways {} }
    );
}

#[test]
fn try_receive_checks_sender_message_and_purchase() {
    let state = selling_state(10);
    let token_addr = "secret1token".to_string();
    let purchase = |count: u32| HandleMsg::MintNfts { count, entropy: "abc".to_string() };
    assert_eq!(
        try_receive(&state.config, &"secret1other".to_string(), BUYER.to_string(), 1_000_000, purchase(1)),
        HandleStep::Done(Err(ContractError::InvalidToken))
    );
    assert_eq!(
        try_receive(&state.config, &token_addr, BUYER.to_string(), 1_000_000, HandleMsg::StartMint {}),
        HandleStep::Done(Err(ContractError::ReceiveHandlerNotFound))
    );
    assert_eq!(
        try_receive(&state.config, &token_addr, BUYER.to_string(), 6_000_000, purchase(6)),
        HandleStep::Done(Err(ContractError::TooManyTokens { cap: 5 }))
    );
    assert_eq!(
        try_receive(&state.config, &token_addr, BUYER.to_string(), 999_999, purchase(1)),
        HandleStep::Done(Err(ContractError::IncorrectAmount { received: 999_999, expected: 1_000_000 }))
    );
    assert_eq!(
        try_receive(&state.config, &token_addr, BUYER.to_string(), 2_000_000, purchase(2)),
        HandleStep::QuerySupply {
            nft: nft(),
            pending: Pending::Purchase {
                from: BUYER.to_string(),
                amount: 2_000_000,
                count: 2,
                entropy: b"abc".to_vec(),
            },
        }
    );
    let closed = fresh_state(10);
    assert_eq!(
        try_receive(&closed.config, &token_addr, BUYER.to_string(), 1_000_000, purchase(1)),
        HandleStep::Done(Err(ContractError::MintNotStarted))
    );
    let mut no_nft = selling_state(10);
    no_nft.config.nft_contract = None;
    assert_eq!(
        try_receive(&no_nft.config, &token_addr, BUYER.to_string(), 1_000_000, purchase(1)),
        HandleStep::Done(Err(ContractError::NoNftContract))
    );
}

#[test]
fn check_purchase_returns_the_collection() {
    let state = selling_state(10);
    assert_eq!(check_purchase(&state.config, 3, 3_000_000), Ok(nft()));
    assert_eq!(check_purchase(&state.config, 0, 0), Ok(nft()));
    assert!(purchase_price_computable(&state.config, 3));
    let mut huge = state.config.clone();
    huge.mint_price = u128::MAX;
    assert!(!purchase_price_computable(&huge, 2));
    assert!(purchase_price_computable(&huge, 1));
}

#[test]
fn mint_nfts_supply_errors() {
    let state = selling_state(10);
    let buyer = BUYER.to_string();
    let entropy = b"hello".to_vec();
    assert_eq!(
        mint_nfts(&state, 9, &buyer, 1_000_000, 1, &entropy, 10),
        Some(Err(ContractError::NoMoreMints))
    );
    assert_eq!(
        mint_nfts(&state, 9, &buyer, 3_000_000, 3, &entropy, 8),
        Some(Err(ContractError::NotEnoughMints))
    );
    assert_eq!(
        mint_nfts(&state, 9, &buyer, 1_000_000, 2, &entropy, 0),
        Some(Err(ContractError::IncorrectAmount { received: 1_000_000, expected: 2_000_000 }))
    );
}

#[test]
fn mint_nfts_mints_pays_and_feeds_the_pool() {
    let state = selling_state(20);
    let buyer = BUYER.to_string();
    let outcome = mint_nfts(&state, 1_650_000_100, &buyer, 3_000_000, 3, &b"some entropy".to_vec(), 4)
        .unwrap()
        .unwrap();
    assert_eq!(outcome.answer, HandleAnswer::MintNfts { status: ResponseStatus::Success });
    assert_eq!(outcome.messages.len(), 3);
    let mints = batch_of(&outcome);
    assert_eq!(mints.len(), 3);
    let mut numbers = Vec::new();
    for mint in &mints {
        assert_eq!(mint.owner.as_deref(), Some(BUYER));
        assert_eq!(mint.token_id, None);
        let traits = public_traits_of(mint);
        assert!(utilities().iter().any(|u| u.traits == traits));
        let n = secret_number_of(mint);
        assert!(state.secret_numbers.contains(&n));
        numbers.push(n);
        let ext = mint.public_metadata.as_ref().unwrap().extension.as_ref().unwrap();
        assert_eq!(ext.name.as_deref(), Some("Secret Rocks Attractoor"));
        let media = ext.media.as_ref().unwrap();
        assert_eq!(media.len(), 1);
        assert_eq!(media[0].file_type.as_deref(), Some("image"));
        assert_eq!(media[0].extension.as_deref(), Some("gif"));
        assert_eq!(
            media[0].url,
            "https://ipfs.io/ipfs/QmcbALnjvhWekHuzrTZA3r5MmU8bthHiJ5xne2n8Uw96Ck"
        );
    }
    numbers.sort();
    numbers.dedup();
    assert_eq!(numbers.len(), 3);
    assert_eq!(
        outcome.messages[1],
        CosmosAction::Transfer {
            recipient: WALLET1.to_string(),
            amount: 45_000,
            block_size: BLOCK_SIZE,
            token: token(),
        }
    );
    assert_eq!(
        outcome.messages[2],
        CosmosAction::Transfer {
            recipient: WALLET2.to_string(),
            amount: 2_955_000,
            block_size: BLOCK_SIZE,
            token: token(),
        }
    );
    let counters = &outcome.config.minted_current_utilities;
    assert_eq!(counters.iter().sum::<u32>(), 3);
    for (i, c) in counters.iter().enumerate() {
        let with_utility =
            mints.iter().filter(|m| public_traits_of(m) == utilities()[i].traits).count() as u32;
        assert_eq!(*c, with_utility);
    }
    let mut expected = state.config.clone();
    expected.minted_current_utilities = counters.clone();
    assert_eq!(outcome.config, expected);
    let pool = outcome.additional_entropy.unwrap();
    assert_eq!(pool.len(), 1000);
}

#[test]
fn mint_nfts_with_zero_count_pays_nothing() {
    let state = selling_state(20);
    let outcome = mint_nfts(&state, 5, &BUYER.to_string(), 0, 0, &Vec::new(), 0).unwrap().unwrap();
    assert_eq!(batch_of(&outcome).len(), 0);
    assert_eq!(outcome.config, state.config);
    // the empty entropy counts as "0", and at most its first byte enters the pool
    let pool = outcome.additional_entropy.unwrap();
    assert_eq!(pool, vec![b'0'; 1000]);
}

#[test]
fn mint_nfts_revenue_rounds_down() {
    let mut state = selling_state(20);
    state.config.mint_price = 999;
    let outcome = mint_nfts(&state, 5, &BUYER.to_string(), 999, 1, &b"e".to_vec(), 0).unwrap().unwrap();
    match (&outcome.messages[1], &outcome.messages[2]) {
        (
            CosmosAction::Transfer { amount: first, .. },
            CosmosAction::Transfer { amount: second, .. },
        ) => {
            assert_eq!(*first, 14);
            assert_eq!(*second, 984);
        },
        other => panic!("unexpected {:?}", other),
    }
}

#[test]
fn mint_giveaways_rules_and_success() {
    let mut state = selling_state(10);
    state.config.giveaways_to_send = vec!["secret1a".to_string(), "secret1b".to_string()];
    let admin = ADMIN.to_string();
    assert_eq!(
        mint_giveaways(&state, &BUYER.to_string(), 3, 0),
        Some(Err(ContractError::Unauthorized))
    );
    assert_eq!(mint_giveaways(&state, &admin, 3, 10), Some(Err(ContractError::NoMoreMints)));
    assert_eq!(
        mint_giveaways(&state, &admin, 3, 9),
        Some(Err(ContractError::GiveawaysSurpassLimit))
    );
    let outcome = mint_giveaways(&state, &admin, 3, 8).unwrap().unwrap();
    let mints = batch_of(&outcome);
    assert_eq!(mints.len(), 2);
    assert_eq!(mints[0].owner.as_deref(), Some("secret1a"));
    assert_eq!(mints[1].owner.as_deref(), Some("secret1b"));
    assert_ne!(secret_number_of(&mints[0]), secret_number_of(&mints[1]));
    assert_eq!(outcome.config.giveaways_to_send, Vec::<String>::new());
    assert_eq!(outcome.config.minted_current_utilities.iter().sum::<u32>(), 2);
    assert_eq!(outcome.additional_entropy, None);
    assert_eq!(outcome.messages.len(), 1);
    assert_eq!(outcome.answer, HandleAnswer::StartMint { status: ResponseStatus::Success });
    let mut no_nft = state.clone();
    no_nft.config.nft_contract = None;
    assert_eq!(check_giveaways(&no_nft.config, &admin), Err(ContractError::NoNftContractForGiveaways));
    assert_eq!(check_giveaways(&state.config, &admin), Ok(nft()));
}

#[test]
fn resume_with_supply_finishes_pending_messages() {
    let state = selling_state(10);
    let pending = Pending::Purchase {
        from: BUYER.to_string(),
        amount: 1_000_000,
        count: 1,
        entropy: b"xyz".to_vec(),
    };
    assert!(pending_can_resume(&state, &BUYER.to_string(), &pending, 0));
    let outcome = resume_with_supply(&state, &BUYER.to_string(), 11, pending, 0).unwrap().unwrap();
    assert_eq!(batch_of(&outcome).len(), 1);
    let giveaways = Pending::Giveaways {};
    assert_eq!(
        resume_with_supply(&state, &BUYER.to_string(), 11, giveaways, 0),
        Some(Err(ContractError::Unauthorized))
    );
}

#[test]
fn pending_can_resume_refuses_what_would_fail_halfway() {
    let state = selling_state(10);
    let buyer = BUYER.to_string();
    let non_ascii = Pending::Purchase {
        from: buyer.clone(),
        amount: 1_000_000,
        count: 1,
        entropy: "é".as_bytes().to_vec(),
    };
    assert!(pending_can_resume(&state, &buyer, &non_ascii, 0));
    let over_supply = Pending::Purchase {
        from: buyer.clone(),
        amount: 1_000_000,
        count: 1,
        entropy: b"a".to_vec(),
    };
    assert!(!pending_can_resume(&state, &buyer, &over_supply, 11));
    let mut no_utilities = state.clone();
    no_utilities.config.utilities = vec![];
    no_utilities.config.minted_current_utilities = vec![];
    assert!(!pending_can_resume(&no_utilities, &buyer, &over_supply, 0));
    let refused = Pending::Purchase { from: buyer.clone(), amount: 1, count: 1, entropy: b"a".to_vec() };
    assert!(pending_can_resume(&no_utilities, &buyer, &refused, 0));
}

#[test]
fn query_info_reports_supply() {
    let mut state = selling_state(10);
    state.config.minted_current_utilities = vec![2, 1];
    let answer = query_info(&state.config, 3);
    assert_eq!(
        answer,
        QueryAnswer::Info {
            nft_contract: nft(),
            mint_amount_cap_per_tx: 5,
            max_total_supply: 10,
            mint_current_count: 3,
            mint_current_left: 7,
            utilities: utilities(),
            minted_current_utilities: vec![2, 1],
        }
    );
}

#[test]
fn config_type_is_plain_data() {
    let state = fresh_state(2);
    let copy: Config = state.config.clone();
    assert_eq!(copy, state.config);
}

#[test]
fn query_answers_info() {
    let state = selling_state(10);
    let answer = secret_rocks_minter::contract::query(
        &state.config,
        secret_rocks_minter::msg::QueryMsg::Info {},
        10,
    );
    assert_eq!(answer, query_info(&state.config, 10));
    match answer {
        QueryAnswer::Info { mint_current_left, .. } => assert_eq!(mint_current_left, 0),
    }
}

#[test]
fn revenue_shares_leave_at_most_one_unit() {
    let mut state = selling_state(100);
    state.config.mint_amount_cap_per_tx = 1;
    for price in (0u128..300).chain([999_999, 1_000_001, 123_456_789]) {
        state.config.mint_price = price;
        let outcome = mint_nfts(&state, 1, &BUYER.to_string(), price, 1, &b"r".to_vec(), 0).unwrap().unwrap();
        let shares: Vec<u128> = outcome.messages[1..]
            .iter()
            .map(|m| match m {
                CosmosAction::Transfer { amount, .. } => *amount,
                other => panic!("unexpected {:?}", other),
            })
            .collect();
        assert_eq!(shares[0], price * 15 / 1000);
        assert_eq!(shares[1], price * 985 / 1000);
        let total = shares[0] + shares[1];
        assert!(total <= price && price - total <= 1);
    }
}

#[test]
fn repeated_purchases_keep_the_pool_full_and_count_every_rock() {
    let mut state = selling_state(100);
    let buyer = BUYER.to_string();
    let mut supply = 0u32;
    for (round, entropy) in ["a", "", "a much longer entropy than twenty bytes", "xyz"].iter().enumerate() {
        let count = (round as u32 % 3) + 1;
        let outcome = mint_nfts(
            &state,
            100 + round as u64,
            &buyer,
            1_000_000 * count as u128,
            count,
            &entropy.as_bytes().to_vec(),
            supply,
        )
        .unwrap()
        .unwrap();
        supply += count;
        assert_eq!(batch_of(&outcome).len(), count as usize);
        state.config = outcome.config;
        state.additional_entropy = outcome.additional_entropy.unwrap();
        assert_eq!(state.additional_entropy.len(), 1000);
        assert_eq!(state.config.minted_current_utilities.iter().sum::<u32>(), supply);
    }
}

#[test]
fn resume_rejects_supply_overflows_before_minting() {
    let state = selling_state(10);
    let pending = Pending::Purchase {
        from: BUYER.to_string(),
        amount: 5_000_000,
        count: 5,
        entropy: b"e".to_vec(),
    };
    assert_eq!(
        resume_with_supply(&state, &BUYER.to_string(), 1, pending, 6),
        Some(Err(ContractError::NotEnoughMints))
    );
}
