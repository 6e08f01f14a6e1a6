//! The minter's stored configuration and the rest of its state.
use vstd::prelude::*;

use crate::msg::{duplicate_traits, Trait};

verus! {

/// A contract on the chain: its address and code hash.
#[derive(Clone, Debug, PartialEq, Eq)]
pub struct SecretContract {
    pub address: String,
    pub contract_hash: String,
}

/// A utility that a minted token can be given: the traits it shows publicly.
#[derive(Clone, Debug, PartialEq, Eq)]
pub struct Utilities {
    pub traits: Vec<Trait>,
}

/// The stored configuration of the minter.
#[derive(Clone, Debug, PartialEq, Eq)]
pub struct Config {
    pub admin: String,
    pub token_contract: SecretContract,
    pub nft_contract: Option<SecretContract>,
    /// SHA-256 digest of the seed given at instantiation.
    pub prng_seed: Vec<u8>,
    pub mint_started: bool,
    pub mint_price: u128,
    pub mint_limit: u32,
    pub giveaways_to_send: Vec<String>,
    pub utilities: Vec<Utilities>,
    pub mint_amount_cap_per_tx: u32,
    /// How many tokens were minted with each utility, index by index.
    pub minted_current_utilities: Vec<u32>,
}

/// The mathematical value of a `Config`: its vectors taken as sequences.
#[verifier::ext_equal]
pub struct ConfigView {
    pub admin: String,
    pub token_contract: SecretContract,
    pub nft_contract: Option<SecretContract>,
    pub prng_seed: Seq<u8>,
    pub mint_started: bool,
    pub mint_price: u128,
    pub mint_limit: u32,
    pub giveaways_to_send: Seq<String>,
    pub utilities: Seq<Seq<Trait>>,
    pub mint_amount_cap_per_tx: u32,
    pub minted_current_utilities: Seq<u32>,
}

impl View for Utilities {
    type V = Seq<Trait>;

    open spec fn view(&self) -> Seq<Trait> {
        self.traits@
    }
}

/// The traits of each utility, in order.
pub open spec fn utilities_view(utilities: Seq<Utilities>) -> Seq<Seq<Trait>> {
    utilities.map_values(|u: Utilities| u@)
}

impl View for Config {
    type V = ConfigView;

    open spec fn view(&self) -> ConfigView {
        ConfigView {
            admin: self.admin,
            token_contract: self.token_contract,
            nft_contract: self.nft_contract,
            prng_seed: self.prng_seed@,
            mint_started: self.mint_started,
            mint_price: self.mint_price,
            mint_limit: self.mint_limit,
            giveaways_to_send: self.giveaways_to_send@,
            utilities: utilities_view(self.utilities@),
            mint_amount_cap_per_tx: self.mint_amount_cap_per_tx,
            minted_current_utilities: self.minted_current_utilities@,
        }
    }
}

impl SecretContract {
    /// A field-by-field copy.
    pub fn duplicate(&self) -> (copy: Self)
        ensures
            copy == *self,
    {
        SecretContract { address: self.address.clone(), contract_hash: self.contract_hash.clone() }
    }
}

/// Copies an optional contract.
pub fn duplicate_contract(contract: &Option<SecretContract>) -> (copy: Option<SecretContract>)
    ensures
        copy == *contract,
{
    match contract {
        Some(c) => Some(c.duplicate()),
        None => None,
    }
}

impl Utilities {
    /// A field-by-field copy.
    pub fn duplicate(&self) -> (copy: Self)
        ensures
            copy@ == self@,
    {
        Utilities { traits: duplicate_traits(&self.traits) }
    }
}

/// Copies a list of utilities element by element.
pub fn duplicate_utilities(utilities: &Vec<Utilities>) -> (copy: Vec<Utilities>)
    ensures
        utilities_view(copy@) == utilities_view(utilities@),
{
    let mut copy: Vec<Utilities> = Vec::new();
    let mut i: usize = 0;
    while i < utilities.len()
        invariant
            i <= utilities.len(),
            copy@.len() == i,
            forall|j: int| 0 <= j < i ==> #[trigger] copy@[j]@ == utilities@[j]@,
        decreases utilities.len() - i,
    {
        let u = utilities[i].duplicate();
        copy.push(u);
        i = i + 1;
    }
    assert(utilities_view(copy@) =~= utilities_view(utilities@));
    copy
}

/// Copies a vector of `u32`.
pub fn duplicate_u32s(v: &Vec<u32>) -> (copy: Vec<u32>)
    ensures
        copy@ == v@,
{
    let copy = v.clone();
    assert(copy@ =~= v@);
    copy
}

/// Copies a vector of bytes.
pub fn duplicate_bytes(v: &Vec<u8>) -> (copy: Vec<u8>)
    ensures
        copy@ == v@,
{
    let copy = v.clone();
    assert(copy@ =~= v@);
    copy
}

/// Copies a vector of strings.
pub fn duplicate_strings(v: &Vec<String>) -> (copy: Vec<String>)
    ensures
        copy@ == v@,
{
    let copy = v.clone();
    assert(copy@ =~= v@);
    copy
}

impl Config {
    /// A field-by-field copy.
    pub fn duplicate(&self) -> (copy: Self)
        ensures
            copy@ == self@,
    {
        let copy = Config {
            admin: self.admin.clone(),
            token_contract: self.token_contract.duplicate(),
            nft_contract: duplicate_contract(&self.nft_contract),
            prng_seed: duplicate_bytes(&self.prng_seed),
            mint_started: self.mint_started,
            mint_price: self.mint_price,
            mint_limit: self.mint_limit,
            giveaways_to_send: duplicate_strings(&self.giveaways_to_send),
            utilities: duplicate_utilities(&self.utilities),
            mint_amount_cap_per_tx: self.mint_amount_cap_per_tx,
            minted_current_utilities: duplicate_u32s(&self.minted_current_utilities),
        };
        assert(copy@ =~= self@);
        copy
    }
}

} // verus!
