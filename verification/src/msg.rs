//! Messages that the minter receives, answers and sends, as plain values.
use vstd::prelude::*;

use crate::state::{SecretContract, Utilities};

verus! {

/// What the minter is instantiated with.
#[derive(Clone, Debug, PartialEq, Eq)]
pub struct InitMsg {
    /// Administrator; the instantiating sender when absent.
    pub admin: Option<String>,
    /// The SNIP-20 token in which mints are paid.
    pub token_contract: SecretContract,
    /// Seed material; only its SHA-256 digest is kept.
    pub prng_seed: Vec<u8>,
    /// How many tokens the collection holds at most.
    pub mint_limit: u32,
    /// Price of one token, in the smallest unit of the payment token.
    pub mint_price: u128,
    /// Addresses that receive a token each when the giveaways are minted.
    pub giveaways: Vec<String>,
    /// The utilities that a minted token can be given.
    pub utilities: Vec<Utilities>,
    /// How many tokens one purchase may mint at most.
    pub mint_amount_cap_per_tx: u32,
}

/// What the minter handles.
#[derive(Clone, Debug, PartialEq, Eq)]
pub enum HandleMsg {
    /// A SNIP-20 `Send` to the minter; `msg` holds the encoded inner message.
    Receive { sender: String, from: String, amount: u128, msg: Vec<u8> },
    /// The inner message of a purchase: mint `count` tokens.
    MintNfts { count: u32, entropy: String },
    StartMint {},
    AddNftContract { contract: SecretContract },
    MintGiveaways {},
}

/// The data of a successful handle.
#[derive(Clone, Debug, PartialEq, Eq)]
pub enum HandleAnswer {
    StartMint { status: ResponseStatus },
    MintNfts { status: ResponseStatus },
}

#[derive(Clone, Copy, Debug, PartialEq, Eq)]
pub enum ResponseStatus {
    Success,
    Failure,
}

/// What can be asked of the minter.
#[derive(Clone, Debug, PartialEq, Eq)]
pub enum QueryMsg {
    Info {},
}

/// The answer to `QueryMsg::Info`.
#[derive(Clone, Debug, PartialEq, Eq)]
pub enum QueryAnswer {
    Info {
        nft_contract: SecretContract,
        mint_amount_cap_per_tx: u32,
        max_total_supply: u32,
        mint_current_count: u32,
        mint_current_left: u32,
        utilities: Vec<Utilities>,
        minted_current_utilities: Vec<u32>,
    },
}

/// Messages that the minter sends to the SNIP-721 collection.
#[derive(Clone, Debug, PartialEq, Eq)]
pub enum NftsHandleMsg {
    MintNft {
        /// optional token id. if omitted, use current token index
        token_id: Option<String>,
        /// optional owner address. if omitted, owned by the message sender
        owner: Option<String>,
        /// optional public metadata that can be seen by everyone
        public_metadata: Option<Metadata>,
        /// optional private metadata that can only be seen by the owner and whitelist
        private_metadata: Option<Metadata>,
        /// optional serial number for this token
        serial_number: Option<SerialNumber>,
        /// optional royalty information for this token
        royalty_info: Option<RoyaltyInfo>,
        /// optional memo for the tx
        memo: Option<String>,
        /// optional message length padding
        padding: Option<String>,
    },
    /// Mint multiple tokens
    BatchMintNft {
        /// list of mint operations to perform
        mints: Vec<Mint>,
        /// optional message length padding
        padding: Option<String>,
    },
}

/// One mint of a batch.
#[derive(Clone, Debug, PartialEq, Eq)]
pub struct Mint {
    /// optional token id, if omitted, use current token index
    pub token_id: Option<String>,
    /// optional owner address, owned by the minter otherwise
    pub owner: Option<String>,
    /// optional public metadata that can be seen by everyone
    pub public_metadata: Option<Metadata>,
    /// optional private metadata that can only be seen by owner and whitelist
    pub private_metadata: Option<Metadata>,
    /// optional serial number for this token
    pub serial_number: Option<SerialNumber>,
    /// optional royalty info for this token
    pub royalty_info: Option<RoyaltyInfo>,
    /// optional memo for the tx
    pub memo: Option<String>,
}

/// token metadata
#[derive(Clone, Debug, PartialEq, Eq, Default)]
pub struct Metadata {
    /// optional uri for off-chain metadata
    pub token_uri: Option<String>,
    /// optional on-chain metadata
    pub extension: Option<Extension>,
}

#[derive(Clone, Debug, PartialEq, Eq, Default)]
pub struct Extension {
    /// url to the image
    pub image: Option<String>,
    /// raw SVG image data
    pub image_data: Option<String>,
    /// url to allow users to view the item on your site
    pub external_url: Option<String>,
    /// item description
    pub description: Option<String>,
    /// name of the item
    pub name: Option<String>,
    /// item attributes
    pub attributes: Option<Vec<Trait>>,
    /// background color represented as a six-character hexadecimal without a pre-pended #
    pub background_color: Option<String>,
    /// url to a multimedia attachment
    pub animation_url: Option<String>,
    /// url to a YouTube video
    pub youtube_url: Option<String>,
    /// media files with basic authentication and decryption keys
    pub media: Option<Vec<MediaFile>>,
    /// trait_types that are in the private metadata
    pub protected_attributes: Option<Vec<String>>,
}

#[derive(Clone, Debug, PartialEq, Eq, Default)]
pub struct Trait {
    /// indicates how a trait should be displayed
    pub display_type: Option<String>,
    /// name of the trait
    pub trait_type: Option<String>,
    /// trait value
    pub value: String,
    /// optional max value for numerical traits
    pub max_value: Option<String>,
}

#[derive(Clone, Debug, PartialEq, Eq, Default)]
pub struct MediaFile {
    /// file type
    pub file_type: Option<String>,
    /// file extension
    pub extension: Option<String>,
    /// authentication information
    pub authentication: Option<Authentication>,
    /// url to the file
    pub url: String,
}

/// media file authentication
#[derive(Clone, Debug, PartialEq, Eq, Default)]
pub struct Authentication {
    /// either a decryption key for encrypted files or a password for basic authentication
    pub key: Option<String>,
    /// username used in basic authentication
    pub user: Option<String>,
}

/// Serial number to give an NFT when minting
#[derive(Clone, Debug, PartialEq, Eq)]
pub struct SerialNumber {
    /// optional number of the mint run this token will be minted in
    pub mint_run: Option<u32>,
    /// serial number (in this mint run)
    pub serial_number: u32,
    /// optional total number of NFTs minted on this run
    pub quantity_minted_this_run: Option<u32>,
}

/// all royalty information
#[derive(Clone, Debug, PartialEq, Eq)]
pub struct RoyaltyInfo {
    /// decimal places in royalty rates
    pub decimal_places_in_rates: u8,
    /// list of royalties
    pub royalties: Vec<Royalty>,
}

#[derive(Clone, Debug, PartialEq, Eq)]
pub struct Royalty {
    /// address to send royalties to
    pub recipient: String,
    /// royalty rate
    pub rate: u16,
}

impl Trait {
    /// A field-by-field copy.
    pub fn duplicate(&self) -> (copy: Self)
        ensures
            copy == *self,
    {
        Trait {
            display_type: self.display_type.clone(),
            trait_type: self.trait_type.clone(),
            value: self.value.clone(),
            max_value: self.max_value.clone(),
        }
    }
}

/// Copies a list of traits element by element.
pub fn duplicate_traits(traits: &Vec<Trait>) -> (copy: Vec<Trait>)
    ensures
        copy@ == traits@,
{
    let mut copy: Vec<Trait> = Vec::new();
    let mut i: usize = 0;
    while i < traits.len()
        invariant
            i <= traits.len(),
            copy@ == traits@.take(i as int),
        decreases traits.len() - i,
    {
        copy.push(traits[i].duplicate());
        i = i + 1;
    }
    assert(traits@.take(traits.len() as int) =~= traits@);
    copy
}

} // verus!
