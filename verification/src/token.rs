//! The metadata of a minted Secret Rock.
use vstd::prelude::*;

use crate::msg::{duplicate_traits, Authentication, Extension, MediaFile, Metadata, Mint, Trait};
use crate::text::{decimal_chars, decimal_string};

verus! {

/// The name every rock carries.
pub open spec fn rock_name() -> Seq<char> {
    "Secret Rocks Attractoor"@
}

/// The trait type under which a rock's secret number is kept privately.
pub open spec fn secret_id_trait_type() -> Seq<char> {
    "Attracted Secret Rock ID"@
}

/// Where the rock's image lies.
pub open spec fn rock_image_url() -> Seq<char> {
    "https://ipfs.io/ipfs/QmcbALnjvhWekHuzrTZA3r5MmU8bthHiJ5xne2n8Uw96Ck"@
}

/// The one media file of a rock: the gif image, with empty key and user.
pub open spec fn is_rock_media(media: Option<Vec<MediaFile>>) -> bool {
    &&& media matches Some(files)
    &&& files@.len() == 1
    &&& files@[0].file_type matches Some(t) && t@ == "image"@
    &&& files@[0].extension matches Some(x) && x@ == "gif"@
    &&& files@[0].authentication matches Some(a) && {
        &&& a.key matches Some(k) && k@ == ""@
        &&& a.user matches Some(u) && u@ == ""@
    }
    &&& files@[0].url@ == rock_image_url()
}

/// A rock's extension, whatever its attributes: the name and the media, nothing else set.
pub open spec fn is_rock_extension(e: Extension) -> bool {
    &&& e.image is None
    &&& e.image_data is None
    &&& e.external_url is None
    &&& e.description is None
    &&& e.name matches Some(n) && n@ == rock_name()
    &&& e.background_color is None
    &&& e.animation_url is None
    &&& e.youtube_url is None
    &&& is_rock_media(e.media)
    &&& e.protected_attributes is None
}

/// Public metadata of a rock that shows `traits`.
pub open spec fn is_public_rock_metadata(md: Option<Metadata>, traits: Seq<Trait>) -> bool {
    &&& md matches Some(m)
    &&& m.token_uri is None
    &&& m.extension matches Some(e)
    &&& is_rock_extension(e)
    &&& e.attributes matches Some(a) && a@ == traits
}

/// The private trait that holds the secret number.
pub open spec fn is_secret_id_trait(t: Trait, number: u32) -> bool {
    &&& t.display_type is None
    &&& t.trait_type matches Some(tt) && tt@ == secret_id_trait_type()
    &&& t.value@ == decimal_chars(number as nat)
    &&& t.max_value is None
}

/// Private metadata of a rock with secret number `number`.
pub open spec fn is_private_rock_metadata(md: Option<Metadata>, number: u32) -> bool {
    &&& md matches Some(m)
    &&& m.token_uri is None
    &&& m.extension matches Some(e)
    &&& is_rock_extension(e)
    &&& e.attributes matches Some(a) && a@.len() == 1 && is_secret_id_trait(a@[0], number)
}

/// The mint of a rock for `owner` that shows `traits` and keeps `number` secret.
pub open spec fn is_rock_mint(m: Mint, owner: String, traits: Seq<Trait>, number: u32) -> bool {
    &&& m.token_id is None
    &&& m.owner == Some(owner)
    &&& is_public_rock_metadata(m.public_metadata, traits)
    &&& is_private_rock_metadata(m.private_metadata, number)
    &&& m.memo is None
    &&& m.serial_number is None
    &&& m.royalty_info is None
}

fn rock_media() -> (media: Option<Vec<MediaFile>>)
    ensures
        is_rock_media(media),
{
    let mut files: Vec<MediaFile> = Vec::new();
    files.push(
        MediaFile {
            file_type: Some(String::from_str("image")),
            extension: Some(String::from_str("gif")),
            authentication: Some(
                Authentication { key: Some(String::from_str("")), user: Some(String::from_str("")) },
            ),
            url: String::from_str("https://ipfs.io/ipfs/QmcbALnjvhWekHuzrTZA3r5MmU8bthHiJ5xne2n8Uw96Ck"),
        },
    );
    Some(files)
}

fn rock_metadata(attributes: Vec<Trait>) -> (md: Option<Metadata>)
    ensures
        is_public_rock_metadata(md, attributes@),
{
    Some(
        Metadata {
            token_uri: None,
            extension: Some(
                Extension {
                    image: None,
                    image_data: None,
                    external_url: None,
                    description: None,
                    name: Some(String::from_str("Secret Rocks Attractoor")),
                    attributes: Some(attributes),
                    background_color: None,
                    animation_url: None,
                    youtube_url: None,
                    media: rock_media(),
                    protected_attributes: None,
                },
            ),
        },
    )
}

/// The mint of a rock: owned by `owner`, showing `traits` publicly and holding `number`
/// as its private "Attracted Secret Rock ID".
pub fn rock_mint(owner: &String, traits: &Vec<Trait>, number: u32) -> (mint: Mint)
    ensures
        is_rock_mint(mint, *owner, traits@, number),
{
    let mut secret: Vec<Trait> = Vec::new();
    secret.push(
        Trait {
            display_type: None,
            trait_type: Some(String::from_str("Attracted Secret Rock ID")),
            value: decimal_string(number),
            max_value: None,
        },
    );
    Mint {
        token_id: None,
        owner: Some(owner.clone()),
        public_metadata: rock_metadata(duplicate_traits(traits)),
        private_metadata: rock_metadata(secret),
        serial_number: None,
        royalty_info: None,
        memo: None,
    }
}

} // verus!
