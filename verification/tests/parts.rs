use secret_rocks_minter::draw::{apply_draw, Draw};
use secret_rocks_minter::entropy::{initial_entropy_pool, mix_entropy, prng_seed_for, truncate_entropy};
use secret_rocks_minter::msg::{duplicate_traits, Trait};
use secret_rocks_minter::state::Utilities;
use secret_rocks_minter::text::{decimal_bytes, decimal_string};
use secret_rocks_minter::token::rock_mint;
use sha2::Digest;

fn trait_of(kind: &str, value: &str) -> Trait {
    Trait {
        display_type: Some("number".to_string()),
        trait_type: Some(kind.to_string()),
        value: value.to_string(),
        max_value: Some("9".to_string()),
    }
}

#[test]
fn decimal_notation_matches_to_string() {
    for n in [0u64, 7, 10, 99, 100, 123, 4_294_967_295, u64::MAX] {
        assert_eq!(decimal_bytes(n), n.to_string().into_bytes());
    }
    for n in [0u32, 5, 42, 1000, u32::MAX] {
        assert_eq!(decimal_string(n), n.to_string());
    }
}

#[test]
fn truncate_entropy_cases() {
    assert_eq!(truncate_entropy(&Vec::new()), b"0".to_vec());
    assert_eq!(truncate_entropy(&b"short".to_vec()), b"short".to_vec());
    assert_eq!(truncate_entropy(&b"exactly twenty bytes".to_vec()), b"exactly twenty bytes".to_vec());
    assert_eq!(
        truncate_entropy(&b"this entropy is longer than twenty".to_vec()),
        b"this entropy is long".to_vec()
    );
}

#[test]
fn mix_entropy_cases() {
    let full = initial_entropy_pool();
    assert_eq!(full, vec![b'0'; 1000]);
    let mixed = mix_entropy(&full, &b"abcdef".to_vec(), 3);
    let mut expected = vec![b'0'; 997];
    expected.extend_from_slice(b"abc");
    assert_eq!(mixed, expected);
    assert_eq!(mix_entropy(&full, &b"abc".to_vec(), 0), full);
    let small = b"xy".to_vec();
    assert_eq!(mix_entropy(&small, &b"abc".to_vec(), 2), b"xyab".to_vec());
    let mut long = vec![b'1'; 1005];
    long[0] = b'2';
    let out = mix_entropy(&long, &b"z".to_vec(), 1);
    assert_eq!(out.len(), 1005);
    assert_eq!(out[0], b'1');
    assert_eq!(out[1004], b'z');
}

#[test]
fn prng_seed_is_sha256_of_the_pieces() {
    let pool = b"pool".to_vec();
    let fresh = b"fresh".to_vec();
    let seed = vec![1u8, 2, 3];
    let got = prng_seed_for(&pool, &fresh, &seed, 1234);
    let mut material = Vec::new();
    material.extend_from_slice(b"poolfresh");
    material.extend_from_slice(&[1, 2, 3]);
    material.extend_from_slice(b"1234");
    assert_eq!(got, sha2::Sha256::digest(&material).to_vec());
    assert_eq!(got.len(), 32);
    assert_ne!(got, material);
}

#[test]
fn apply_draw_takes_by_swap_remove_and_counts() {
    let utilities = vec![
        Utilities { traits: vec![trait_of("Utility", "1")] },
        Utilities { traits: vec![trait_of("Utility", "2")] },
    ];
    let mut numbers = vec![10u32, 20, 30, 40];
    let mut minted = vec![0u32, 5];
    let mint = apply_draw(
        &"secret1owner".to_string(),
        Draw { utility: 1, position: 1 },
        &mut numbers,
        &mut minted,
        &utilities,
    );
    assert_eq!(numbers, vec![10, 40, 30]);
    assert_eq!(minted, vec![0, 6]);
    assert_eq!(mint.owner.as_deref(), Some("secret1owner"));
    let private = mint.private_metadata.unwrap().extension.unwrap().attributes.unwrap();
    assert_eq!(private[0].value, "20");
    let public = mint.public_metadata.unwrap().extension.unwrap().attributes.unwrap();
    assert_eq!(public, utilities[1].traits);
    let last = apply_draw(
        &"secret1owner".to_string(),
        Draw { utility: 0, position: 2 },
        &mut numbers,
        &mut minted,
        &utilities,
    );
    assert_eq!(numbers, vec![10, 40]);
    assert_eq!(minted, vec![1, 6]);
    let private = last.private_metadata.unwrap().extension.unwrap().attributes.unwrap();
    assert_eq!(private[0].value, "30");
}

#[test]
fn rock_mint_exact_metadata() {
    let traits = vec![trait_of("Kind", "granite")];
    let mint = rock_mint(&"o".to_string(), &traits, 1234);
    assert_eq!(mint.token_id, None);
    assert_eq!(mint.memo, None);
    assert_eq!(mint.serial_number, None);
    assert_eq!(mint.royalty_info, None);
    let public = mint.public_metadata.unwrap();
    assert_eq!(public.token_uri, None);
    let ext = public.extension.unwrap();
    assert_eq!(ext.attributes, Some(traits.clone()));
    assert_eq!(ext.image, None);
    assert_eq!(ext.protected_attributes, None);
    let auth = ext.media.unwrap()[0].authentication.clone().unwrap();
    assert_eq!(auth.key.as_deref(), Some(""));
    assert_eq!(auth.user.as_deref(), Some(""));
    let private = mint.private_metadata.unwrap().extension.unwrap();
    assert_eq!(private.name.as_deref(), Some("Secret Rocks Attractoor"));
    let secret = &private.attributes.unwrap()[0];
    assert_eq!(secret.display_type, None);
    assert_eq!(secret.max_value, None);
    assert_eq!(secret.value, "1234");
    assert_eq!(duplicate_traits(&traits), traits);
}

#[test]
fn draws_neither_lose_nor_invent_numbers() {
    let utilities = vec![Utilities { traits: vec![] }, Utilities { traits: vec![] }, Utilities { traits: vec![] }];
    let starting: Vec<u32> = vec![7, 3, 9, 1, 12, 5];
    let mut numbers = starting.clone();
    let mut minted = vec![0u32; 3];
    let mut taken = Vec::new();
    let draws = [(2usize, 5usize), (0, 0), (2, 1), (1, 2)];
    for (utility, position) in draws {
        let mint = apply_draw(
            &"o".to_string(),
            Draw { utility, position },
            &mut numbers,
            &mut minted,
            &utilities,
        );
        let private = mint.private_metadata.unwrap().extension.unwrap().attributes.unwrap();
        taken.push(private[0].value.parse::<u32>().unwrap());
    }
    assert_eq!(numbers.len() + taken.len(), starting.len());
    let mut all = numbers.clone();
    all.extend(taken.iter().copied());
    all.sort();
    let mut expected = starting.clone();
    expected.sort();
    assert_eq!(all, expected);
    assert_eq!(taken, vec![5, 7, 3, 9]);
    assert_eq!(numbers, vec![12, 1]);
    assert_eq!(minted, vec![1, 1, 2]);
    assert_eq!(minted.iter().sum::<u32>(), 4);
}
