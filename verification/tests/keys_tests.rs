use scream::keys::KeyError;
use scream::keys::KeyPair;
use scream::keys::KEY_LEN;

fn hex(text: &str) -> Vec<u8> {
    (0..text.len() / 2)
        .map(|i| u8::from_str_radix(&text[2 * i..2 * i + 2], 16).unwrap())
        .collect()
}

fn secret_three() -> Vec<u8> {
    let mut secret = vec![0u8; 32];
    secret[31] = 3;
    secret
}

#[test]
fn from_secret_derives_the_known_public_key() {
    let pair = KeyPair::from_secret(secret_three()).ok().unwrap();
    assert_eq!(
        pair.public_key,
        hex("f9308a019258c31049344f85f89d5229b531c845836f99b08601f113bce036f9")
    );
    assert_eq!(pair.private_key, secret_three());
}

#[test]
fn from_secret_refuses_what_is_no_secret_key() {
    assert_eq!(KeyPair::from_secret(vec![0u8; 32]).err(), Some(KeyError::InvalidSecret));
    assert_eq!(KeyPair::from_secret(vec![0xffu8; 32]).err(), Some(KeyError::InvalidSecret));
    assert_eq!(KeyPair::from_secret(vec![1u8; 31]).err(), Some(KeyError::InvalidSecret));
    assert_eq!(KeyPair::from_secret(vec![1u8; 33]).err(), Some(KeyError::InvalidSecret));
    assert_eq!(KeyPair::from_secret(vec![]).err(), Some(KeyError::InvalidSecret));
}

#[test]
fn from_generated_without_a_secret_is_an_entropy_failure() {
    assert_eq!(KeyPair::from_generated(None).err(), Some(KeyError::EntropyUnavailable));
    assert_eq!(
        KeyPair::from_generated(Some(vec![0u8; 32])).err(),
        Some(KeyError::EntropyUnavailable)
    );
    assert_eq!(
        KeyPair::from_generated(Some(vec![9u8; 5])).err(),
        Some(KeyError::EntropyUnavailable)
    );
}

#[test]
fn from_generated_with_a_secret_is_that_key_pair() {
    let pair = KeyPair::from_generated(Some(secret_three())).ok().unwrap();
    assert_eq!(pair.private_key, secret_three());
    assert_eq!(
        pair.public_key,
        hex("f9308a019258c31049344f85f89d5229b531c845836f99b08601f113bce036f9")
    );
}

#[test]
fn generate_gives_a_well_formed_pair() {
    let pair = KeyPair::generate().ok().unwrap();
    assert_eq!(pair.private_key.len(), KEY_LEN);
    assert_eq!(pair.public_key.len(), KEY_LEN);
    let again = KeyPair::from_secret(pair.private_key.clone()).ok().unwrap();
    assert_eq!(again.public_key, pair.public_key);
}

#[test]
fn generate_gives_a_new_pair_each_time() {
    let a = KeyPair::generate().ok().unwrap();
    let b = KeyPair::generate().ok().unwrap();
    assert_ne!(a.private_key, b.private_key);
    assert_ne!(a.public_key, b.public_key);
}

#[test]
fn the_public_key_is_not_the_secret() {
    let pair = KeyPair::from_secret(vec![1u8; 32]).ok().unwrap();
    assert_ne!(pair.public_key, pair.private_key);
}

#[test]
fn the_pair_of_a_draw_has_the_draw_as_its_secret() {
    let mut a = vec![7u8; 32];
    let mut b = vec![7u8; 32];
    b[0] = 8;
    let first = KeyPair::from_generated(Some(a.clone())).ok().unwrap();
    let second = KeyPair::from_generated(Some(b.clone())).ok().unwrap();
    let again = KeyPair::from_generated(Some(a.clone())).ok().unwrap();
    assert_eq!(first.private_key, a);
    assert_eq!(second.private_key, b);
    assert_ne!(first.private_key, second.private_key);
    assert_ne!(first.public_key, second.public_key);
    assert_eq!(first.public_key, again.public_key);
    a[31] ^= 1;
    assert_ne!(KeyPair::from_generated(Some(a)).ok().unwrap().public_key, first.public_key);
}
