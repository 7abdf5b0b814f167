use ckb_auth_cli::error::HarnessError;
use ckb_auth_cli::fingerprint::{get_pub_key_hash_from_address, Fingerprint};

fn bytes_of_hex(text: &str) -> Vec<u8> {
    hex::decode(text).unwrap()
}

#[test]
fn fingerprint_of_the_all_zero_key() {
    let fingerprint = get_pub_key_hash_from_address("11111111111111111111111111111111").unwrap();
    assert_eq!(
        fingerprint.to_vec(),
        bytes_of_hex("266cec97cbede2cfbce73666f08deed9560bdf78")
    );
}

#[test]
fn fingerprint_of_a_key_of_ones() {
    let fingerprint =
        get_pub_key_hash_from_address("4vJ9JU1bJJE96FWSJKvHsmmFADCg4gpZQff4P3bkLKi").unwrap();
    assert_eq!(
        fingerprint.to_vec(),
        bytes_of_hex("f6b60284c5805c303b4c3d3e7b0065b9c1f9106d")
    );
}

#[test]
fn fingerprint_of_short_addresses() {
    assert_eq!(
        get_pub_key_hash_from_address("he11owor1d").unwrap().to_vec(),
        bytes_of_hex("ba4a99eb0ee36e2d0c71df5f1ffb13cc27a10519")
    );
    assert_eq!(
        get_pub_key_hash_from_address("1").unwrap().to_vec(),
        bytes_of_hex("ef3f1252fe6f373c05e5e9c6371e230e29c1226b")
    );
    assert_eq!(
        get_pub_key_hash_from_address("2").unwrap().to_vec(),
        bytes_of_hex("b9aaddf96f7f5c742950611835c040af6b7024ad")
    );
}

#[test]
fn fingerprint_of_the_empty_address() {
    assert_eq!(
        get_pub_key_hash_from_address("").unwrap().to_vec(),
        bytes_of_hex("44f4c69744d5f8c55d642062949dcae49bc4e7ef")
    );
}

#[test]
fn fingerprint_has_twenty_bytes() {
    for address in ["", "1", "2", "he11owor1d", "11111111111111111111111111111111"] {
        let fingerprint = get_pub_key_hash_from_address(address).unwrap();
        assert_eq!(fingerprint.bytes.len(), 20);
        assert_eq!(fingerprint.to_vec().len(), 20);
    }
}

#[test]
fn derivation_is_deterministic() {
    for address in ["", "1", "he11owor1d", "0", "hello world"] {
        assert_eq!(
            get_pub_key_hash_from_address(address),
            get_pub_key_hash_from_address(address)
        );
    }
}

#[test]
fn address_outside_the_alphabet_is_invalid() {
    for address in [
        "0",
        "O",
        "I",
        "l",
        "hello world",
        "he11owor1d!",
        " he11owor1d",
        "he11o\u{e9}",
        "1111111111111111111111111111111l",
    ] {
        assert_eq!(
            get_pub_key_hash_from_address(address),
            Err(HarnessError::InvalidAddress),
            "{}",
            address
        );
    }
}

#[test]
fn fingerprint_from_slice_wants_twenty_bytes() {
    let twenty: Vec<u8> = (1u8..=20).collect();
    let fingerprint = Fingerprint::from_slice(&twenty).unwrap();
    assert_eq!(fingerprint.to_vec(), twenty);
    assert_eq!(Fingerprint::from_slice(&twenty[..19]), None);
    assert_eq!(Fingerprint::from_slice(&[]), None);
    let more: Vec<u8> = (1u8..=21).collect();
    assert_eq!(Fingerprint::from_slice(&more), None);
}

#[test]
fn fingerprint_from_digest_keeps_the_first_twenty_bytes() {
    let mut digest = [0u8; 32];
    let mut i: usize = 0;
    while i < 32 {
        digest[i] = (i as u8) + 100;
        i += 1;
    }
    let fingerprint = Fingerprint::from_digest(&digest);
    assert_eq!(fingerprint.bytes[..], digest[..20]);
}

#[test]
fn fingerprint_as_hex_is_forty_lowercase_digits() {
    let fingerprint = get_pub_key_hash_from_address("11111111111111111111111111111111").unwrap();
    let text = fingerprint.to_hex();
    assert_eq!(text, "266cec97cbede2cfbce73666f08deed9560bdf78");
    assert_eq!(text.len(), 40);
    assert!(text.chars().all(|c| "0123456789abcdef".contains(c)));
}
