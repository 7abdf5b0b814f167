use ckb_auth_cli::encoding::{decode_string, encode_to_string, EncodingKind};
use ckb_auth_cli::error::HarnessError;
use ckb_auth_cli::fingerprint::get_pub_key_hash_from_address;

fn is_base58_character(c: char) -> bool {
    ('1'..='9').contains(&c)
        || (c.is_ascii_uppercase() && c != 'I' && c != 'O')
        || (c.is_ascii_lowercase() && c != 'l')
}

fn hex_digit_value(c: char) -> Option<u8> {
    match c {
        '0'..='9' => Some(c as u8 - b'0'),
        'a'..='f' => Some(c as u8 - b'a' + 10),
        'A'..='F' => Some(c as u8 - b'A' + 10),
        _ => None,
    }
}

fn sample_characters() -> Vec<char> {
    let mut characters: Vec<char> = (0u8..128).map(|code| code as char).collect();
    characters.extend(['\u{e9}', '\u{3b1}', '\u{1f600}']);
    characters
}

#[test]
fn base58_accepts_exactly_its_alphabet() {
    for c in sample_characters() {
        let text = c.to_string();
        assert_eq!(
            decode_string(&text, "base58").is_ok(),
            is_base58_character(c),
            "{:?}",
            c
        );
        let inside = format!("2{}2", c);
        assert_eq!(
            decode_string(&inside, "base58").is_ok(),
            is_base58_character(c),
            "{:?}",
            c
        );
    }
}

#[test]
fn address_is_valid_exactly_over_the_base58_alphabet() {
    for c in sample_characters() {
        let address = format!("4vJ9{}", c);
        let derived = get_pub_key_hash_from_address(&address);
        if is_base58_character(c) {
            assert!(derived.is_ok(), "{:?}", c);
        } else {
            assert_eq!(derived, Err(HarnessError::InvalidAddress), "{:?}", c);
        }
    }
}

#[test]
fn base58_text_is_of_the_alphabet() {
    let mut byte: u8 = 0;
    loop {
        for payload in [vec![byte], vec![byte, 0], vec![0, byte], vec![byte; 5]] {
            let text = encode_to_string(&payload, "base58").unwrap();
            assert!(text.chars().all(is_base58_character));
            assert!(!text.is_empty());
            assert_eq!(decode_string(&text, "base58"), Ok(payload));
        }
        if byte == 255 {
            break;
        }
        byte += 1;
    }
}

#[test]
fn hex_accepts_exactly_pairs_of_digits() {
    for high in sample_characters() {
        for low in ['0', '9', 'a', 'F', 'g', ' ', '\u{e9}'] {
            let text = format!("{}{}", high, low);
            let expected = match (hex_digit_value(high), hex_digit_value(low)) {
                (Some(h), Some(l)) => Some(vec![16 * h + l]),
                _ => None,
            };
            assert_eq!(decode_string(&text, "hex").ok(), expected, "{:?}", text);
        }
        let single = high.to_string();
        assert!(decode_string(&single, "hex").is_err(), "{:?}", single);
    }
}

#[test]
fn hex_text_is_two_lowercase_digits_for_each_byte() {
    let digits: Vec<char> = "0123456789abcdef".chars().collect();
    let mut byte: u8 = 0;
    loop {
        let text = encode_to_string(&[byte, 255 - byte], "hex").unwrap();
        let expected: String = [
            digits[(byte / 16) as usize],
            digits[(byte % 16) as usize],
            digits[((255 - byte) / 16) as usize],
            digits[((255 - byte) % 16) as usize],
        ]
        .iter()
        .collect();
        assert_eq!(text, expected);
        if byte == 255 {
            break;
        }
        byte += 1;
    }
}

#[test]
fn base64_rejects_what_is_outside_its_alphabet() {
    for c in sample_characters() {
        let allowed = c.is_ascii_alphanumeric() || c == '+' || c == '/' || c == '=';
        let text = format!("Zm9{}", c);
        if !allowed {
            assert!(
                matches!(
                    decode_string(&text, "base64"),
                    Err(HarnessError::MalformedPayload(EncodingKind::Base64, _))
                ),
                "{:?}",
                c
            );
        }
    }
    assert_eq!(decode_string("Zm9v", "base64"), Ok(b"foo".to_vec()));
    assert_eq!(decode_string("Zm8=", "base64"), Ok(b"fo".to_vec()));
    assert_eq!(decode_string("Zg==", "base64"), Ok(b"f".to_vec()));
}

#[test]
fn base64_text_pads_to_groups_of_four() {
    assert_eq!(encode_to_string(b"", "base64"), Ok("".to_string()));
    assert_eq!(encode_to_string(b"f", "base64"), Ok("Zg==".to_string()));
    assert_eq!(encode_to_string(b"fo", "base64"), Ok("Zm8=".to_string()));
    assert_eq!(encode_to_string(b"foo", "base64"), Ok("Zm9v".to_string()));
    assert_eq!(encode_to_string(&[0xfb, 0xff], "base64"), Ok("+/8=".to_string()));
}

#[test]
fn base58_monero_wants_blocks_of_possible_lengths() {
    let mut length: usize = 0;
    while length <= 40 {
        let text = "1".repeat(length);
        let rest = length % 11;
        let shaped = rest != 1 && rest != 4 && rest != 8;
        assert_eq!(
            decode_string(&text, "base58_monero").is_ok(),
            shaped,
            "{}",
            length
        );
        length += 1;
    }
}

#[test]
fn base58_monero_rejects_what_is_outside_the_alphabet() {
    for c in sample_characters() {
        if !is_base58_character(c) {
            for text in [format!("1{}", c), format!("{}1", c), format!("1111111111{}", c)] {
                assert!(
                    matches!(
                        decode_string(&text, "base58_monero"),
                        Err(HarnessError::MalformedPayload(EncodingKind::Base58Monero, _))
                    ),
                    "{:?}",
                    text
                );
            }
        }
    }
}

#[test]
fn base58_monero_decodes_blocks_of_eight_bytes() {
    assert_eq!(
        decode_string("11111111111", "base58_monero"),
        Ok(vec![0u8; 8])
    );
    assert_eq!(decode_string("11", "base58_monero"), Ok(vec![0u8]));
    assert_eq!(decode_string("12", "base58_monero"), Ok(vec![1u8]));
    assert_eq!(
        decode_string("1111111111112", "base58_monero"),
        Ok(vec![0, 0, 0, 0, 0, 0, 0, 0, 1])
    );
}
