use scream::encoder::classify;
use scream::encoder::decode;
use scream::encoder::encode;
use scream::encoder::Bech32Fault;
use scream::encoder::EncodingError;
use scream::encoder::NoteFault;
use scream::encoder::IDENTIFIER_LEN;

const CHARSET: &str = "qpzry9x8gf2tvdw0s3jn54khce6mua7l";

fn hex(text: &str) -> Vec<u8> {
    (0..text.len() / 2)
        .map(|i| u8::from_str_radix(&text[2 * i..2 * i + 2], 16).unwrap())
        .collect()
}

fn sample_id() -> Vec<u8> {
    hex("d94a3f4dd87b9a3b0bed183b32e916fa29c8020107845d1752d72697fe5309a5")
}

#[test]
fn encode_gives_the_known_text() {
    assert_eq!(
        encode(&sample_id()),
        Ok("note1m99r7nwc0wdrkzldrqan96gklg5usqspq7z9696j6unf0ljnpxjspqfw99".to_string())
    );
}

#[test]
fn encode_all_zero_and_all_one_bytes() {
    assert_eq!(
        encode(&vec![0u8; 32]),
        Ok("note1qqqqqqqqqqqqqqqqqqqqqqqqqqqqqqqqqqqqqqqqqqqqqqqqqqqqn2l0z3".to_string())
    );
    assert_eq!(
        encode(&vec![0xffu8; 32]),
        Ok("note1llllllllllllllllllllllllllllllllllllllllllllllllllls35u7tx".to_string())
    );
}

#[test]
fn encode_is_not_the_identity_on_its_input() {
    let id = sample_id();
    let text = encode(&id).unwrap();
    assert_ne!(text.as_bytes(), id.as_slice());
    assert_ne!(text, "d94a3f4dd87b9a3b0bed183b32e916fa29c8020107845d1752d72697fe5309a5");
    assert!(text.starts_with("note1"));
    assert_eq!(text.len(), 63);
}

#[test]
fn encode_refuses_identifiers_of_the_wrong_length() {
    assert_eq!(IDENTIFIER_LEN, 32);
    assert_eq!(encode(&vec![]), Err(EncodingError::MalformedInput));
    assert_eq!(encode(&vec![7u8; 31]), Err(EncodingError::MalformedInput));
    assert_eq!(encode(&vec![7u8; 33]), Err(EncodingError::MalformedInput));
}

#[test]
fn decode_reads_the_known_text() {
    assert_eq!(
        decode("note1m99r7nwc0wdrkzldrqan96gklg5usqspq7z9696j6unf0ljnpxjspqfw99"),
        Ok(sample_id())
    );
}

#[test]
fn decode_accepts_an_upper_case_text() {
    assert_eq!(
        decode("NOTE1M99R7NWC0WDRKZLDRQAN96GKLG5USQSPQ7Z9696J6UNF0LJNPXJSPQFW99"),
        Ok(sample_id())
    );
}

#[test]
fn decode_inverts_encode() {
    let mut id = vec![0u8; 32];
    for round in 0..64u32 {
        for (i, byte) in id.iter_mut().enumerate() {
            *byte = (round.wrapping_mul(37) as u8) ^ ((i as u8).wrapping_mul(11)).rotate_left(round % 8);
        }
        let text = encode(&id).unwrap();
        assert_eq!(decode(&text), Ok(id.clone()));
    }
}

#[test]
fn encode_is_deterministic() {
    assert_eq!(encode(&sample_id()), encode(&sample_id()));
}

#[test]
fn decode_reports_a_changed_character_as_checksum_mismatch() {
    assert_eq!(
        decode("note1m99r7nwc0wdrkzldrqan96gklg5usqspq7z9696j6unf0ljnpxjspqfw9q"),
        Err(EncodingError::ChecksumMismatch)
    );
    assert_eq!(
        decode("note1q99r7nwc0wdrkzldrqan96gklg5usqspq7z9696j6unf0ljnpxjspqfw99"),
        Err(EncodingError::ChecksumMismatch)
    );
}

#[test]
fn decode_fails_on_every_single_bit_corruption() {
    let text = encode(&sample_id()).unwrap();
    let bytes = text.as_bytes();
    let mut checksum_errors = 0;
    let mut malformed = 0;
    for i in 0..bytes.len() {
        for bit in 0..7 {
            let mut changed = bytes.to_vec();
            changed[i] ^= 1 << bit;
            let changed_char = changed[i] as char;
            let changed_text = String::from_utf8(changed).unwrap();
            let got = decode(&changed_text);
            assert!(got.is_err(), "{} was accepted", changed_text);
            if i >= 5 && CHARSET.contains(changed_char) {
                assert_eq!(got, Err(EncodingError::ChecksumMismatch), "{}", changed_text);
            }
            match got {
                Err(EncodingError::ChecksumMismatch) => checksum_errors += 1,
                Err(EncodingError::MalformedInput) => malformed += 1,
                Ok(_) => unreachable!(),
            }
        }
    }
    assert!(checksum_errors > 0);
    assert!(malformed > 0);
    assert_eq!(checksum_errors + malformed, 63 * 7);
}

#[test]
fn a_bit_flip_that_changes_the_case_is_malformed_not_a_checksum_error() {
    // 'm' with bit 5 flipped is 'M': the text then mixes cases.
    assert_eq!(
        decode("note1M99r7nwc0wdrkzldrqan96gklg5usqspq7z9696j6unf0ljnpxjspqfw99"),
        Err(EncodingError::MalformedInput)
    );
}

#[test]
fn decode_reports_malformed_texts() {
    assert_eq!(decode(""), Err(EncodingError::MalformedInput));
    assert_eq!(decode("note"), Err(EncodingError::MalformedInput));
    assert_eq!(decode("hello world"), Err(EncodingError::MalformedInput));
    assert_eq!(decode("note1"), Err(EncodingError::MalformedInput));
    assert_eq!(
        decode("note1b99r7nwc0wdrkzldrqan96gklg5usqspq7z9696j6unf0ljnpxjspqfw99"),
        Err(EncodingError::MalformedInput)
    );
    assert_eq!(
        decode("d94a3f4dd87b9a3b0bed283b32e926fa29c8020207845d2752d72697fe5309a5"),
        Err(EncodingError::MalformedInput)
    );
}

#[test]
fn decode_takes_the_last_one_as_the_separator() {
    // A hex identifier that holds a '1' splits there, and what follows
    // happens to be in the character set: the checksum is what fails.
    assert_eq!(
        decode("d94a3f4dd87b9a3b0bed183b32e916fa29c8020107845d1752d72697fe5309a5"),
        Err(EncodingError::ChecksumMismatch)
    );
}

#[test]
fn decode_refuses_a_valid_text_of_another_kind() {
    assert_eq!(
        decode("npub14f8usejl26twx0dhuxjh9cas7keav9vr0v8nvtwtrjqx3vycc76qqh9nsy"),
        Err(EncodingError::MalformedInput)
    );
}

#[test]
fn decode_refuses_a_valid_text_whose_payload_is_no_identifier() {
    // Well-formed, correctly checksummed texts that carry 31, 33 and 0 bytes.
    assert_eq!(
        decode("note1m99r7nwc0wdrkzldrqan96gklg5usqspq7z9696j6unf0ljnpyjcmsly"),
        Err(EncodingError::MalformedInput)
    );
    assert_eq!(
        decode("note1m99r7nwc0wdrkzldrqan96gklg5usqspq7z9696j6unf0ljnpxjsqal6sen"),
        Err(EncodingError::MalformedInput)
    );
    assert_eq!(decode("note1kfrvap"), Err(EncodingError::MalformedInput));
}

#[test]
fn decode_refuses_the_other_checksum_variant() {
    assert_eq!(
        decode("note1m99r7nwc0wdrkzldrqan96gklg5usqspq7z9696j6unf0ljnpxjs5uezq8"),
        Err(EncodingError::MalformedInput)
    );
}

#[test]
fn decode_refuses_another_prefix() {
    assert_eq!(
        decode("nevent1m99r7nwc0wdrkzldrqan96gklg5usqspq7z9696j6unf0ljnpxjsppy94l"),
        Err(EncodingError::MalformedInput)
    );
}

#[test]
fn classify_maps_each_fault() {
    let readings = [
        None,
        Some(Bech32Fault::MissingSeparator),
        Some(Bech32Fault::InvalidChecksum),
        Some(Bech32Fault::InvalidLength),
        Some(Bech32Fault::InvalidChar),
        Some(Bech32Fault::InvalidData),
        Some(Bech32Fault::InvalidPadding),
        Some(Bech32Fault::MixedCase),
    ];
    let faults = [
        NoteFault::Bech32,
        NoteFault::Utf8,
        NoteFault::Secp256k1,
        NoteFault::Hash,
        NoteFault::EventId,
        NoteFault::WrongPrefixOrVariant,
        NoteFault::FieldMissing,
        NoteFault::Tlv,
        NoteFault::TryFromSlice,
    ];
    for fault in faults {
        for reading in readings {
            let expected = if fault == NoteFault::Bech32
                && reading == Some(Bech32Fault::InvalidChecksum)
            {
                EncodingError::ChecksumMismatch
            } else {
                EncodingError::MalformedInput
            };
            assert_eq!(classify(fault, reading), expected);
        }
    }
}

#[test]
fn encode_succeeds_on_every_identifier_of_the_right_length() {
    let mut id = vec![0u8; 32];
    for round in 0..=255u8 {
        for (i, byte) in id.iter_mut().enumerate() {
            *byte = round.wrapping_add((i as u8).wrapping_mul(29));
        }
        assert!(encode(&id).is_ok());
    }
}
