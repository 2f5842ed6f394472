use account_state::pubkey::{ParsePubkeyError, PubkeyError, PUBKEY_BYTES};
use account_state::Pubkey;

#[test]
fn test_pubkey_new_unique() {
    assert!(Pubkey::new_unique() != Pubkey::new_unique());
}

#[test]
fn test_pubkey_from_str() {
    let pubkey = Pubkey::new_unique();
    let mut pubkey_base58_str = bs58::encode(pubkey.to_bytes()).into_string();

    assert_eq!(pubkey_base58_str.parse::<Pubkey>(), Ok(pubkey));

    pubkey_base58_str.push_str(&bs58::encode(pubkey.to_bytes()).into_string());
    assert_eq!(
        pubkey_base58_str.parse::<Pubkey>(),
        Err(ParsePubkeyError::WrongSize)
    );

    pubkey_base58_str.truncate(pubkey_base58_str.len() / 2);
    assert_eq!(pubkey_base58_str.parse::<Pubkey>(), Ok(pubkey));

    pubkey_base58_str.truncate(pubkey_base58_str.len() / 2);
    assert_eq!(
        pubkey_base58_str.parse::<Pubkey>(),
        Err(ParsePubkeyError::WrongSize)
    );

    let mut pubkey_base58_str = bs58::encode(pubkey.to_bytes()).into_string();
    assert_eq!(pubkey_base58_str.parse::<Pubkey>(), Ok(pubkey));

    // throw some non-base58 stuff in there
    pubkey_base58_str.replace_range(..1, "I");
    assert_eq!(
        pubkey_base58_str.parse::<Pubkey>(),
        Err(ParsePubkeyError::Invalid)
    );

    // too long input string
    // longest valid encoding
    let mut too_long = bs58::encode(&[255u8; PUBKEY_BYTES]).into_string();
    // and one to grow on
    too_long.push('1');
    assert_eq!(too_long.parse::<Pubkey>(), Err(ParsePubkeyError::WrongSize));
}

#[test]
fn base58_text_round_trips() {
    let key = Pubkey::new_from_array([7u8; 32]);
    let text = key.to_base58_string();
    assert_eq!(text, bs58::encode([7u8; 32]).into_string());
    assert_ne!(text.len(), 0);
    assert_eq!(Pubkey::from_base58_str(&text), Ok(key));
}

#[test]
fn decoded_bytes_of_wrong_length_are_refused() {
    assert_eq!(
        Pubkey::from_base58_decoded(Some(vec![1u8; 31])),
        Err(ParsePubkeyError::WrongSize)
    );
    assert_eq!(
        Pubkey::from_base58_decoded(None),
        Err(ParsePubkeyError::Invalid)
    );
    assert_eq!(
        Pubkey::from_base58_decoded(Some(vec![3u8; 32])),
        Ok(Pubkey::new_from_array([3u8; 32]))
    );
}

#[test]
fn key_from_slice_keeps_bytes() {
    let mut bytes = [0u8; 32];
    for (i, b) in bytes.iter_mut().enumerate() {
        *b = i as u8;
    }
    let key = Pubkey::new(&bytes);
    assert_eq!(key.to_bytes(), bytes);
    assert_eq!(key.as_slice(), &bytes[..]);
    assert_eq!(Pubkey::from(bytes), key);
}

#[test]
fn pubkey_error_codes() {
    assert_eq!(PubkeyError::from_code(0), PubkeyError::MaxSeedLengthExceeded);
    assert_eq!(PubkeyError::from_code(1), PubkeyError::InvalidSeeds);
    assert_eq!(ParsePubkeyError::Invalid.message(), "Invalid Base58 string");
}
