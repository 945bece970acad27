use ssb_feed_validator::{is_valid_hmac_key, HmacKey, KeyFormatError};

const KEY_BASE64: &str = "CbwuwYXmZgN7ZSuycCXoKGOTU1dGwBex+paeA2kr37U=";

const KEY_BYTES: [u8; 32] = [
    0x09, 0xbc, 0x2e, 0xc1, 0x85, 0xe6, 0x66, 0x03, 0x7b, 0x65, 0x2b, 0xb2, 0x70, 0x25, 0xe8, 0x28,
    0x63, 0x93, 0x53, 0x57, 0x46, 0xc0, 0x17, 0xb1, 0xfa, 0x96, 0x9e, 0x03, 0x69, 0x2b, 0xdf, 0xb5,
];

#[test]
fn sentinel_string_means_no_key() {
    assert_eq!(is_valid_hmac_key(HmacKey::Str("none".to_string())), Ok(None));
}

#[test]
fn buffer_of_32_bytes_is_accepted_unchanged() {
    let bytes: Vec<u8> = (0u8..32).collect();
    assert_eq!(is_valid_hmac_key(HmacKey::Buf(bytes.clone())), Ok(Some(bytes)));
}

#[test]
fn buffer_of_31_bytes_is_rejected() {
    assert_eq!(is_valid_hmac_key(HmacKey::Buf(vec![7u8; 31])), Err(KeyFormatError::ByteLength));
}

#[test]
fn buffer_of_33_bytes_is_rejected() {
    assert_eq!(is_valid_hmac_key(HmacKey::Buf(vec![7u8; 33])), Err(KeyFormatError::ByteLength));
}

#[test]
fn empty_buffer_is_rejected() {
    assert_eq!(is_valid_hmac_key(HmacKey::Buf(Vec::new())), Err(KeyFormatError::ByteLength));
}

#[test]
fn base64_string_decodes_to_its_32_bytes() {
    assert_eq!(
        is_valid_hmac_key(HmacKey::Str(KEY_BASE64.to_string())),
        Ok(Some(KEY_BYTES.to_vec()))
    );
}

#[test]
fn buffer_and_its_base64_form_give_the_same_key() {
    let from_buffer = is_valid_hmac_key(HmacKey::Buf(KEY_BYTES.to_vec()));
    let from_string = is_valid_hmac_key(HmacKey::Str(KEY_BASE64.to_string()));
    assert_eq!(from_buffer, from_string);
    assert_eq!(from_buffer, Ok(Some(KEY_BYTES.to_vec())));
}

#[test]
fn string_that_is_not_base64_is_rejected() {
    assert_eq!(
        is_valid_hmac_key(HmacKey::Str("not a key at all".to_string())),
        Err(KeyFormatError::NotBase64)
    );
}

#[test]
fn base64_of_another_length_is_rejected() {
    // 20 characters: valid base64, but of 15 bytes.
    assert_eq!(
        is_valid_hmac_key(HmacKey::Str("OTU1dGwBexpaeA2kr37U".to_string())),
        Err(KeyFormatError::NotBase64)
    );
}

#[test]
fn base64_without_padding_is_rejected() {
    let unpadded = KEY_BASE64.trim_end_matches('=').to_string();
    assert_eq!(is_valid_hmac_key(HmacKey::Str(unpadded)), Err(KeyFormatError::NotBase64));
}

#[test]
fn empty_string_is_rejected() {
    assert_eq!(is_valid_hmac_key(HmacKey::Str(String::new())), Err(KeyFormatError::NotBase64));
}

#[test]
fn sentinel_is_case_sensitive() {
    assert_eq!(
        is_valid_hmac_key(HmacKey::Str("None".to_string())),
        Err(KeyFormatError::NotBase64)
    );
}

#[test]
fn key_errors_render_their_texts() {
    assert_eq!(
        KeyFormatError::ByteLength.message(),
        "hmac key invalid: byte length must equal 32"
    );
    assert_eq!(
        KeyFormatError::NotBase64.message(),
        "hmac key invalid: string must be base64 encoded"
    );
}
