use ssb_crypto::{Keypair, NetworkKey, PublicKey};
use ssb_feed_validator::signature::{check_shape, verify};
use ssb_feed_validator::{verify_messages, HmacKey, KeyFormatError, Phase, SignatureError, ValidationError};
use ssb_legacy_msg_data::json::{from_slice, to_string};
use ssb_legacy_msg_data::value::Value;
use ssb_validate::test_data::{MESSAGE_VALUE_1, MESSAGE_VALUE_2, MESSAGE_VALUE_3};

const KEY_1: &str = "%/v5mCnV/kmnVtnF3zXtD4tbzoEQo4kRq/0d/bgxP1WI=.sha256";
const KEY_2: &str = "%kLWDux4wCG+OdQWAHnpBGzGlCehqMLfgLbzlKCvgesU=.sha256";
const KEY_3: &str = "%VhHgLpaLfY/2/g4+WEhKv5DdXM1V1PCVW1u2kbkvTbY=.sha256";
const MAC_BASE64: &str = "CbwuwYXmZgN7ZSuycCXoKGOTU1dGwBex+paeA2kr37U=";
const UNDECODABLE: &str = "unable to convert invalid message bytes to string slice; not valid utf8";

// A message value signed for the key above, from the test suite of `ssb_verify_signatures`.
const MAC_SIGNED: &str = r##"{
  "previous": null,
  "sequence": 1,
  "author": "@EnPSnV1HZdyE7pcKxqukyhmnwE9076RtAlYclaUMX5g=.ed25519",
  "timestamp": 1624360181359,
  "hash": "sha256",
  "content": {
    "type": "example"
  },
  "signature": "w670wqnD1A5blFaYxDiIhPOTwz8I7syVx30jac1feQK/OywHFfrcLVw2S1KmxK9GzWxvKxLMle/jKjf2+pHtAg==.sig.ed25519"
}"##;

fn no_key() -> HmacKey {
    HmacKey::Str("none".to_string())
}

fn real_feed() -> Vec<Vec<u8>> {
    vec![
        MESSAGE_VALUE_1.as_bytes().to_vec(),
        MESSAGE_VALUE_2.as_bytes().to_vec(),
        MESSAGE_VALUE_3.as_bytes().to_vec(),
    ]
}

fn keypair(seed: u8) -> Keypair {
    Keypair::from_seed(&[seed; 32]).unwrap()
}

fn unsigned(kp: &Keypair, previous: Option<&str>, sequence: u64, text: &str) -> String {
    let previous = match previous {
        Some(key) => format!("\"{}\"", key),
        None => "null".to_string(),
    };
    format!(
        "{{\n  \"previous\": {},\n  \"author\": \"@{}.ed25519\",\n  \"sequence\": {},\n  \"timestamp\": {},\n  \"hash\": \"sha256\",\n  \"content\": {{\n    \"type\": \"post\",\n    \"text\": \"{}\"\n  }}\n}}",
        previous,
        kp.public.as_base64(),
        sequence,
        1470186877575u64 + sequence,
        text
    )
}

fn sign(kp: &Keypair, unsigned: &str, mac: Option<&[u8]>) -> Vec<u8> {
    let value: Value = from_slice(unsigned.as_bytes()).unwrap();
    let encoded = to_string(&value, false).unwrap();
    let signature = match mac {
        None => kp.sign(encoded.as_bytes()),
        Some(key) => {
            let tag = NetworkKey::from_slice(key).unwrap().authenticate(encoded.as_bytes());
            kp.sign(&tag.0)
        }
    };
    let body = unsigned.strip_suffix("\n}").unwrap();
    format!("{},\n  \"signature\": \"{}.sig.ed25519\"\n}}", body, signature.as_base64()).into_bytes()
}

fn text(msg: &[u8]) -> String {
    String::from_utf8(msg.to_vec()).unwrap()
}

#[test]
fn signatures_of_a_real_feed_verify() {
    assert_eq!(
        verify_messages(no_key(), real_feed()),
        Ok(vec![KEY_1.to_string(), KEY_2.to_string(), KEY_3.to_string()])
    );
}

#[test]
fn signatures_are_checked_without_regard_to_the_chain() {
    let msgs = vec![MESSAGE_VALUE_3.as_bytes().to_vec(), MESSAGE_VALUE_1.as_bytes().to_vec()];
    assert_eq!(verify_messages(no_key(), msgs), Ok(vec![KEY_3.to_string(), KEY_1.to_string()]));
}

#[test]
fn empty_batch_verifies_to_no_keys() {
    assert_eq!(verify_messages(no_key(), Vec::new()), Ok(Vec::new()));
}

#[test]
fn refused_key_ends_the_call() {
    assert_eq!(
        verify_messages(HmacKey::Buf(vec![0u8; 31]), real_feed()),
        Err(ValidationError::KeyFormat(KeyFormatError::ByteLength))
    );
    assert_eq!(
        verify_messages(HmacKey::Str("nonsense".to_string()), real_feed()),
        Err(ValidationError::KeyFormat(KeyFormatError::NotBase64))
    );
}

#[test]
fn refused_key_is_reported_in_its_own_words() {
    let e = verify_messages(HmacKey::Buf(vec![0u8; 33]), Vec::new()).unwrap_err();
    assert_eq!(e.message(), "hmac key invalid: byte length must equal 32");
    let e = verify_messages(HmacKey::Str("x".to_string()), Vec::new()).unwrap_err();
    assert_eq!(e.message(), "hmac key invalid: string must be base64 encoded");
}

#[test]
fn generated_message_verifies() {
    let kp = keypair(1);
    let msg = sign(&kp, &unsigned(&kp, None, 1, "hello"), None);
    assert_eq!(verify(&msg, &None), Ok(()));
    assert!(verify_messages(no_key(), vec![msg]).is_ok());
}

#[test]
fn flipping_a_bit_of_the_content_breaks_the_signature() {
    let kp = keypair(1);
    let msg = sign(&kp, &unsigned(&kp, None, 1, "hello"), None);
    let at = text(&msg).find("hello").unwrap();
    let mut tampered = msg.clone();
    tampered[at] ^= 0x01;
    assert_eq!(
        verify(&tampered, &None),
        Err(SignatureError { detail: "Signature was invalid".to_string() })
    );
    let e = verify_messages(no_key(), vec![tampered.clone()]).unwrap_err();
    assert_eq!(
        e,
        ValidationError::Signature {
            error: SignatureError { detail: "Signature was invalid".to_string() },
            offender: 0,
            content: text(&tampered),
        }
    );
}

#[test]
fn flipping_a_bit_of_any_signed_field_breaks_the_signature() {
    let kp = keypair(2);
    let previous = KEY_1;
    let msg = sign(&kp, &unsigned(&kp, Some(previous), 5, "field"), None);
    let source = text(&msg);
    // the sequence number, the timestamp, the previous key, the content type
    for needle in ["5,", "1470186877580", "v5mCnV", "post"] {
        let at = source.find(needle).unwrap();
        let mut tampered = msg.clone();
        tampered[at] ^= 0x01;
        let r = verify_messages(no_key(), vec![tampered]);
        assert!(matches!(r, Err(ValidationError::Signature { offender: 0, .. })), "{}", needle);
    }
}

#[test]
fn changing_previous_without_signing_again_breaks_the_signature() {
    let kp = keypair(2);
    let msg = sign(&kp, &unsigned(&kp, Some(KEY_1), 2, "linked"), None);
    let tampered = text(&msg).replace(KEY_1, KEY_2).into_bytes();
    assert_ne!(tampered, msg);
    let r = verify_messages(no_key(), vec![tampered]);
    assert!(matches!(r, Err(ValidationError::Signature { .. })));
}

#[test]
fn flipping_a_bit_of_the_signature_breaks_it() {
    let mut tampered = MESSAGE_VALUE_1.as_bytes().to_vec();
    let at = MESSAGE_VALUE_1.find("QJKWui3oyK6r").unwrap();
    tampered[at + 3] = b'X';
    let r = verify_messages(no_key(), vec![tampered]);
    assert!(matches!(r, Err(ValidationError::Signature { .. })));
}

#[test]
fn offender_is_the_corrupted_message_not_a_neighbour() {
    let kp = keypair(3);
    let mut msgs: Vec<Vec<u8>> = Vec::new();
    for n in 1..=7u64 {
        msgs.push(sign(&kp, &unsigned(&kp, None, n, &format!("message {}", n)), None));
    }
    for k in 0..msgs.len() {
        let mut batch = msgs.clone();
        let at = text(&batch[k]).find("message").unwrap();
        batch[k][at] = b'M';
        let quoted = text(&batch[k]);
        let e = verify_messages(no_key(), batch).unwrap_err();
        match &e {
            ValidationError::Signature { error, offender, content } => {
                assert_eq!(*offender, k);
                assert_eq!(content, &quoted);
                assert_eq!(error.detail, "Signature was invalid");
            }
            other => panic!("{:?}", other),
        }
        assert_eq!(e.message(), format!("found invalid message: Signature was invalid: {}", quoted));
        assert!(e.message().contains(&format!("Message {}", k + 1)));
    }
}

#[test]
fn first_of_two_corrupted_messages_is_reported() {
    let kp = keypair(3);
    let mut batch: Vec<Vec<u8>> = Vec::new();
    for n in 1..=5u64 {
        batch.push(sign(&kp, &unsigned(&kp, None, n, &format!("message {}", n)), None));
    }
    for k in [1usize, 3] {
        let at = text(&batch[k]).find("message").unwrap();
        batch[k][at] = b'M';
    }
    let r = verify_messages(no_key(), batch);
    assert!(matches!(r, Err(ValidationError::Signature { offender: 1, .. })));
}

#[test]
fn large_batch_spans_several_chunks() {
    let kp = keypair(4);
    let mut batch: Vec<Vec<u8>> = Vec::new();
    for n in 1..=120u64 {
        batch.push(sign(&kp, &unsigned(&kp, None, n, "bulk"), None));
    }
    assert_eq!(verify_messages(no_key(), batch.clone()).unwrap().len(), 120);
    let at = text(&batch[101]).find("bulk").unwrap();
    batch[101][at] = b'B';
    let r = verify_messages(no_key(), batch);
    assert!(matches!(r, Err(ValidationError::Signature { offender: 101, .. })));
}

#[test]
fn keyed_message_verifies_under_its_key_only() {
    let keyed = vec![MAC_SIGNED.as_bytes().to_vec()];
    assert!(verify_messages(HmacKey::Str(MAC_BASE64.to_string()), keyed.clone()).is_ok());
    assert!(matches!(
        verify_messages(no_key(), keyed.clone()),
        Err(ValidationError::Signature { offender: 0, .. })
    ));
    assert!(matches!(
        verify_messages(HmacKey::Buf(vec![9u8; 32]), keyed),
        Err(ValidationError::Signature { offender: 0, .. })
    ));
}

#[test]
fn key_as_buffer_and_as_string_verify_alike() {
    let key: Vec<u8> = (100u8..132).collect();
    let kp = keypair(5);
    let msg = sign(&kp, &unsigned(&kp, None, 1, "keyed"), Some(&key));
    // Any 32 bytes have a base64 form; the public-key type renders one.
    let as_string = PublicKey::from_slice(&key).unwrap().as_base64();
    let from_buffer = verify_messages(HmacKey::Buf(key.clone()), vec![msg.clone()]);
    let from_string = verify_messages(HmacKey::Str(as_string), vec![msg.clone()]);
    assert!(from_buffer.is_ok());
    assert_eq!(from_buffer, from_string);
    assert_eq!(verify(&msg, &Some(key)), Ok(()));
    assert!(verify(&msg, &None).is_err());
}

#[test]
fn unkeyed_message_fails_under_a_key() {
    let r = verify_messages(HmacKey::Str(MAC_BASE64.to_string()), real_feed());
    assert!(matches!(r, Err(ValidationError::Signature { offender: 0, .. })));
}

#[test]
fn key_of_wrong_length_is_refused_by_the_verifier() {
    let r = verify(MESSAGE_VALUE_1.as_bytes(), &Some(vec![1u8; 5]));
    assert_eq!(
        r,
        Err(SignatureError { detail: "The length of the hmac key was not 32 bytes.".to_string() })
    );
}

#[test]
fn message_that_is_not_text_is_reported_with_the_fixed_diagnostic() {
    let bad = vec![b'{', 0xff, 0xfe, b'}'];
    let e = verify_messages(no_key(), vec![MESSAGE_VALUE_1.as_bytes().to_vec(), bad]).unwrap_err();
    assert_eq!(
        e,
        ValidationError::Signature {
            error: SignatureError { detail: "Message bytes are not valid utf8".to_string() },
            offender: 1,
            content: UNDECODABLE.to_string(),
        }
    );
    assert_eq!(
        e.message(),
        format!("found invalid message: Message bytes are not valid utf8: {}", UNDECODABLE)
    );
}

#[test]
fn irregular_signature_is_an_error_not_a_crash() {
    let irregular = format!("{}/w", "A".repeat(84));
    let at = MESSAGE_VALUE_1.find("QJKWui3oyK6r").unwrap();
    let forged = format!("{}{}{}", &MESSAGE_VALUE_1[..at], irregular, &MESSAGE_VALUE_1[at + 86..]);
    assert!(forged.ends_with("==.sig.ed25519\"\n}"));
    let e = verify_messages(no_key(), vec![forged.clone().into_bytes()]).unwrap_err();
    assert_eq!(
        e,
        ValidationError::Signature {
            error: SignatureError {
                detail: "Signature string does not encode a canonical ed25519 signature".to_string()
            },
            offender: 0,
            content: forged.clone(),
        }
    );
    assert!(verify(forged.as_bytes(), &None).is_err());
}

#[test]
fn message_that_is_not_json_is_refused() {
    let r = verify_messages(no_key(), vec![b"not a message".to_vec()]);
    match r {
        Err(ValidationError::Signature { error, offender, content }) => {
            assert_eq!(offender, 0);
            assert_eq!(content, "not a message");
            assert!(error.detail.starts_with("Error parsing ssb message"));
        }
        other => panic!("{:?}", other),
    }
}

#[test]
fn malformed_author_is_refused() {
    let broken = MESSAGE_VALUE_1.replace("@U5GvOKP", "U5GvOKPX");
    let r = verify(broken.as_bytes(), &None);
    assert_eq!(
        r,
        Err(SignatureError {
            detail: "The author pub key was not a valid ssb ed25519 pub key string.".to_string()
        })
    );
}

#[test]
fn shape_of_a_message() {
    assert_eq!(check_shape(MESSAGE_VALUE_1.as_bytes()), None);
    assert_eq!(check_shape(b""), None);
    assert_eq!(check_shape(&[0xc3]), Some("Message bytes are not valid utf8".to_string()));
    // An overlong encoding and a surrogate are not UTF-8.
    assert!(check_shape(&[0xc0, 0x80]).is_some());
    assert!(check_shape(&[0xed, 0xa0, 0x80]).is_some());
}

#[test]
fn unattributed_failure_has_its_own_words() {
    let e = ValidationError::AggregateAttribution {
        phase: Phase::Signature,
        cause: "Signature was invalid".to_string(),
    };
    assert_eq!(
        e.message(),
        "found invalid message: Signature was invalid: parallel verification failed but no single invalid message was found"
    );
    let e = ValidationError::AggregateAttribution {
        phase: Phase::Chain,
        cause: "The sequence must increase by one".to_string(),
    };
    assert_eq!(
        e.message(),
        "found invalid message: The sequence must increase by one: parallel validation failed but no single invalid message was found"
    );
}

#[test]
fn irregular_token_in_the_content_does_no_harm() {
    let kp = keypair(6);
    let quoted = format!("see {}/w==.sig.ed25519", "A".repeat(84));
    let msg = sign(&kp, &unsigned(&kp, None, 1, &quoted), None);
    assert_eq!(check_shape(&msg), None);
    assert_eq!(verify(&msg, &None), Ok(()));
    assert_eq!(
        verify_messages(no_key(), vec![msg.clone()]),
        Ok(vec![ssb_feed_validator::derive_key(&msg)])
    );
}

#[test]
fn corrupted_message_behind_one_that_quotes_an_irregular_token() {
    let kp = keypair(6);
    let quoted = format!("see {}/w==.sig.ed25519", "A".repeat(84));
    let first = sign(&kp, &unsigned(&kp, None, 1, &quoted), None);
    let mut second = sign(&kp, &unsigned(&kp, None, 2, "plain"), None);
    let at = text(&second).find("plain").unwrap();
    second[at] = b'P';
    let r = verify_messages(no_key(), vec![first, second.clone()]);
    assert_eq!(
        r,
        Err(ValidationError::Signature {
            error: SignatureError { detail: "Signature was invalid".to_string() },
            offender: 1,
            content: text(&second),
        })
    );
}

#[test]
fn second_token_in_the_signature_field_is_not_read() {
    let kp = keypair(6);
    let msg = sign(&kp, &unsigned(&kp, None, 1, "twice"), None);
    let trailing = format!(".sig.ed25519 {}/w==.sig.ed25519\"", "A".repeat(84));
    let doubled = text(&msg).replace(".sig.ed25519\"", &trailing).into_bytes();
    assert_ne!(doubled, msg);
    assert_eq!(check_shape(&doubled), None);
    assert_eq!(verify(&doubled, &None), Ok(()));
}

#[test]
fn earlier_bad_signature_is_blamed_before_a_later_fault_of_shape() {
    let kp = keypair(6);
    let mut first = sign(&kp, &unsigned(&kp, None, 1, "plain"), None);
    let at = text(&first).find("plain").unwrap();
    first[at] = b'P';
    let r = verify_messages(no_key(), vec![first.clone(), vec![0xff, 0xfe]]);
    assert_eq!(
        r,
        Err(ValidationError::Signature {
            error: SignatureError { detail: "Signature was invalid".to_string() },
            offender: 0,
            content: text(&first),
        })
    );
}

#[test]
fn fault_of_shape_is_blamed_before_a_later_bad_signature() {
    let kp = keypair(6);
    let good = sign(&kp, &unsigned(&kp, None, 1, "good"), None);
    let mut bad = sign(&kp, &unsigned(&kp, None, 2, "plain"), None);
    let at = text(&bad).find("plain").unwrap();
    bad[at] = b'P';
    let r = verify_messages(no_key(), vec![good, vec![0xff], bad]);
    assert!(matches!(r, Err(ValidationError::Signature { offender: 1, .. })));
    assert_eq!(r.unwrap_err().message(), format!("found invalid message: Message bytes are not valid utf8: {}", UNDECODABLE));
}

#[test]
fn batch_of_one_fails_as_the_single_message_does() {
    let kp = keypair(6);
    let mut bad = sign(&kp, &unsigned(&kp, None, 1, "plain"), None);
    let at = text(&bad).find("plain").unwrap();
    bad[at] = b'P';
    let single = ssb_feed_validator::verify_validate_message(no_key(), bad.clone(), None);
    let batch = ssb_feed_validator::verify_validate_messages(no_key(), vec![bad], None);
    assert_eq!(single.unwrap_err(), batch.unwrap_err());
}

#[test]
fn permuted_batch_verifies_as_the_batch_does() {
    let feed = real_feed();
    let permuted = vec![feed[2].clone(), feed[0].clone(), feed[1].clone()];
    assert!(verify_messages(no_key(), feed).is_ok());
    assert_eq!(
        verify_messages(no_key(), permuted),
        Ok(vec![KEY_3.to_string(), KEY_1.to_string(), KEY_2.to_string()])
    );
}

#[test]
fn message_that_is_an_array_is_an_error_not_a_crash() {
    let array = format!(
        "[\"{}w==.sig.ed25519\", \"@U5GvOKP/YUza9k53DSXxT0mk3PIrnyAmessvNfZl5E0=.ed25519\"]",
        "/".repeat(85)
    );
    let refused = SignatureError { detail: "Message is not a JSON object".to_string() };
    assert_eq!(check_shape(array.as_bytes()), Some(refused.detail.clone()));
    assert_eq!(verify(array.as_bytes(), &None), Err(refused.clone()));
    assert_eq!(
        verify_messages(no_key(), vec![MESSAGE_VALUE_1.as_bytes().to_vec(), array.clone().into_bytes()]),
        Err(ValidationError::Signature { error: refused.clone(), offender: 1, content: array.clone() })
    );
    assert_eq!(
        ssb_feed_validator::verify_validate_message(no_key(), array.clone().into_bytes(), None),
        Err(ValidationError::Signature { error: refused, offender: 0, content: array })
    );
}

#[test]
fn message_that_is_no_object_is_refused() {
    for text in ["[]", "[1, 2]", "\"text\"", "5", "null", "true", " [\"a\", \"b\"] "] {
        assert_eq!(
            verify(text.as_bytes(), &None),
            Err(SignatureError { detail: "Message is not a JSON object".to_string() }),
            "{}",
            text
        );
    }
    assert_eq!(check_shape(b"{}"), None);
    assert_eq!(check_shape(b"{\"signature\": 5}"), None);
    assert_eq!(check_shape(b"[1"), None);
}

#[test]
fn accepted_batch_holds_only_signatures_that_verify_alone() {
    let kp = keypair(6);
    let mut batch: Vec<Vec<u8>> = Vec::new();
    for n in 1..=60u64 {
        batch.push(sign(&kp, &unsigned(&kp, None, n, "alone"), None));
    }
    assert!(verify_messages(no_key(), batch.clone()).is_ok());
    for msg in &batch {
        assert_eq!(verify(msg, &None), Ok(()));
    }
}
