use content_integrity::codec::{decode, encode};
use content_integrity::hash::ParseError;

fn hex(bytes: &[u8]) -> String {
    let mut out = String::new();
    for b in bytes {
        out.push_str(&format!("{:02x}", b));
    }
    out
}

#[test]
fn test_hash() {
    let data = b"hello world";
    let hash = content_integrity::hash::Hash::new(data);

    let encoded = hash.to_string();
    assert_eq!(encoded.parse::<content_integrity::hash::Hash>().unwrap(), hash);
}

#[test]
fn hash_of_empty_input_is_the_known_digest() {
    let hash = content_integrity::hash::Hash::new(b"");
    assert_eq!(
        hex(hash.as_bytes()),
        "af1349b9f5f9a1a6a0404dea36dcc9499bcb25c9adc112b7cc9a93cae41f3262"
    );
}

#[test]
fn hash_is_the_digest_of_the_bytes() {
    let data = b"hello world";
    let hash = content_integrity::hash::Hash::new(data);
    assert_eq!(hash.as_bytes(), blake3::hash(data).as_bytes());
    assert_ne!(&hash.as_bytes()[..11], &data[..]);
    assert_ne!(hash, content_integrity::hash::Hash::new(b"hello worle"));
    assert_eq!(hash, content_integrity::hash::Hash::new(b"hello world"));
}

#[test]
fn encode_gives_unpadded_url_safe_base64() {
    assert_eq!(encode(b"hello world"), "aGVsbG8gd29ybGQ");
    assert_eq!(encode(b""), "");
    assert_eq!(encode(&[0xfb, 0xff]), "-_8");
    assert_eq!(encode(&[0xff, 0xff, 0xfe]), "___-");
}

#[test]
fn decode_reads_unpadded_url_safe_base64() {
    assert_eq!(decode("aGVsbG8gd29ybGQ").unwrap(), b"hello world".to_vec());
    assert_eq!(decode("-_8").unwrap(), vec![0xfb, 0xff]);
    assert_eq!(decode("").unwrap(), Vec::<u8>::new());
    assert!(decode("aGVsbG8gd29ybGQ=").is_err());
    assert!(decode("+/8").is_err());
    assert!(decode("a").is_err());
    assert!(decode("-_9").is_err());
}

#[test]
fn decode_undoes_encode() {
    let mut bytes = Vec::new();
    for i in 0..100u32 {
        bytes.push((i * 7 + 3) as u8);
        assert_eq!(decode(&encode(&bytes)).unwrap(), bytes);
    }
}

#[test]
fn text_form_of_zero_bytes() {
    let hash = content_integrity::hash::Hash::from([0u8; 32]);
    assert_eq!(hash.to_string(), "A".repeat(43));
    assert_eq!(hash.to_string().len(), 43);
}

#[test]
fn parse_gives_back_every_hash() {
    for seed in 0..50u8 {
        let mut bytes = [0u8; 32];
        for (i, b) in bytes.iter_mut().enumerate() {
            *b = seed.wrapping_mul(31).wrapping_add(i as u8).wrapping_mul(17);
        }
        let hash = content_integrity::hash::Hash::from(bytes);
        let text = hash.to_string();
        let parsed = content_integrity::hash::Hash::parse(&text).unwrap();
        assert_eq!(parsed, hash);
        assert_eq!(parsed.as_bytes(), &bytes);
        assert_eq!(parsed.to_string(), text);
    }
}

#[test]
fn parse_rejects_wrong_lengths() {
    let short = encode(&[7u8; 31]);
    let long = encode(&[7u8; 33]);
    assert_eq!(
        content_integrity::hash::Hash::parse(&short),
        Err(ParseError::InvalidLength(31))
    );
    assert_eq!(
        content_integrity::hash::Hash::parse(&long),
        Err(ParseError::InvalidLength(33))
    );
    assert_eq!(
        content_integrity::hash::Hash::parse(""),
        Err(ParseError::InvalidLength(0))
    );
}

#[test]
fn parse_rejects_what_is_not_base64() {
    assert_eq!(
        content_integrity::hash::Hash::parse("not base64 at all!"),
        Err(ParseError::InvalidEncoding)
    );
    let padded = format!("{}=", "A".repeat(43));
    assert_eq!(
        content_integrity::hash::Hash::parse(&padded),
        Err(ParseError::InvalidEncoding)
    );
    let standard_alphabet = format!("{}+", "A".repeat(42));
    assert_eq!(
        content_integrity::hash::Hash::parse(&standard_alphabet),
        Err(ParseError::InvalidEncoding)
    );
    assert!("***".parse::<content_integrity::hash::Hash>().is_err());
}

#[test]
fn from_slice_wants_32_bytes() {
    assert!(content_integrity::hash::Hash::from_slice(&[1u8; 31]).is_none());
    assert!(content_integrity::hash::Hash::from_slice(&[1u8; 33]).is_none());
    let hash = content_integrity::hash::Hash::from_slice(&[1u8; 32]).unwrap();
    assert_eq!(hash.as_bytes(), &[1u8; 32]);
    assert_eq!(hash, content_integrity::hash::Hash::from_bytes([1u8; 32]));
}

#[test]
fn hashes_are_ordered_by_their_bytes() {
    let mut low = [0u8; 32];
    let mut high = [0u8; 32];
    low[31] = 255;
    high[0] = 1;
    let a = content_integrity::hash::Hash::from(low);
    let b = content_integrity::hash::Hash::from(high);
    assert!(a < b);
    assert!(b > a);
    assert!(a <= a);
    assert_eq!(a.partial_cmp(&b), Some(std::cmp::Ordering::Less));
    assert_eq!(b.partial_cmp(&a), Some(std::cmp::Ordering::Greater));
    assert_eq!(a.partial_cmp(&a), Some(std::cmp::Ordering::Equal));
    assert_eq!(a.cmp(&b), std::cmp::Ordering::Less);

    let mut mid = [0u8; 32];
    mid[0] = 1;
    mid[1] = 0;
    mid[31] = 1;
    let c = content_integrity::hash::Hash::from(mid);
    let mut all = vec![c, b, a];
    all.sort();
    assert_eq!(all, vec![a, b, c]);
}

#[test]
fn equal_hashes_have_equal_bytes() {
    let a = content_integrity::hash::Hash::from([9u8; 32]);
    let b = content_integrity::hash::Hash::from([9u8; 32]);
    let mut other = [9u8; 32];
    other[17] = 8;
    let c = content_integrity::hash::Hash::from(other);
    assert!(a == b);
    assert!(a != c);
}
