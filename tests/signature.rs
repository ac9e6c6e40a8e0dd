use ci_preview::error::Error;
use ci_preview::signature::verify_signature;

fn header_for(body: &[u8], secret: &str) -> String {
    format!("sha256={}", hex::encode(hmac_sha256::HMAC::mac(body, secret.as_bytes())))
}

#[test]
fn genuine_signature_verifies() {
    let body = b"{\"action\":\"completed\"}";
    let header = header_for(body, "s3cret");
    assert_eq!(verify_signature(body, "s3cret", &header), Ok(true));
}

#[test]
fn uppercase_hex_verifies() {
    let body = b"payload";
    let header = header_for(body, "key").to_uppercase().replace("SHA256=", "sha256=");
    assert_eq!(verify_signature(body, "key", &header), Ok(true));
}

#[test]
fn flipped_bit_fails() {
    let body = b"hello world".to_vec();
    let header = header_for(&body, "key");
    for i in 0..body.len() {
        for bit in 0..8 {
            let mut changed = body.clone();
            changed[i] ^= 1 << bit;
            assert_eq!(verify_signature(&changed, "key", &header), Ok(false));
        }
    }
}

#[test]
fn wrong_secret_fails() {
    let body = b"hello";
    let header = header_for(body, "one");
    assert_eq!(verify_signature(body, "two", &header), Ok(false));
}

#[test]
fn empty_body_and_secret() {
    let header = header_for(b"", "");
    assert_eq!(verify_signature(b"", "", &header), Ok(true));
}

#[test]
fn missing_prefix_is_malformed() {
    let body = b"hello";
    let digest = hex::encode(hmac_sha256::HMAC::mac(body, b"key"));
    assert_eq!(
        verify_signature(body, "key", &digest),
        Err(Error::MissingSignaturePrefix)
    );
    assert_eq!(
        verify_signature(body, "key", &format!("sha1={digest}")),
        Err(Error::MissingSignaturePrefix)
    );
    assert_eq!(verify_signature(body, "key", ""), Err(Error::MissingSignaturePrefix));
}

#[test]
fn bad_hex_is_malformed() {
    assert_eq!(
        verify_signature(b"x", "key", "sha256=zz"),
        Err(Error::InvalidSignatureHex)
    );
    assert_eq!(
        verify_signature(b"x", "key", "sha256=abc"),
        Err(Error::InvalidSignatureHex)
    );
}

#[test]
fn short_valid_hex_is_mismatch() {
    assert_eq!(verify_signature(b"x", "key", "sha256="), Ok(false));
    assert_eq!(verify_signature(b"x", "key", "sha256=00ff"), Ok(false));
}
