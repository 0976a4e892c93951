use rcli::process_decode;
use rcli::process_encode;
use rcli::Base64Format;
use rcli::Error;

#[test]
fn test_std_encode_decode() {
    let test_str = "Hello, rcli Base64!";
    let encoded_standard = "SGVsbG8sIHJjbGkgQmFzZTY0IQ==";
    let encoded_urlsafe = "SGVsbG8sIHJjbGkgQmFzZTY0IQ";

    // Standard format encode
    let result_standard = process_encode(test_str.as_bytes(), Base64Format::Standard);
    assert_eq!(result_standard, encoded_standard);

    // UrlSafe format encode
    let result_urlsafe = process_encode(test_str.as_bytes(), Base64Format::UrlSafe);
    assert_eq!(result_urlsafe, encoded_urlsafe);

    // Standard format decode
    let decoded_standard = process_decode(encoded_standard, Base64Format::Standard).unwrap();
    assert_eq!(decoded_standard, test_str);

    // UrlSafe format decode
    let decoded_urlsafe = process_decode(encoded_urlsafe, Base64Format::UrlSafe).unwrap();
    assert_eq!(decoded_urlsafe, test_str);

    // Round-trip: encode then decode should return the original
    let encoded = process_encode(test_str.as_bytes(), Base64Format::Standard);
    let decoded = process_decode(&encoded, Base64Format::Standard).unwrap();
    assert_eq!(decoded, test_str);
}

#[test]
fn test_process_decode() {
    let data = "SGVsbG8sIHJjbGkgQmFzZTY0IQ==";
    let format = Base64Format::Standard;
    assert!(process_decode(data, format).is_ok());
}

#[test]
fn test_decode_ignores_whitespace() {
    let data = "SGVsbG8s\nIHJjbGkg\r\n  QmFzZTY0IQ==\n";
    let decoded = process_decode(data, Base64Format::Standard).unwrap();
    assert_eq!(decoded, "Hello, rcli Base64!");
}

#[test]
fn test_decode_rejects_bad_characters() {
    assert_eq!(
        process_decode("SGVsbG8*", Base64Format::Standard).unwrap_err(),
        Error::InvalidEncoding
    );
    // the standard alphabet characters + and / are not URL-safe
    assert_eq!(process_decode("+/+/", Base64Format::UrlSafe).unwrap_err(), Error::InvalidEncoding);
    // padding is not accepted in the URL-safe no-pad variant
    assert_eq!(process_decode("TWE=", Base64Format::UrlSafe).unwrap_err(), Error::InvalidEncoding);
}

#[test]
fn test_decode_rejects_bad_lengths() {
    // standard form demands a padded multiple of four
    assert_eq!(process_decode("TWE", Base64Format::Standard).unwrap_err(), Error::InvalidEncoding);
    assert_eq!(
        process_decode("TWFuTQ", Base64Format::Standard).unwrap_err(),
        Error::InvalidEncoding
    );
    // one leftover character never encodes a byte
    assert_eq!(process_decode("TWFuT", Base64Format::UrlSafe).unwrap_err(), Error::InvalidEncoding);
}

#[test]
fn test_decode_rejects_nonzero_trailing_bits() {
    // 'b' carries low bits that no byte explains: only canonical tails decode
    assert_eq!(process_decode("ab==", Base64Format::Standard).unwrap_err(), Error::InvalidEncoding);
    assert_eq!(process_decode("ab", Base64Format::UrlSafe).unwrap_err(), Error::InvalidEncoding);
    assert!(process_decode("aQ==", Base64Format::Standard).is_ok());
    assert!(process_decode("aQ", Base64Format::UrlSafe).is_ok());
}

#[test]
fn test_encode_empty() {
    assert_eq!(process_encode(b"", Base64Format::Standard), "");
    assert_eq!(process_encode(b"", Base64Format::UrlSafe), "");
    assert_eq!(process_decode("", Base64Format::Standard).unwrap(), "");
}

#[test]
fn test_encode_classic_values() {
    assert_eq!(process_encode(b"Man", Base64Format::Standard), "TWFu");
    assert_eq!(process_encode(b"Ma", Base64Format::Standard), "TWE=");
    assert_eq!(process_encode(b"M", Base64Format::Standard), "TQ==");
    assert_eq!(process_encode(b"Ma", Base64Format::UrlSafe), "TWE");
    assert_eq!(process_encode(b"M", Base64Format::UrlSafe), "TQ");
    // the two alphabets differ in their last two characters
    assert_eq!(process_encode(&[0xfb, 0xff], Base64Format::Standard), "+/8=");
    assert_eq!(process_encode(&[0xfb, 0xff], Base64Format::UrlSafe), "-_8");
}

#[test]
fn test_decode_rejects_invalid_utf8() {
    // 0xff 0xfe is valid base64 content but not valid text
    let encoded = process_encode(&[0xff, 0xfe], Base64Format::Standard);
    assert_eq!(
        process_decode(&encoded, Base64Format::Standard).unwrap_err(),
        Error::InvalidEncoding
    );
}
