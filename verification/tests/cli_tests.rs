use std::path::PathBuf;

use rcli::cli::classify_input;
use rcli::cli::verify_file_exists;
use rcli::cli::is_stdin_sentinel;
use rcli::Error;
use rcli::TextSignFormat;
use rcli::Base64Format;
use rcli::OutputFormat;

#[test]
fn test_verify_path() {
    assert!(verify_file_exists("non_existent_file.txt").is_err());
    assert_eq!(
        PathBuf::from(verify_file_exists("src/lib.rs").unwrap()),
        PathBuf::from("src/lib.rs")
    );
    assert_eq!(PathBuf::from(verify_file_exists("-").unwrap()), PathBuf::from("-"));
}

#[test]
fn it_works() {
    assert_eq!(2 + 2, 4);
}

#[test]
fn test_classify_input() {
    assert_eq!(classify_input("input.txt", true).unwrap(), "input.txt");
    assert_eq!(classify_input("-", false).unwrap(), "-");
    assert_eq!(
        classify_input("input.txt", false).unwrap_err(),
        "File 'input.txt' does not exist"
    );
}

#[test]
fn test_missing_file_message() {
    assert_eq!(
        verify_file_exists("non_existent_file.txt").unwrap_err(),
        "File 'non_existent_file.txt' does not exist"
    );
}

#[test]
fn test_stdin_sentinel() {
    assert!(is_stdin_sentinel("-"));
    assert!(!is_stdin_sentinel("--"));
    assert!(!is_stdin_sentinel(""));
    assert!(!is_stdin_sentinel("input.txt"));
}

#[test]
fn test_parse_text_sign_format() {
    assert_eq!(TextSignFormat::parse("blake3").unwrap(), TextSignFormat::Blake3);
    assert_eq!(TextSignFormat::parse("BLAKE3").unwrap(), TextSignFormat::Blake3);
    assert_eq!(TextSignFormat::parse("Ed25519").unwrap(), TextSignFormat::Ed25519);
    assert_eq!(TextSignFormat::parse("shake256").unwrap_err(), Error::UnsupportedAlgorithm);
    assert_eq!(TextSignFormat::parse("").unwrap_err(), Error::UnsupportedAlgorithm);
}

#[test]
fn test_parse_base64_format() {
    assert_eq!(Base64Format::parse("standard").unwrap(), Base64Format::Standard);
    assert_eq!(Base64Format::parse("UrlSafe").unwrap(), Base64Format::UrlSafe);
    assert_eq!(Base64Format::parse("base32").unwrap_err(), Error::UnsupportedAlgorithm);
    assert_eq!(Base64Format::parse("standard").unwrap().as_str(), "standard");
    assert_eq!(Base64Format::parse("urlsafe").unwrap().as_str(), "urlsafe");
}

#[test]
fn test_parse_output_format() {
    assert_eq!(OutputFormat::parse("json").unwrap(), OutputFormat::Json);
    assert_eq!(OutputFormat::parse("YAML").unwrap(), OutputFormat::Yaml);
    assert_eq!(OutputFormat::parse("toml").unwrap_err(), Error::UnsupportedAlgorithm);
    assert_eq!(OutputFormat::Json.as_str(), "json");
    assert_eq!(OutputFormat::Yaml.as_str(), "yaml");
}

#[test]
fn test_error_messages() {
    assert_eq!(Error::SourceUnavailable.message(), "source not found or not readable");
    assert_eq!(Error::InvalidKeyLength.message(), "invalid key length");
    assert_eq!(Error::MalformedKey.message(), "malformed key");
    assert_eq!(Error::InvalidEncoding.message(), "invalid encoding");
    assert_eq!(Error::UnsupportedAlgorithm.message(), "unsupported format");
}
