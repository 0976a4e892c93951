use rcli::process_genpass;
use rcli::Error;

#[test]
fn test_genpass_length_and_classes() {
    let p = process_genpass(16, true, true, true, true).unwrap();
    assert_eq!(p.chars().count(), 16);
    assert!(p.chars().any(|c| c.is_ascii_uppercase()));
    assert!(p.chars().any(|c| c.is_ascii_lowercase()));
    assert!(p.chars().any(|c| c.is_ascii_digit()));
    assert!(p.chars().any(|c| "!@#$%^&*_".contains(c)));
}

#[test]
fn test_genpass_confusable_characters_left_out() {
    for _ in 0..8 {
        let p = process_genpass(64, true, true, true, false).unwrap();
        assert!(!p.contains('I'));
        assert!(!p.contains('O'));
        assert!(!p.contains('l'));
        assert!(!p.contains('0'));
    }
}

#[test]
fn test_genpass_single_class() {
    let p = process_genpass(12, false, false, true, false).unwrap();
    assert_eq!(p.len(), 12);
    assert!(p.chars().all(|c| ('1'..='9').contains(&c)));
}

#[test]
fn test_genpass_too_short_for_classes() {
    assert_eq!(process_genpass(2, true, true, true, true).unwrap_err(), Error::InvalidKeyLength);
    assert_eq!(process_genpass(0, true, false, false, false).unwrap_err(), Error::InvalidKeyLength);
}

#[test]
fn test_genpass_empty() {
    let p = process_genpass(0, false, false, false, false).unwrap();
    assert_eq!(p, "");
}
