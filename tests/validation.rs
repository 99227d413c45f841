use kromer::crypto::{
    generate_random_password, make_v2_address, password_from_draws, sha256, PASSWORD_CHARSET,
};
use kromer::gateway::convert_to_iso_string;
use kromer::validation::{
    is_valid_a_record, is_valid_kromer_address, is_valid_kromer_address_list, is_valid_name,
};
use kromer::wallets::{credential_check, credential_verdict, CredentialVerdict};

#[test]
fn names_are_validated_in_lower_case() {
    assert!(is_valid_name("Shop".to_string(), false));
    assert!(is_valid_name("my-shop_2".to_string(), false));
    assert!(!is_valid_name("".to_string(), false));
    assert!(!is_valid_name("a.b".to_string(), false));
    assert!(is_valid_name("xn--shop".to_string(), false));
    assert!(is_valid_name("xn--p1ai".to_string(), true));
    assert!(is_valid_name("a".repeat(64), false));
    assert!(!is_valid_name("a".repeat(65), false));
}

#[test]
fn addresses_are_validated() {
    assert!(is_valid_kromer_address("krcgbmalxg".to_string()));
    assert!(!is_valid_kromer_address("krcgbmalx".to_string()));
    assert!(!is_valid_kromer_address("Krcgbmalxg".to_string()));
    assert!(is_valid_kromer_address_list("krcgbmalxg,0123456789".to_string()));
    assert!(!is_valid_kromer_address_list("krcgbmalxg,".to_string()));
}

#[test]
fn a_records_are_validated() {
    assert!(is_valid_a_record("example.com".to_string()));
    assert!(!is_valid_a_record("".to_string()));
    assert!(!is_valid_a_record(".example".to_string()));
    assert!(is_valid_a_record("a b".to_string()));
    assert!(!is_valid_a_record("ab c".to_string()));
    assert!(!is_valid_a_record("a".repeat(256)));
    assert!(is_valid_a_record("a".repeat(255)));
}

#[test]
fn passwords_have_thirty_two_charset_characters() {
    let p = generate_random_password();
    assert_eq!(p.chars().count(), 32);
    assert!(p.chars().all(|c| PASSWORD_CHARSET.contains(c)));
    assert_ne!(generate_random_password(), generate_random_password());
}

#[test]
fn credential_check_derives_address_and_hash() {
    let check = credential_check("test123");
    assert_eq!(check.address, "krcgbmalxg");
    assert_eq!(check.address, make_v2_address("test123", "k"));
    assert_eq!(check.hash, sha256("krcgbmalxgtest123"));
    assert_eq!(credential_verdict(&check, None), CredentialVerdict::CreateWallet);
    assert_eq!(
        credential_verdict(&check, Some(Some(check.hash.clone()))),
        CredentialVerdict::Existing { authed: true }
    );
    assert_eq!(
        credential_verdict(&check, Some(Some("other".to_string()))),
        CredentialVerdict::Existing { authed: false }
    );
    assert_eq!(credential_verdict(&check, Some(None)), CredentialVerdict::Existing { authed: false });
}

#[test]
fn password_draws_pick_charset_positions() {
    assert_eq!(password_from_draws(&vec![0, 25, 26, 51, 52, 61, 62, 63]), "AZaz09_-");
    assert_eq!(password_from_draws(&vec![]), "");
    assert_eq!(password_from_draws(&vec![7; 32]), "H".repeat(32));
}

#[test]
fn iso_times_cover_the_stated_range() {
    assert_eq!(convert_to_iso_string(0), Some("1970-01-01T00:00:00.000Z".to_string()));
    assert!(convert_to_iso_string(8_000_000_000_000_000).is_some());
    assert!(convert_to_iso_string(-8_000_000_000_000_000).is_some());
    assert_eq!(convert_to_iso_string(i64::MAX), None);
}
