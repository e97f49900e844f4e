use nostr_sdk::ToBech32;
use sloppy::nostr_profile::{profile_metadata, signing_identity, ProfileFields};

fn fields(picture: &str, banner: &str) -> ProfileFields {
    ProfileFields {
        name: "sloppy".to_string(),
        display_name: "Sloppy".to_string(),
        about: "An AI that needs sats".to_string(),
        picture: picture.to_string(),
        banner: banner.to_string(),
        nip05: "sloppy@example.com".to_string(),
        lud16: "sloppy@getalby.com".to_string(),
    }
}

#[test]
fn profile_keeps_fields_and_normalises_urls() {
    let m = profile_metadata(fields("https://example.com", "HTTPS://Example.com/b.png")).unwrap();
    assert_eq!(m.name, "sloppy");
    assert_eq!(m.display_name, "Sloppy");
    assert_eq!(m.about, "An AI that needs sats");
    assert_eq!(m.picture, "https://example.com/");
    assert_eq!(m.banner, "https://example.com/b.png");
    assert_eq!(m.nip05, "sloppy@example.com");
    assert_eq!(m.lud16, "sloppy@getalby.com");
}

#[test]
fn profile_refuses_bad_urls() {
    assert!(profile_metadata(fields("not a url", "https://example.com")).is_err());
    assert!(profile_metadata(fields("https://example.com", "")).is_err());
}

#[test]
fn identity_from_secret() {
    let secret = "6b911fd37cdf5c81d4c0adb1ab7fa822ed253ab0ad9aa18d77257c88b29b718e";
    let (keys, npub) = signing_identity(secret).unwrap();
    let expected = nostr_sdk::Keys::parse(secret).unwrap().public_key().to_bech32().unwrap();
    assert_eq!(npub, expected);
    assert_eq!(keys.public_key().to_bech32().unwrap(), expected);
    assert!(npub.starts_with("npub1"));
    assert!(!npub.contains(secret));
    assert_eq!(npub.len(), 63);
    assert!(signing_identity("not a key").is_err());
    assert!(signing_identity("").is_err());
}
