use lang_rs::wordreference::{conjugation_url, definition_url, is_supported, map_language};

#[test]
fn maps_known_languages_to_site_codes() {
    assert_eq!(map_language("french".to_string()), "fr");
    assert_eq!(map_language("italian".to_string()), "it");
    assert_eq!(map_language("spanish".to_string()), "es");
    assert_eq!(map_language("english".to_string()), "en");
}

#[test]
fn maps_unknown_language_to_nothing() {
    assert_eq!(map_language("bogus".to_string()), "");
    assert_eq!(map_language("".to_string()), "");
    assert_eq!(map_language("French".to_string()), "");
    assert_eq!(map_language("fr".to_string()), "");
}

#[test]
fn tells_supported_languages() {
    assert!(is_supported("french"));
    assert!(is_supported("english"));
    assert!(!is_supported("bogus"));
    assert!(!is_supported(""));
}

#[test]
fn builds_conjugation_address() {
    assert_eq!(
        conjugation_url("french".to_string(), "parler".to_string()),
        "https://www.wordreference.com/conj/frverbs.aspx?v=parler"
    );
    assert_eq!(
        conjugation_url("spanish".to_string(), "hablar".to_string()),
        "https://www.wordreference.com/conj/esverbs.aspx?v=hablar"
    );
}

#[test]
fn builds_conjugation_address_without_code_for_unknown_language() {
    assert_eq!(
        conjugation_url("bogus".to_string(), "parler".to_string()),
        "https://www.wordreference.com/conj/verbs.aspx?v=parler"
    );
}

#[test]
fn builds_definition_address() {
    assert_eq!(
        definition_url("english".to_string(), "french".to_string(), "dog".to_string()),
        "https://www.wordreference.com/enfr/dog"
    );
    assert_eq!(
        definition_url("italian".to_string(), "english".to_string(), "cane".to_string()),
        "https://www.wordreference.com/iten/cane"
    );
}
