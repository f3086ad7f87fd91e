use lang_rs::user_error::{ErrorKind, UserError};

#[test]
fn every_kind_of_error_has_its_message() {
    let error = UserError::unsupported_language("bogus");
    assert_eq!(error.kind, ErrorKind::UnsupportedLanguage);
    assert_eq!(
        error.message,
        "Supported languages: french, italian, or spanish does not include 'bogus'"
    );
    let error = UserError::unknown_command("foo");
    assert_eq!(error.kind, ErrorKind::UnknownCommand);
    assert_eq!(error.message, "Command 'foo' not found, try 'help' to see viable commands");
    let error = UserError::verb_not_found("parlr", "french");
    assert_eq!(error.kind, ErrorKind::NotFound);
    assert_eq!(
        error.message,
        "The verb 'parlr' does not exist in the selected language (french). \
         Please double check your spelling"
    );
    let error = UserError::word_not_found("dgo", "english");
    assert_eq!(error.kind, ErrorKind::NotFound);
    assert_eq!(
        error.message,
        "The word 'dgo' does not exist in the selected language (english). \
         Please double check your spelling"
    );
    let error = UserError::verb_network();
    assert_eq!(error.kind, ErrorKind::NetworkFailure);
    let error = UserError::word_network();
    assert_eq!(error.kind, ErrorKind::NetworkFailure);
    let error = UserError::translation_missing("italian");
    assert_eq!(error.kind, ErrorKind::MalformedMarkup);
    assert_eq!(
        error.message,
        "Translations to 'italian' could not be found for the word. \
         Please double check your spelling"
    );
}
