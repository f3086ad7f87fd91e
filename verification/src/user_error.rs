use vstd::prelude::*;
use vstd::string::*;

verus! {

/// Why a command or a lookup failed.
#[derive(Clone, Copy, Debug, PartialEq, Eq, Structural)]
pub enum ErrorKind {
    /// The language name is not one the site serves.
    UnsupportedLanguage,
    /// The site holds no usable table for the verb or word.
    NotFound,
    /// The site could not be reached.
    NetworkFailure,
    /// The cells of a table do not come in the order the extraction relies on.
    MalformedMarkup,
    /// The first word of the command is no command.
    UnknownCommand,
}

/// A failure as it is shown to the user.
#[derive(Debug)]
pub struct UserError {
    pub kind: ErrorKind,
    pub message: String,
}

/// What a `UserError` holds, as plain values.
pub struct UserErrorView {
    pub kind: ErrorKind,
    pub message: Seq<char>,
}

impl View for UserError {
    type V = UserErrorView;

    open spec fn view(&self) -> UserErrorView {
        UserErrorView { kind: self.kind, message: self.message@ }
    }
}

/// A result with both of its sides taken by their views.
pub open spec fn viewed<T: View, E: View>(result: Result<T, E>) -> Result<T::V, E::V> {
    match result {
        Ok(value) => Ok(value@),
        Err(error) => Err(error@),
    }
}

pub open spec fn unsupported_language_message(language: Seq<char>) -> Seq<char> {
    "Supported languages: french, italian, or spanish does not include '"@ + language + "'"@
}

pub open spec fn unknown_command_message(command: Seq<char>) -> Seq<char> {
    "Command '"@ + command + "' not found, try 'help' to see viable commands"@
}

pub open spec fn verb_not_found_message(verb: Seq<char>, language: Seq<char>) -> Seq<char> {
    "The verb '"@ + verb + "' does not exist in the selected language ("@ + language
        + "). Please double check your spelling"@
}

pub open spec fn verb_network_message() -> Seq<char> {
    "Could not find the corresponding verb conjugaitons, please check your network connection and spelling"@
}

pub open spec fn word_not_found_message(word: Seq<char>, language: Seq<char>) -> Seq<char> {
    "The word '"@ + word + "' does not exist in the selected language ("@ + language
        + "). Please double check your spelling"@
}

pub open spec fn word_network_message() -> Seq<char> {
    "Could not find the corresponding definitions, please check your network connection"@
}

pub open spec fn translation_missing_message(language: Seq<char>) -> Seq<char> {
    "Translations to '"@ + language
        + "' could not be found for the word. Please double check your spelling"@
}

pub open spec fn unsupported_language_error(language: Seq<char>) -> UserErrorView {
    UserErrorView {
        kind: ErrorKind::UnsupportedLanguage,
        message: unsupported_language_message(language),
    }
}

pub open spec fn unknown_command_error(command: Seq<char>) -> UserErrorView {
    UserErrorView { kind: ErrorKind::UnknownCommand, message: unknown_command_message(command) }
}

pub open spec fn verb_not_found_error(verb: Seq<char>, language: Seq<char>) -> UserErrorView {
    UserErrorView { kind: ErrorKind::NotFound, message: verb_not_found_message(verb, language) }
}

pub open spec fn verb_network_error() -> UserErrorView {
    UserErrorView { kind: ErrorKind::NetworkFailure, message: verb_network_message() }
}

pub open spec fn word_not_found_error(word: Seq<char>, language: Seq<char>) -> UserErrorView {
    UserErrorView { kind: ErrorKind::NotFound, message: word_not_found_message(word, language) }
}

pub open spec fn word_network_error() -> UserErrorView {
    UserErrorView { kind: ErrorKind::NetworkFailure, message: word_network_message() }
}

pub open spec fn translation_missing_error(language: Seq<char>) -> UserErrorView {
    UserErrorView {
        kind: ErrorKind::MalformedMarkup,
        message: translation_missing_message(language),
    }
}

impl UserError {
    /// The language is not among those the site serves.
    pub fn unsupported_language(language: &str) -> (error: UserError)
        ensures
            error@ == unsupported_language_error(language@),
    {
        let mut message = "Supported languages: french, italian, or spanish does not include '".to_owned();
        message.append(language);
        message.append("'");
        UserError { kind: ErrorKind::UnsupportedLanguage, message }
    }

    /// The first word of the command buffer names no command.
    pub fn unknown_command(command: &str) -> (error: UserError)
        ensures
            error@ == unknown_command_error(command@),
    {
        let mut message = "Command '".to_owned();
        message.append(command);
        message.append("' not found, try 'help' to see viable commands");
        UserError { kind: ErrorKind::UnknownCommand, message }
    }

    /// The site has no conjugation of the verb in the language.
    pub fn verb_not_found(verb: &str, language: &str) -> (error: UserError)
        ensures
            error@ == verb_not_found_error(verb@, language@),
    {
        let mut message = "The verb '".to_owned();
        message.append(verb);
        message.append("' does not exist in the selected language (");
        message.append(language);
        message.append("). Please double check your spelling");
        UserError { kind: ErrorKind::NotFound, message }
    }

    /// The page of conjugations could not be fetched.
    pub fn verb_network() -> (error: UserError)
        ensures
            error@ == verb_network_error(),
    {
        UserError {
            kind: ErrorKind::NetworkFailure,
            message: "Could not find the corresponding verb conjugaitons, please check your network connection and spelling".to_owned(),
        }
    }

    /// The site has no entry for the word in the language.
    pub fn word_not_found(word: &str, language: &str) -> (error: UserError)
        ensures
            error@ == word_not_found_error(word@, language@),
    {
        let mut message = "The word '".to_owned();
        message.append(word);
        message.append("' does not exist in the selected language (");
        message.append(language);
        message.append("). Please double check your spelling");
        UserError { kind: ErrorKind::NotFound, message }
    }

    /// The page of definitions could not be fetched.
    pub fn word_network() -> (error: UserError)
        ensures
            error@ == word_network_error(),
    {
        UserError {
            kind: ErrorKind::NetworkFailure,
            message: "Could not find the corresponding definitions, please check your network connection".to_owned(),
        }
    }

    /// A table of translations whose cells do not start with a source word.
    pub fn translation_missing(language: &str) -> (error: UserError)
        ensures
            error@ == translation_missing_error(language@),
    {
        let mut message = "Translations to '".to_owned();
        message.append(language);
        message.append("' could not be found for the word. Please double check your spelling");
        UserError { kind: ErrorKind::MalformedMarkup, message }
    }
}

} // verus!
