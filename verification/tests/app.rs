use lang_rs::app::{App, TableData};
use lang_rs::conjugations::{ConjugationTable, VerbConjugations};
use lang_rs::definitions::{DefinitionTable, WordDefinitions};
use lang_rs::lookup_event::LookupEvent;
use lang_rs::user_error::{ErrorKind, UserError};

fn texts(values: &[&str]) -> Vec<String> {
    values.iter().map(|value| value.to_string()).collect()
}

fn rows_of(values: &[[&str; 2]]) -> Vec<Vec<String>> {
    values.iter().map(|row| texts(row)).collect()
}

fn type_in(app: &mut App, text: &str) {
    for c in text.chars() {
        app.put_char(c);
    }
}

fn three_tenses() -> VerbConjugations {
    VerbConjugations {
        verb: "manger".to_string(),
        conjugation_tables: vec![
            ConjugationTable::new(texts(&["Present", "je", "mange", "tu", "manges"])),
            ConjugationTable::new(texts(&["Imperfect", "je", "mangeais"])),
            ConjugationTable::new(texts(&["Future", "je", "mangerai"])),
        ],
    }
}

fn two_senses() -> WordDefinitions {
    WordDefinitions {
        title: "Translate 'dog' to french".to_string(),
        definitions: vec![
            DefinitionTable {
                header: texts(&["English", "French"]),
                definitions: rows_of(&[["dog", "chien"]]),
            },
            DefinitionTable {
                header: texts(&["English", "French"]),
                definitions: rows_of(&[["hot dog", "hot-dog"]]),
            },
        ],
    }
}

#[test]
fn starts_in_french_with_nothing_on_display() {
    let app = App::new();
    assert_eq!(app.get_language(), "french");
    assert_eq!(app.get_input(), "");
    assert_eq!(app.get_error(), "");
    assert_eq!(app.get_current_table(), 0);
    assert_eq!(app.table_count(), 0);
    assert!(!app.is_closed());
    assert!(!app.is_loading());
    assert!(!app.table_open());
    let table = app.get_table_data();
    assert_eq!(table.title, "");
    assert!(table.header.is_empty());
    assert!(table.items.is_empty());
}

#[test]
fn blank_table_data_holds_nothing() {
    let table = TableData::new();
    assert_eq!(table.title, "");
    assert!(table.header.is_empty());
    assert!(table.items.is_empty());
}

#[test]
fn edits_the_command_buffer() {
    let mut app = App::new();
    app.pop_char();
    assert_eq!(app.get_input(), "");
    type_in(&mut app, "conj été");
    assert_eq!(app.get_input(), "conj été");
    app.pop_char();
    assert_eq!(app.get_input(), "conj ét");
    assert_eq!(app.command_name(), "conj");
    assert_eq!(app.command_body(), "ét");
    app.clear_input();
    assert_eq!(app.get_input(), "");
}

#[test]
fn removes_the_command_and_the_spaces() {
    let mut app = App::new();
    type_in(&mut app, "lang fren ch");
    app.remove_prefix();
    assert_eq!(app.get_input(), "french");
}

#[test]
fn next_wraps_from_the_last_table_to_the_first() {
    let mut app = App::new();
    app.set_conjugations(three_tenses());
    assert_eq!(app.table_count(), 3);
    assert_eq!(app.get_current_table(), 0);
    app.next();
    assert_eq!(app.get_current_table(), 1);
    app.next();
    assert_eq!(app.get_current_table(), 2);
    assert_eq!(app.get_table_data().title, "manger: Future french");
    app.next();
    assert_eq!(app.get_current_table(), 0);
    assert_eq!(app.get_table_data().title, "manger: Present french");
}

#[test]
fn prev_wraps_from_the_first_table_to_the_last() {
    let mut app = App::new();
    app.set_conjugations(three_tenses());
    app.prev();
    assert_eq!(app.get_current_table(), 2);
    assert_eq!(app.get_table_data().title, "manger: Future french");
    assert_eq!(app.get_table_data().items, rows_of(&[["je", "mangerai"]]));
    app.prev();
    assert_eq!(app.get_current_table(), 1);
}

#[test]
fn paging_without_tables_changes_nothing() {
    let mut app = App::new();
    app.next();
    assert_eq!(app.get_current_table(), 0);
    app.prev();
    assert_eq!(app.get_current_table(), 0);
    assert!(!app.table_open());
    assert_eq!(app.get_error(), "");
}

#[test]
fn shows_the_first_table_of_conjugations() {
    let mut app = App::new();
    app.set_conjugations(three_tenses());
    assert!(app.table_open());
    let table = app.get_table_data();
    assert_eq!(table.title, "manger: Present french");
    assert_eq!(table.header, texts(&["Pronouns", "Conjugations"]));
    assert_eq!(table.items, rows_of(&[["je", "mange"], ["tu", "manges"]]));
}

#[test]
fn shows_the_tables_of_definitions() {
    let mut app = App::new();
    app.set_definitions(two_senses());
    assert_eq!(app.table_count(), 2);
    let table = app.get_table_data();
    assert_eq!(table.title, "Translate 'dog' to french");
    assert_eq!(table.header, texts(&["English", "French"]));
    assert_eq!(table.items, rows_of(&[["dog", "chien"]]));
    app.next();
    assert_eq!(app.get_table_data().items, rows_of(&[["hot dog", "hot-dog"]]));
    app.next();
    assert_eq!(app.get_current_table(), 0);
    app.prev();
    assert_eq!(app.get_current_table(), 1);
}

#[test]
fn one_result_replaces_the_other() {
    let mut app = App::new();
    app.set_conjugations(three_tenses());
    app.next();
    app.set_definitions(two_senses());
    assert_eq!(app.table_count(), 2);
    assert_eq!(app.get_current_table(), 0);
    assert_eq!(app.get_table_data().title, "Translate 'dog' to french");
    app.next();
    app.set_conjugations(three_tenses());
    assert_eq!(app.table_count(), 3);
    assert_eq!(app.get_current_table(), 0);
    assert_eq!(app.get_table_data().title, "manger: Present french");
    app.clear_tables();
    assert_eq!(app.table_count(), 0);
    assert!(!app.table_open());
}

#[test]
fn empty_result_shows_nothing() {
    let mut app = App::new();
    app.set_conjugations(three_tenses());
    app.set_conjugations(VerbConjugations::empty());
    assert_eq!(app.table_count(), 0);
    assert!(!app.table_open());
    app.load_conjugation_tables();
    app.load_definition_tables();
    assert!(!app.table_open());
}

#[test]
fn sets_and_clears_the_error() {
    let mut app = App::new();
    app.set_error(UserError::unknown_command("foo"));
    assert_eq!(
        app.get_error(),
        "Command 'foo' not found, try 'help' to see viable commands"
    );
    app.clear_error();
    assert_eq!(app.get_error(), "");
}

#[test]
fn marks_loading_and_measures_it() {
    let mut app = App::new();
    app.start_load(1_000);
    assert!(app.is_loading());
    assert_eq!(app.loaded_for(1_250), 250);
    assert_eq!(app.loaded_for(900), 0);
    app.end_load();
    assert!(!app.is_loading());
}

#[test]
fn closes() {
    let mut app = App::new();
    app.close();
    assert!(app.is_closed());
}

#[test]
fn lang_sets_a_supported_language() {
    let mut app = App::new();
    type_in(&mut app, "lang italian");
    assert!(app.handle_entry().is_none());
    assert_eq!(app.get_language(), "italian");
    assert_eq!(app.get_error(), "");
    assert_eq!(app.get_input(), "");
}

#[test]
fn lang_bogus_leaves_the_language_and_sets_an_error() {
    let mut app = App::new();
    type_in(&mut app, "lang bogus");
    assert!(app.handle_entry().is_none());
    assert_eq!(app.get_language(), "french");
    assert_eq!(
        app.get_error(),
        "Supported languages: french, italian, or spanish does not include 'bogus'"
    );
    assert_eq!(app.get_input(), "");
}

#[test]
fn lang_without_a_language_sets_an_error() {
    let mut app = App::new();
    type_in(&mut app, "lang");
    assert!(app.handle_entry().is_none());
    assert_eq!(app.get_language(), "french");
    assert_eq!(
        app.get_error(),
        "Supported languages: french, italian, or spanish does not include ''"
    );
}

#[test]
fn lang_joins_the_words_of_the_language() {
    let mut app = App::new();
    type_in(&mut app, "lang span ish");
    app.set_language();
    assert_eq!(app.get_language(), "spanish");
    assert_eq!(app.get_input(), "");
}

#[test]
fn conj_asks_for_a_verb_lookup() {
    let mut app = App::new();
    app.set_error(UserError::verb_network());
    type_in(&mut app, "conj parler");
    let request = app.handle_entry().unwrap();
    assert_eq!(request.event, LookupEvent::Verb);
    assert_eq!(request.word, "parler");
    assert_eq!(request.language, "french");
    assert_eq!(app.get_input(), "");
    assert_eq!(app.get_error(), "");
}

#[test]
fn def_and_trans_ask_for_word_lookups() {
    let mut app = App::new();
    type_in(&mut app, "def pomme de terre");
    let request = app.handle_entry().unwrap();
    assert_eq!(request.event, LookupEvent::Definition);
    assert_eq!(request.word, "pomme de terre");
    type_in(&mut app, "trans dog");
    let request = app.handle_entry().unwrap();
    assert_eq!(request.event, LookupEvent::Translation);
    assert_eq!(request.word, "dog");
    assert_eq!(request.language, "french");
}

#[test]
fn help_shows_the_commands() {
    let mut app = App::new();
    app.set_conjugations(three_tenses());
    type_in(&mut app, "help");
    assert!(app.handle_entry().is_none());
    assert_eq!(app.table_count(), 0);
    assert_eq!(app.get_input(), "");
    let table = app.get_table_data();
    assert_eq!(table.title, "Help Table");
    assert_eq!(table.header, texts(&["command", "description"]));
    assert_eq!(
        table.items,
        rows_of(&[
            ["help", "lists available commands"],
            ["lang <language>", "change the currently set language"],
            ["def <word>", "translates a word from english to the current language"],
            ["trans <word>", "gives the definition of the word in the current language"],
            ["conj <verb>", "conjugate a verb in the current language"],
        ])
    );
}

#[test]
fn unknown_command_names_the_first_word() {
    let mut app = App::new();
    type_in(&mut app, "conjugate parler");
    assert!(app.handle_entry().is_none());
    assert_eq!(
        app.get_error(),
        "Command 'conjugate' not found, try 'help' to see viable commands"
    );
    assert_eq!(app.get_input(), "");
    let error = UserError::unknown_command("conjugate");
    assert_eq!(error.kind, ErrorKind::UnknownCommand);
}

#[test]
fn empty_entry_is_an_unknown_command() {
    let mut app = App::new();
    assert!(app.handle_entry().is_none());
    assert_eq!(app.get_error(), "Command '' not found, try 'help' to see viable commands");
    app.handle_error();
    assert_eq!(app.get_error(), "Command '' not found, try 'help' to see viable commands");
}

#[test]
fn each_lookup_command_makes_its_request() {
    let mut app = App::new();
    type_in(&mut app, "conj finir");
    let request = app.set_verb();
    assert_eq!(request.event, LookupEvent::Verb);
    assert_eq!(request.word, "finir");
    assert_eq!(app.get_input(), "");
    type_in(&mut app, "def maison");
    let request = app.set_word_definition();
    assert_eq!(request.event, LookupEvent::Definition);
    assert_eq!(request.word, "maison");
    type_in(&mut app, "trans house");
    let request = app.set_word_translation();
    assert_eq!(request.event, LookupEvent::Translation);
    assert_eq!(request.word, "house");
    type_in(&mut app, "anything at all");
    let request = app.dispatch_lookup(LookupEvent::Verb);
    assert_eq!(request.word, "at all");
    assert_eq!(request.language, "french");
}

#[test]
fn hands_out_copies_of_the_active_result() {
    let mut app = App::new();
    app.is_well_formed();
    assert!(app.get_conjugations().conjugation_tables.is_empty());
    app.set_conjugations(three_tenses());
    let conjugations = app.get_conjugations();
    assert_eq!(conjugations.verb, "manger");
    assert_eq!(conjugations.conjugation_tables.len(), 3);
    assert!(app.get_definitions().definitions.is_empty());
    app.set_definitions(two_senses());
    assert_eq!(app.get_definitions().title, "Translate 'dog' to french");
    assert!(app.get_conjugations().conjugation_tables.is_empty());
    assert_eq!(app.get_conjugations().verb, "");
}

#[test]
fn language_change_shows_in_the_next_title() {
    let mut app = App::new();
    app.set_conjugations(three_tenses());
    type_in(&mut app, "lang italian");
    assert!(app.handle_entry().is_none());
    assert_eq!(app.get_table_data().title, "manger: Present french");
    app.next();
    assert_eq!(app.get_table_data().title, "manger: Imperfect italian");
}
