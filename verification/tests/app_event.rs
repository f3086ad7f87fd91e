use lang_rs::app::App;
use lang_rs::app_event::{AppEvent, AppEventHandler, Key};
use lang_rs::conjugations::{ConjugationTable, VerbConjugations};
use lang_rs::lookup_event::LookupEvent;

fn press(handler: &mut AppEventHandler, app: &mut App, text: &str) {
    for c in text.chars() {
        assert!(handler.handle_app_event(app, AppEvent::Input(Key::Char(c))).is_none());
    }
}

#[test]
fn characters_and_backspace_edit_the_buffer() {
    let mut handler = AppEventHandler::new();
    let mut app = App::new();
    press(&mut handler, &mut app, "conk");
    assert!(handler.handle_app_event(&mut app, AppEvent::Input(Key::Backspace)).is_none());
    press(&mut handler, &mut app, "j");
    assert_eq!(app.get_input(), "conj");
}

#[test]
fn enter_hands_off_a_lookup() {
    let mut handler = AppEventHandler::new();
    let mut app = App::new();
    press(&mut handler, &mut app, "conj parler");
    let request = handler.handle_app_event(&mut app, AppEvent::Input(Key::Enter)).unwrap();
    assert_eq!(request.event, LookupEvent::Verb);
    assert_eq!(request.word, "parler");
    assert_eq!(request.language, "french");
    assert_eq!(app.get_input(), "");
}

#[test]
fn enter_carries_out_lang_at_once() {
    let mut handler = AppEventHandler::new();
    let mut app = App::new();
    press(&mut handler, &mut app, "lang spanish");
    assert!(handler.handle_input_event(&mut app, Key::Enter).is_none());
    assert_eq!(app.get_language(), "spanish");
}

#[test]
fn arrows_page_through_the_tables() {
    let mut handler = AppEventHandler::new();
    let mut app = App::new();
    app.set_conjugations(VerbConjugations {
        verb: "manger".to_string(),
        conjugation_tables: vec![
            ConjugationTable::new(vec!["Present".to_string()]),
            ConjugationTable::new(vec!["Future".to_string()]),
        ],
    });
    handler.handle_app_event(&mut app, AppEvent::Input(Key::Right));
    assert_eq!(app.get_current_table(), 1);
    handler.handle_app_event(&mut app, AppEvent::Input(Key::Right));
    assert_eq!(app.get_current_table(), 0);
    handler.handle_app_event(&mut app, AppEvent::Input(Key::Left));
    assert_eq!(app.get_current_table(), 1);
}

#[test]
fn escape_closes_and_other_events_change_nothing() {
    let mut handler = AppEventHandler::new();
    let mut app = App::new();
    press(&mut handler, &mut app, "he");
    assert!(handler.handle_app_event(&mut app, AppEvent::Tick).is_none());
    assert!(handler.handle_app_event(&mut app, AppEvent::Input(Key::Other)).is_none());
    handler.update_on_tick(&mut app);
    assert_eq!(app.get_input(), "he");
    assert!(!app.is_closed());
    assert!(handler.handle_app_event(&mut app, AppEvent::Input(Key::Esc)).is_none());
    assert!(app.is_closed());
    assert_eq!(app.get_input(), "he");
}
