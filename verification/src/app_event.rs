use crate::app::{entered, entered_request, next_page, previous_page, well_formed, App, AppView};
use crate::lookup_event::{LookupRequest, LookupRequestView};
use vstd::prelude::*;

verus! {

/// A key as the dispatcher tells them apart.
#[derive(Clone, Copy, Debug, PartialEq, Eq, Structural)]
pub enum Key {
    Esc,
    Right,
    Left,
    Backspace,
    Enter,
    Char(char),
    /// Any other key.
    Other,
}

/// What the source of input hands to the dispatcher: a key that was pressed,
/// or the tick that comes when none was.
#[derive(Clone, Copy, Debug, PartialEq, Eq, Structural)]
pub enum AppEvent {
    Input(Key),
    Tick,
}

/// The state after a key was pressed: escape asks the application to end,
/// the arrows page through the tables, backspace and the characters edit the
/// command buffer, and enter carries out the command in it.
pub open spec fn key_pressed(app: AppView, key: Key) -> AppView {
    match key {
        Key::Esc => AppView { closed: true, ..app },
        Key::Right => next_page(app),
        Key::Left => previous_page(app),
        Key::Backspace => AppView {
            input: if app.input.len() > 0 {
                app.input.drop_last()
            } else {
                app.input
            },
            ..app
        },
        Key::Enter => entered(app),
        Key::Char(c) => AppView { input: app.input.push(c), ..app },
        Key::Other => app,
    }
}

/// The state after an event: a key changes it, a tick does not.
pub open spec fn event_handled(app: AppView, event: AppEvent) -> AppView {
    match event {
        AppEvent::Input(key) => key_pressed(app, key),
        AppEvent::Tick => app,
    }
}

/// The lookup that an event asks for: the one of the command buffer where
/// the key is enter, none otherwise.
pub open spec fn event_request(app: AppView, event: AppEvent) -> Option<LookupRequestView> {
    match event {
        AppEvent::Input(Key::Enter) => entered_request(app),
        _ => None,
    }
}

/// The dispatcher of the events of the source of input.
pub struct AppEventHandler {}

impl AppEventHandler {
    /// A dispatcher.
    pub fn new() -> AppEventHandler {
        AppEventHandler {  }
    }

    /// Applies an event to the state of the application. Returns the lookup
    /// that is to be handed to the worker, where the event asks for one.
    pub fn handle_app_event(&mut self, app: &mut App, app_event: AppEvent) -> (request: Option<
        LookupRequest,
    >)
        ensures
            final(app)@ == event_handled(old(app)@, app_event),
            request.deep_view() == event_request(old(app)@, app_event),
            well_formed(final(app)@),
    {
        match app_event {
            AppEvent::Input(key) => self.handle_input_event(app, key),
            AppEvent::Tick => {
                self.update_on_tick(app);
                None
            },
        }
    }

    /// A tick changes nothing.
    pub fn update_on_tick(&mut self, app: &mut App)
        ensures
            final(app)@ == old(app)@,
            well_formed(final(app)@),
    {
        app.is_well_formed();
    }

    /// Applies a key to the state of the application.
    pub fn handle_input_event(&mut self, app: &mut App, input: Key) -> (request: Option<
        LookupRequest,
    >)
        ensures
            final(app)@ == key_pressed(old(app)@, input),
            request.deep_view() == event_request(old(app)@, AppEvent::Input(input)),
            well_formed(final(app)@),
    {
        let mut request: Option<LookupRequest> = None;
        match input {
            Key::Esc => {
                app.close();
            },
            Key::Right => {
                app.next();
            },
            Key::Left => {
                app.prev();
            },
            Key::Backspace => {
                app.pop_char();
            },
            Key::Enter => {
                request = app.handle_entry();
            },
            Key::Char(c) => {
                app.put_char(c);
            },
            Key::Other => {},
        }
        app.is_well_formed();
        request
    }
}

} // verus!
