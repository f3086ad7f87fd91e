pub mod app;
pub mod app_event;
pub mod conjugations;
pub mod definitions;
pub mod lookup_event;
pub mod markup;
pub mod text;
pub mod user_error;
pub mod wordreference;
