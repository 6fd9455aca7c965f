//! Chat: components to legacy-coded text, wrapping, and the chat box.

pub mod component;
pub mod event_laws;
pub mod json;
pub mod lang;
pub mod legacy;
pub mod line_laws;
pub mod recall_laws;
pub mod span_laws;
pub mod state;
pub mod text_laws;
pub mod wrap;
