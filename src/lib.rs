//! A small status/label chip: builder, style resolution and a plain view tree
//! that a rendering layer turns into widgets.
pub mod lang;
pub mod message;
pub mod scan;
pub mod style;
pub mod view;
pub mod badge;
