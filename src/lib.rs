//! Building blocks of a set of reactive UI components over a widget library:
//! the class lists, attribute values, option records and state transitions
//! that the components hand to the page and to the widget objects.

pub mod components;
pub mod methods;
pub mod utils;
pub mod setup;

