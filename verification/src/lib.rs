//! A terminal front end for reviewing Anki cards through the AnkiConnect
//! add-on: the card and deck model, the request and reply shapes of the
//! AnkiConnect protocol, and the state machine of the deck list and review
//! screens, with the texts those screens show.

pub mod model;
pub mod text;
pub mod sort;
pub mod connect;
pub mod html;
pub mod app;
pub mod screen;
pub mod laws;
