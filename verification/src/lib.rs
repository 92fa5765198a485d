//! Core logic of an Elm-style to-do list application: the task data model,
//! the application state machine with its update function, and a small
//! radio-group widget model. The GUI front end drives these through plain
//! messages and renders from the pure view helpers.

pub mod model;
pub mod radio;
pub mod task;
