//! The state machine of a school-fee administration client.
//!
//! The client is a dispatch loop: a message goes in, the state changes, and
//! effects come out, each of which settles into one follow-up message. This
//! library is the function from state and message to state and effects,
//! with what it needs: the entity model, the roster in surname order, the
//! form validator, the meaning of the backend's answers, and the import
//! template. Running the effects is for the program around it.
//!
//! - `app`: the root, between login screen and dashboard.
//! - `login`, `dashboard`, `student_manager`, `modules`: the screens and
//!   their transitions.
//! - `roster`: sorting and searching the list of students.
//! - `routes`: where requests go and what answers mean.
//! - `excel`: the import template.
//! - `listing`: what the lists and the menu show.
//! - `models`, `error`, `ident`, `text`: records, errors, identifiers, text.

pub mod app;
pub mod dashboard;
pub mod error;
pub mod excel;
pub mod ident;
pub mod listing;
pub mod login;
pub mod models;
pub mod modules;
pub mod roster;
pub mod routes;
pub mod student_manager;
pub mod text;
