//! A pull-request dashboard's core: the domain model, the state that the
//! event loop owns, and the decisions the loop takes. Each step of the loop
//! is a function from the state and what woke the loop to the next state and
//! the work that is wanted; waiting, running commands and painting are the
//! caller's part.

pub mod app;
pub mod event;
pub mod index;
pub mod input;
pub mod models;
pub mod render;
pub mod status;
pub mod tasks;
pub mod text;
