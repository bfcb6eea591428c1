//! A terminal browser for a user's GitHub repositories: the state machine that
//! reacts to keys and fetched data, and the description of what each screen shows.

pub mod selection;
pub mod repo;
pub mod tree;
pub mod input;
pub mod model;
pub mod app;
pub mod view;
pub mod laws;
