//! Core of a file-storage backend: the data model, the text it derives
//! (content hashes, storage paths, download headers) and, for each HTTP
//! handler, the decisions it takes between database and filesystem calls,
//! written as a step function from state and event to next state and action.

pub mod models;
pub mod text;
pub mod outside;
pub mod protocol;
pub mod handlers;
