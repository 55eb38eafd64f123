//! The request handlers. Each handler is a flow: a record of the request's
//! parameters and of how far the request has got, and a step function named
//! after the handler that takes the flow and the outcome of the last action
//! and gives the next flow and either the next action or the reply.
//! The first step of every flow is taken with `Event::Begin`.

pub mod files;
pub mod folders;
pub mod file_laws;
pub mod folder_laws;
pub mod store;

use vstd::prelude::*;
use crate::protocol::{Reply, Status, Step};

verus! {

/// How far a handler that runs a single query has got.
#[derive(Debug, Clone, Copy, PartialEq, Eq)]
pub enum QueryStage {
    /// Nothing asked yet.
    Start,
    /// The query has been asked for; its outcome is awaited.
    Awaiting,
    /// The reply has been given.
    Done,
}

/// The reply that ends a flow stepped after its reply, or fed an event that
/// does not answer the action it asked for.
pub open spec fn internal_error() -> Step {
    Step::Reply(Reply::Status(Status::InternalServerError))
}

} // verus!
