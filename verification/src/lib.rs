//! Content-type checking: given the `Content-Type` string observed on a
//! resource and a caller's acceptance criteria, decide whether the resource
//! is acceptable, and plan the steps of the surrounding request handler.

pub mod check;
pub mod handler;
pub mod laws;
pub mod message;

pub use check::evaluate;
pub use check::main_type_of;
pub use check::observed_content_type;
pub use handler::conclude;
pub use handler::plan_for_body;
pub use handler::plan_for_method;
pub use handler::status_of;
pub use handler::BodyPlan;
pub use handler::MethodPlan;
pub use handler::ProbeOutcome;
pub use handler::Rejection;
pub use handler::Reply;
pub use message::CheckRequest;
pub use message::CheckResponse;
