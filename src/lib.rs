//! Turning failure values into HTTP responses that always carry a status code.
//!
//! - [`stop`]: discard the failure and answer with the generic status text.
//! - [`transparent_stop`]: answer with the failure's textual form.
//! - [`catch`]: let a custom handler answer, falling back to a default renderer.

pub mod status;
pub mod response;
pub mod catch;
pub mod handlers;

pub use catch::{catch, stop, transparent_stop, Transformer};
pub use response::{default_response, transparent, Response};
pub use status::{resolve, try_resolve, Status};
