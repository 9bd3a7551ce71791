//! The protocol layer of a minimal HTTP/1.1 server that serves one request
//! per connection: the decoder of requests, the router, the handlers, the
//! encoder of responses, and the state machine of a connection.
//!
//! The library performs no I/O. It tells its caller what to read, write and
//! send, and is told what came of it.

pub mod connection;
pub mod decode_laws;
pub mod handlers;
pub mod laws;
pub mod request;
pub mod response;
pub mod router;
pub mod text;

pub use crate::connection::{step, Action, Event, State};
pub use crate::handlers::{
    file_path, handle_echo, handle_file, handle_file_upload, handle_request, handle_user_agent,
    Step,
};
pub use crate::request::{DecodeError, HttpMethod, HttpRequest};
pub use crate::response::HttpResponse;
pub use crate::router::{route, RouteOutcome};
