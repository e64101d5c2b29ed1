//! A client for a remote code-execution service: request building,
//! header assembly and the interpretation of the service's replies.

pub mod client;
pub mod exchange;
pub mod executor;
pub mod headers;
pub mod response;

pub use client::Client;
pub use exchange::{body_kind, rejected_response, BodyKind, ExecError, Reply};
pub use executor::{Executor, File};
pub use headers::is_valid_header_value;
pub use response::{ExecResponse, ExecResult, RawExecResponse, Runtime};
