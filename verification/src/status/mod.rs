//! The binary status file: its records, their validation and the reader that
//! hands them out by index.

pub mod parser;
pub mod report;
pub mod server_status;



pub use server_status::{validate_server, ServerStatus, ServerStatusError};

pub use parser::{Parser, Records};
pub use report::{DecodeError, DecodeErrors};
