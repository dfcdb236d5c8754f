//! A command line client for the KiwiVM management service: the operations
//! that the service offers, how a command line names one, and the address of
//! the request that performs it.

pub mod client;
pub mod error;
pub mod live_info;
pub mod operation;
pub mod parse;
pub mod request;
pub mod text;

pub use client::KiwivmCLI;
pub use error::{CliError, ParseError};
pub use live_info::VirtualPrivateServerLiveInfo;
pub use operation::Operation;
pub use request::build_url;
