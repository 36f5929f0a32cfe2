//! Session construction for an HTTP service that checks browser fidelity.
//!
//! The crate assembles the default header set from credential fragments,
//! validates that every required fragment is present, and builds a proxied
//! and a direct transport that share those headers.

pub mod assembler;
pub mod builder;
pub mod client;
pub mod constants;
pub mod cookie;
pub mod encoding;
pub mod error;
pub mod header;
pub mod session;
pub mod transport;

pub use builder::CreatorBuilder;
pub use client::Creator;
pub use error::OnlyFansBuilderError;
pub use session::{Session, SignatureService};
