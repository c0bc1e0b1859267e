//! A one-way bridge from signed alert webhooks to a team chat channel.

pub mod body;
pub mod error;
pub mod handler;
pub mod json;
pub mod mattermost;
pub mod signature;

pub use handler::{bad_request, handle_alert, ok, server_error};
pub use signature::verify_hmac;
