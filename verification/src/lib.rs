//! Trust and audit core of a protocol-level bastion gateway: the credential
//! model and the authorization engine, the known-hosts trust store with the
//! host-key decision flow of outbound connections, and the bookkeeping of
//! session recordings.

pub mod secret;
pub mod text;
pub mod cred;
pub mod auth;
pub mod config;
pub mod data;
pub mod encoding;
pub mod handler;
pub mod ids;
pub mod known_hosts;
pub mod login;
pub mod recording;
pub mod recordings;
pub mod web_address;
