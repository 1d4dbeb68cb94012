//! Account autoconfiguration for a mail client.

pub mod address;
pub mod bytes;
pub mod configure;
pub mod dc_pgp;
pub mod login_param;
pub mod provider;
pub mod smtp;
pub mod text;
