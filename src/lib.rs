//! Turns answers of a key-management service into signed decryption
//! responses and decides how they are stored exactly once, with the retry
//! policy for the connections that carry them.

pub mod conn;
pub mod decryption_id;
pub mod kms_response;
pub mod processor;
pub mod publisher;
