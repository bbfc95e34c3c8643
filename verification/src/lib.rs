//! Session identity over a key-value session container: a token that names
//! the user and an expiry instant that bounds how long the token is honoured.

pub mod clock;
pub mod fields;
pub mod instant;
pub mod laws;
pub mod session;
pub mod store;
