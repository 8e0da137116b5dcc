//! The decisions of an authentication service: registration with mandatory
//! TOTP enrollment, login bound to a DPoP key, rotating refresh tokens,
//! logout, and the check of a bearer token on a protected route.
//!
//! Storage and HTTP stay outside. Each endpoint is a state machine whose
//! actions name the store calls to make and whose events carry their results.
pub mod auth;
pub mod confirm;
pub mod credential_laws;
pub mod dpop;
pub mod dpop_laws;
pub mod endpoint_laws;
pub mod error;
pub mod hex;
pub mod json;
pub mod jws;
pub mod login;
pub mod login_laws;
pub mod logout;
pub mod operation_laws;
pub mod password;
pub mod password_laws;
pub mod random;
pub mod rate_limit;
pub mod refresh;
pub mod refresh_laws;
pub mod refresh_token;
pub mod register;
pub mod register_laws;
pub mod request;
pub mod response_laws;
pub mod security_headers;
pub mod store;
pub mod task_laws;
pub mod text;
pub mod time;
pub mod token;
pub mod token_laws;
pub mod totp;
pub mod user;
