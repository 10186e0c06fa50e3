//! Tokens: the bearer header form and the signed compact form.
pub mod bearer;
pub mod jws_compact;
