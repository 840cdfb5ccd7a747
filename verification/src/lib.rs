//! Token capture for a scripted browser login: the rules that decide which
//! outgoing request carries the token, how the login script advances, and how
//! one attempt is summed up.

pub mod attempt;
pub mod credentials;
pub mod extractor;
pub mod flow;
pub mod identifiers;
pub mod launch;
pub mod meta;
pub mod outside;
pub mod text;
