//! The decisions behind two parts of yral-auth: the page that the OAuth provider sends the
//! browser back to, and the deployment of the server to its hosts.
//!
//! Nothing here talks to the outside. The page's framework, the programs that a deployment runs
//! and the environment that it reads stay with the callers, who hand over plain values and carry
//! out what comes back.

pub mod callback;
pub mod commands;
pub mod hosts;
pub mod plan;
pub mod quoting;
pub mod run;
pub mod secrets;
