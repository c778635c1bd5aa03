//! The Token Saver commands: `/tokensaverstats` shows how many tokens the `rtk` program has saved,
//! and `/tokensaver <key>` activates the sync of the savings with the Token Saver portal.
//!
//! The library decides what is parsed, shown, run, sent and stored; its caller starts the threads
//! and processes, talks to the network and writes the files.
pub mod activation;
pub mod app;
pub mod command;
pub mod credentials;
pub mod json;
pub mod portal;
pub mod redact;
pub mod rtk;
pub mod stats;
pub mod text;
