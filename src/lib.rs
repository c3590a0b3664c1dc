//! Core of a minimal text-console login manager: the login attempt
//! controller, the privilege-demotion plan of the session child, the
//! active-session record format, the terminal prompt discipline and the
//! console activation decisions.
pub mod auth;
pub mod config;
pub mod console;
pub mod registry;
pub mod session;
pub mod terminal;
