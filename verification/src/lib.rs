pub mod authenticator;
pub mod checker;
pub mod foundation;
pub mod launcher;
pub mod loader;
pub mod network;
pub mod providers;
pub mod resolver;
