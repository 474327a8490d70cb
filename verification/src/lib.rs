//! Decision core of a theme preview server.
pub mod config;
pub mod document;
pub mod encode;
pub mod framework;
pub mod media;
pub mod page;
pub mod port;
pub mod proxy;
pub mod ready;
pub mod server;
pub mod song;
pub mod text;
pub mod watch;
