//! The decisions of a captcha plugin server: its click, slide and health
//! services, and the handshake with which the plugin announces itself.
pub mod job;
pub mod messages;
pub mod services;
pub mod plugin;
pub mod laws;
pub mod answers;
