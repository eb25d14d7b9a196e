//! Ghost: a bot that watches self-hosted web services and social notifications,
//! and reports changes to a chat room.

pub mod health_monitor;
pub mod status_checker;
pub mod text;
pub mod toml_doc;
pub mod notification;
pub mod handler;
