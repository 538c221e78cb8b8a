pub mod text;
pub mod num;
pub mod greader;
pub mod article;
pub mod greader_stream;
pub mod greader_actions;
pub mod config;
pub mod api_client;
pub mod tui_app;
pub mod api;
pub mod app;
pub mod crypto;
pub mod access_key;
pub mod auth;
pub mod user;
pub mod fever;
pub mod html;
pub mod feeds;
pub mod json;
pub mod jobs;
pub mod api_config;
pub mod ai;
pub mod subscriptions;
pub mod startup;
pub mod cli;
pub mod share;
pub mod ui_text;
pub mod log_events;
