//! Routing of URL-open requests to browsers and browser profiles, driven by a
//! small rule set, together with the picker's page and window bookkeeping.

pub mod storage;
pub mod text;
pub mod resolver;
pub mod message;
pub mod navigation;
pub mod gomi;
pub mod config;
pub mod subscriptions;
pub mod icon;
pub mod rule_manager;
pub mod discovery;
