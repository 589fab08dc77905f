//! HARetroPanel: the decisions, view models and text handling behind a
//! server-rendered Home Assistant dashboard, with their contracts.

pub mod application;
pub mod config;
pub mod domain;
pub mod infrastructure;
pub mod shared;
pub mod text;
