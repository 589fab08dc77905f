pub mod handlers;
pub mod viewhelpers;
pub mod viewmodels;
