pub mod ha;
pub mod web;
