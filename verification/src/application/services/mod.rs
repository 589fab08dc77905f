pub mod dashboard_service;

pub use dashboard_service::{DashboardCacheConfig, DashboardService};
