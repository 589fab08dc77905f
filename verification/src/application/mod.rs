pub mod services;
