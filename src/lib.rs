pub mod text;
pub mod paths;
pub mod config;
pub mod scenario;
