pub mod config;
pub mod polygon;
pub mod text;
