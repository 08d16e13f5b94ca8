pub mod app;
pub mod panels;
pub mod tables;
