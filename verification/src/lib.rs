pub mod cli;
pub mod downloader;
pub mod errors;
pub mod metadata;
pub mod models;
pub mod paths;
pub mod planner;
pub mod spotify;
pub mod state;
pub mod text;
