pub mod cli;
pub mod spotify;
