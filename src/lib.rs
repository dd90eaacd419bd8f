pub mod config;
pub mod grade;
pub mod mail;
pub mod note;
pub mod poll;
pub mod scrape;
pub mod snapshot;
