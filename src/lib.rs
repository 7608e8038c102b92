//! Cron-driven job scheduling with per-job failure isolation, together with
//! the small text-shaping pieces that the jobs publish.

pub mod clock;
pub mod runner;
pub mod markdown;
pub mod url_builder;
pub mod config;
pub mod gist;
