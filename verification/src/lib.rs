//! Verified core of a cron job monitoring service: jobs with a cron schedule and
//! a leeway window, the scheduler that tracks them, the de-duplication of missed
//! check-in alerts, and the answers of the HTTP API.

pub mod time;
pub mod schedule;
pub mod ids;
pub mod job;
pub mod scheduler;
pub mod comm;
pub mod repository;
pub mod service;
pub mod api;
pub mod laws;
