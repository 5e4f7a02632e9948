//! Core of a plugin-marketplace backend: the backup engine (operation
//! registry, exclusive admission of backup and restore operations, the
//! lifecycle of one backup, recurring schedules) together with the request
//! records, configuration records and input validation that surround it.
//!
//! Everything here is plain computation over plain values. Databases, child
//! processes, the file system and the clock belong to the embedding
//! application, which hands their results in and carries the decisions out.

pub mod admin;
pub mod auth;
pub mod backup;
pub mod calendar;
pub mod config;
pub mod listing;
pub mod monitoring;
pub mod plugin;
pub mod rate_limit;
pub mod rating;
pub mod registry;
pub mod runner;
pub mod schedule;
pub mod service;
pub mod smtp;
pub mod stats;
pub mod storage;
pub mod text;
pub mod user;
pub mod validation;
