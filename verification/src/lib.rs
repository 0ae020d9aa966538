//! Chrono Forge: a personal time tracker.
//!
//! The library holds the tracker's domain: projects, tasks, time entries, the
//! running timer, the user's settings, the rules by which names are made unique,
//! the reports, and the conversions between the domain and its stored and
//! exported forms. Everything here is verified; reading and writing files,
//! the database and the terminal is left to the program around it.

pub mod text;
pub mod naming_service;
pub mod types;
pub mod errors;
pub mod records;
pub mod in_memory_project_repository;
pub mod in_memory_task_repository;
pub mod in_memory_time_entry_repository;
pub mod clock;
pub mod ids;
pub mod in_memory_active_timer_repository;
pub mod in_memory_user_settings_repository;
pub mod project_service;
pub mod task_service;
pub mod time_entry_service;
pub mod user_settings_service;
pub mod report_service;
pub mod csv_rows;
pub mod csv_serializer;
pub mod db_rows;
pub mod config;
pub mod serialization_meta;
pub mod app_context;
pub mod app_error;
pub mod app_view_context;
pub mod cli;
pub mod laws;
