pub mod api;
pub mod calendar;
pub mod check_in;
pub mod convert;
pub mod cycle;
pub mod desktop;
pub mod daily_execution;
pub mod error;
pub mod ids;
pub mod key_result;
pub mod logging;
pub mod objective;
pub mod parent_progression;
pub mod progress;
pub mod project;
pub mod repos;
pub mod review;
pub mod services;
pub mod status;
pub mod task;
pub mod text;
pub mod title;
pub mod util;
