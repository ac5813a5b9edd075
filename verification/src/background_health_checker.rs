pub mod timed_background_health_checker;
