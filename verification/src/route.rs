pub mod forward;
pub mod health;
