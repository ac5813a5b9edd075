pub mod error;
pub mod random_select_server;
pub mod request;
pub mod response;
pub mod round_robin_select_server;
pub mod select_server;
