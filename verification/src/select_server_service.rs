pub mod random_select_server_service;
pub mod round_robin_select_server_service;
pub mod select_server_service;
pub mod select_server_service_error;
pub mod select_server_service_request;
pub mod select_server_service_response;
