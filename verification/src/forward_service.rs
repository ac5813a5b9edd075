pub mod forward_service_error;
pub mod forward_service_request;
pub mod forward_service_response;
