pub mod wakanda_http_service_error;
pub mod wakanda_http_service_request;
pub mod wakanda_http_service_response;
