use load_balancer::forward_service::forward_service_request::ForwardServiceRequestHttpMethod;
use load_balancer::http_client::request::{RequestError, RequestMethod};
use load_balancer::wakanda_http_service::wakanda_http_service_request::WakandaHttpServiceRequestHttpMethod;

#[test]
fn http_client_request_http_method_to_string() {
    let methods = [
        RequestMethod::Get,
        RequestMethod::Post,
        RequestMethod::Put,
        RequestMethod::Delete,
        RequestMethod::Patch,
    ];

    let expected = ["GET", "POST", "PUT", "DELETE", "PATCH"];

    for (method, &expected_str) in methods.iter().zip(expected.iter()) {
        assert_eq!(method.as_str(), expected_str);
    }
}

#[test]
fn forward_service_request_http_method_to_string() {
    let methods = [
        ForwardServiceRequestHttpMethod::Get,
        ForwardServiceRequestHttpMethod::Post,
        ForwardServiceRequestHttpMethod::Put,
        ForwardServiceRequestHttpMethod::Delete,
        ForwardServiceRequestHttpMethod::Patch,
    ];

    let expected = ["GET", "POST", "PUT", "DELETE", "PATCH"];

    for (method, &expected_str) in methods.iter().zip(expected.iter()) {
        assert_eq!(method.as_str(), expected_str);
    }
}

#[test]
fn wakanda_http_service_request_http_method_to_string() {
    let methods = [
        WakandaHttpServiceRequestHttpMethod::Get,
        WakandaHttpServiceRequestHttpMethod::Post,
        WakandaHttpServiceRequestHttpMethod::Put,
        WakandaHttpServiceRequestHttpMethod::Delete,
        WakandaHttpServiceRequestHttpMethod::Patch,
    ];

    let expected = ["GET", "POST", "PUT", "DELETE", "PATCH"];

    for (method, &expected_str) in methods.iter().zip(expected.iter()) {
        assert_eq!(method.as_str(), expected_str);
    }
}

#[test]
fn parses_every_supported_method_name() {
    assert_eq!(RequestMethod::from_name("GET").unwrap(), RequestMethod::Get);
    assert_eq!(RequestMethod::from_name("POST").unwrap(), RequestMethod::Post);
    assert_eq!(RequestMethod::from_name("PUT").unwrap(), RequestMethod::Put);
    assert_eq!(RequestMethod::from_name("DELETE").unwrap(), RequestMethod::Delete);
    assert_eq!(RequestMethod::from_name("PATCH").unwrap(), RequestMethod::Patch);
}

#[test]
fn rejects_unsupported_method_names() {
    let err = RequestMethod::from_name("OPTIONS").unwrap_err();
    match err {
        RequestError::UnsupportedMethod(m) => assert_eq!(m, "OPTIONS".to_string()),
    }

    let err = RequestMethod::from_name("get").unwrap_err();
    match err {
        RequestError::UnsupportedMethod(m) => assert_eq!(m, "get".to_string()),
    }
}

#[test]
fn unsupported_method_is_answered_as_internal_error() {
    let err = RequestMethod::from_name("OPTIONS").unwrap_err();
    assert_eq!(err.status_code(), 500);
}
