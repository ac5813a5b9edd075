use load_balancer::forward_service::forward_service_error::ForwardServiceErrorChecker;
use load_balancer::forward_service::forward_service_response::ForwardServiceError;
use load_balancer::http_client::error::{Error, HttpClientErrorChecker};
use load_balancer::wakanda_http_service::wakanda_http_service_error::WakandaHttpServiceErrorChecker;
use load_balancer::wakanda_http_service::wakanda_http_service_response::WakandaHttpServiceError;

struct FakeTransportError {
    timeout: bool,
    connect: bool,
    request: bool,
    message: String,
}

impl FakeTransportError {
    fn new(timeout: bool, connect: bool, request: bool, message: &str) -> Self {
        FakeTransportError { timeout, connect, request, message: message.to_string() }
    }
}

impl HttpClientErrorChecker for FakeTransportError {
    fn is_timeout(&self) -> bool {
        self.timeout
    }

    fn is_connect(&self) -> bool {
        self.connect
    }

    fn is_request(&self) -> bool {
        self.request
    }

    fn error_string(&self) -> String {
        self.message.clone()
    }
}

impl ForwardServiceErrorChecker for FakeTransportError {
    fn is_timeout(&self) -> bool {
        self.timeout
    }

    fn is_connect(&self) -> bool {
        self.connect
    }

    fn is_request(&self) -> bool {
        self.request
    }

    fn error_string(&self) -> String {
        self.message.clone()
    }
}

impl WakandaHttpServiceErrorChecker for FakeTransportError {
    fn is_timeout(&self) -> bool {
        self.timeout
    }

    fn is_connect(&self) -> bool {
        self.connect
    }

    fn is_request(&self) -> bool {
        self.request
    }

    fn error_string(&self) -> String {
        self.message.clone()
    }
}

#[test]
fn reqwest_http_client_converts_reqwest_errors_into_domain_variants() {
    let mock = FakeTransportError::new(true, false, false, "");
    let result = Error::from_checker(&mock);
    assert!(matches!(result, Error::Timeout));

    let mock = FakeTransportError::new(false, true, false, "connect error");
    let result = Error::from_checker(&mock);
    assert!(matches!(result, Error::Network(_)));

    let mock = FakeTransportError::new(false, false, true, "request error");
    let result = Error::from_checker(&mock);
    assert!(matches!(result, Error::Network(_)));

    let mock = FakeTransportError::new(false, false, false, "other error");
    let result = Error::from_checker(&mock);
    assert!(matches!(result, Error::InvalidRequest(_)));
}

#[test]
fn reqwest_forward_service_converts_reqwest_errors_into_domain_variants() {
    let mock = FakeTransportError::new(true, false, false, "");
    let result = ForwardServiceError::from_checker(&mock);
    assert!(matches!(result, ForwardServiceError::Timeout));

    let mock = FakeTransportError::new(false, true, false, "connect error");
    let result = ForwardServiceError::from_checker(&mock);
    assert!(matches!(result, ForwardServiceError::Network(_)));

    let mock = FakeTransportError::new(false, false, true, "request error");
    let result = ForwardServiceError::from_checker(&mock);
    assert!(matches!(result, ForwardServiceError::Network(_)));

    let mock = FakeTransportError::new(false, false, false, "other error");
    let result = ForwardServiceError::from_checker(&mock);
    assert!(matches!(result, ForwardServiceError::InvalidRequest(_)));
}

#[test]
fn reqwest_http_service_converts_reqwest_errors_into_domain_variants() {
    let mock = FakeTransportError::new(true, false, false, "");
    let result = WakandaHttpServiceError::from_checker(&mock);
    assert!(matches!(result, WakandaHttpServiceError::Timeout));

    let mock = FakeTransportError::new(false, true, false, "connect error");
    let result = WakandaHttpServiceError::from_checker(&mock);
    assert!(matches!(result, WakandaHttpServiceError::Network(_)));

    let mock = FakeTransportError::new(false, false, true, "request error");
    let result = WakandaHttpServiceError::from_checker(&mock);
    assert!(matches!(result, WakandaHttpServiceError::Network(_)));

    let mock = FakeTransportError::new(false, false, false, "other error");
    let result = WakandaHttpServiceError::from_checker(&mock);
    assert!(matches!(result, WakandaHttpServiceError::InvalidRequest(_)));
}

#[test]
fn classification_keeps_the_transport_message() {
    let result = load_balancer::http_client::error::classify_error(
        false,
        true,
        false,
        "connection refused".to_string(),
    );
    match result {
        Error::Network(message) => assert_eq!(message, "connection refused"),
        other => panic!("expected a network error, got {:?}", other),
    }

    let result = load_balancer::http_client::error::classify_error(
        false,
        false,
        false,
        "bad header".to_string(),
    );
    match result {
        Error::InvalidRequest(message) => assert_eq!(message, "bad header"),
        other => panic!("expected an invalid request, got {:?}", other),
    }
}

#[test]
fn timeout_wins_over_other_findings() {
    let result =
        load_balancer::http_client::error::classify_error(true, true, true, "late".to_string());
    assert!(matches!(result, Error::Timeout));
}
