use brasilapi::error::{ApiError, Response};

fn transport_error() -> reqwest::Error {
    match reqwest::Proxy::http("") {
        Ok(_) => panic!("an empty proxy address was accepted"),
        Err(error) => error,
    }
}

fn decode_error() -> serde_json::Error {
    match serde_json::from_str::<serde_json::Value>("{") {
        Ok(_) => panic!("an unfinished document was accepted"),
        Err(error) => error,
    }
}

#[test]
fn statuses_from_200_to_299_are_successes() {
    assert!(Response::new(200, String::new()).is_success());
    assert!(Response::new(204, String::new()).is_success());
    assert!(Response::new(299, String::new()).is_success());
}

#[test]
fn statuses_outside_200_to_299_are_failures() {
    assert!(!Response::new(0, String::new()).is_success());
    assert!(!Response::new(101, String::new()).is_success());
    assert!(!Response::new(199, String::new()).is_success());
    assert!(!Response::new(300, String::new()).is_success());
    assert!(!Response::new(404, String::new()).is_success());
    assert!(!Response::new(500, String::new()).is_success());
    assert!(!Response::new(u16::MAX, String::new()).is_success());
}

#[test]
fn a_successful_response_passes_through_unchanged() {
    let result = ApiError::from_response(Response::new(200, String::from("[]")));
    match result {
        Ok(response) => {
            assert_eq!(response.status, 200);
            assert_eq!(response.body, "[]");
        }
        Err(_) => panic!("a success status was turned into an error"),
    }
}

#[test]
fn a_failed_response_becomes_an_application_failure() {
    let body = "{\"message\":\"UF não encontrada\",\"type\":\"not_found\"}";
    let result = ApiError::from_response(Response::new(404, String::from(body)));
    match result {
        Err(ApiError::ApplicationFailure { status, body: carried }) => {
            assert_eq!(status, 404);
            assert_eq!(carried, body);
        }
        _ => panic!("a failure status did not give an application failure"),
    }
}

#[test]
fn the_edges_of_the_success_class_are_told_apart() {
    assert!(matches!(
        ApiError::from_response(Response::new(199, String::new())),
        Err(ApiError::ApplicationFailure { status: 199, .. })
    ));
    assert!(ApiError::from_response(Response::new(200, String::new())).is_ok());
    assert!(ApiError::from_response(Response::new(299, String::new())).is_ok());
    assert!(matches!(
        ApiError::from_response(Response::new(300, String::new())),
        Err(ApiError::ApplicationFailure { status: 300, .. })
    ));
}

#[test]
fn a_server_error_becomes_an_application_failure() {
    assert!(matches!(
        ApiError::from_response(Response::new(500, String::from("oops"))),
        Err(ApiError::ApplicationFailure { status: 500, .. })
    ));
}

#[test]
fn a_transport_error_is_wrapped() {
    let cause = transport_error();
    let text = cause.to_string();
    match ApiError::from_error(cause) {
        ApiError::TransportFailure(carried) => assert_eq!(carried.to_string(), text),
        _ => panic!("a transport error was not wrapped as a transport failure"),
    }
}

#[test]
fn a_reply_without_response_is_a_transport_failure() {
    let cause = transport_error();
    let text = cause.to_string();
    match ApiError::from_reply(Err(cause)) {
        Err(ApiError::TransportFailure(carried)) => assert_eq!(carried.to_string(), text),
        _ => panic!("a missing response did not give a transport failure"),
    }
}

#[test]
fn a_reply_with_a_successful_response_is_that_response() {
    match ApiError::from_reply(Ok(Response::new(200, String::from("{}")))) {
        Ok(response) => {
            assert_eq!(response.status, 200);
            assert_eq!(response.body, "{}");
        }
        Err(_) => panic!("a successful reply was turned into an error"),
    }
}

#[test]
fn a_reply_with_a_failed_response_is_an_application_failure() {
    match ApiError::from_reply(Ok(Response::new(404, String::from("not found")))) {
        Err(ApiError::ApplicationFailure { status, body }) => {
            assert_eq!(status, 404);
            assert_eq!(body, "not found");
        }
        _ => panic!("a failed reply did not give an application failure"),
    }
}

#[test]
fn a_decoded_value_is_returned_as_it_is() {
    let decoded: Result<Vec<u8>, serde_json::Error> = Ok(vec![1, 2, 3]);
    match ApiError::from_decoded(decoded) {
        Ok(value) => assert_eq!(value, vec![1, 2, 3]),
        Err(_) => panic!("a decoded value was turned into an error"),
    }
}

#[test]
fn a_decoder_error_becomes_a_deserialization_failure() {
    let cause = decode_error();
    let text = cause.to_string();
    let decoded: Result<Vec<u8>, serde_json::Error> = Err(cause);
    match ApiError::from_decoded(decoded) {
        Err(ApiError::DeserializationFailure(carried)) => assert_eq!(carried.to_string(), text),
        _ => panic!("a decoder error did not give a deserialization failure"),
    }
}
