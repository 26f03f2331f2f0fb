use mariam_flow::estimation::linear_v1::{LinearV1Model, LinearV1Params};
use mariam_flow::estimation::model::{EstimationModel, Model, OccupancyConfig};
use mariam_flow::estimation::remote::{
    parse_http_url, remote_estimate, split_http_response, RemoteError, RemoteResponse,
};
use mariam_flow::state::{SensorObstruction, WaitTimeErrorCode, WaitTimeStatus};

fn obstruction(sensor_id: u32, obstructed: Option<bool>) -> SensorObstruction {
    SensorObstruction { sensor_id, obstructed, timestamp: 0 }
}

#[test]
fn url_with_port_and_path_is_parsed() {
    let url = parse_http_url("http://predictor.local:9000/api/predict").expect("url is valid");
    assert_eq!(url.host, "predictor.local");
    assert_eq!(url.port, 9000);
    assert_eq!(url.path, "/api/predict");
}

#[test]
fn url_defaults_to_port_80_and_root_path() {
    let url = parse_http_url("http://predictor.local").expect("url is valid");
    assert_eq!(url.host, "predictor.local");
    assert_eq!(url.port, 80);
    assert_eq!(url.path, "/");
}

#[test]
fn url_without_http_prefix_is_rejected() {
    let result = parse_http_url("https://predictor.local/api");
    assert!(matches!(result, Err(RemoteError::InvalidUrl(_))));
}

#[test]
fn url_without_host_is_rejected() {
    let result = parse_http_url("http:///api");
    assert!(matches!(result, Err(RemoteError::InvalidUrl(_))));
}

#[test]
fn url_with_bad_port_is_rejected() {
    let result = parse_http_url("http://predictor.local:banana/api");
    assert!(matches!(result, Err(RemoteError::InvalidUrl(_))));
    let result = parse_http_url("http://predictor.local:99999/api");
    assert!(matches!(result, Err(RemoteError::InvalidUrl(_))));
}

#[test]
fn response_body_is_split_off() {
    let raw = "HTTP/1.1 200 OK\r\nContent-Type: application/json\r\n\r\n{\"status\":\"ok\"}";
    let body = split_http_response(raw).expect("response is well formed");
    assert_eq!(body, "{\"status\":\"ok\"}");
}

#[test]
fn response_with_error_status_is_rejected() {
    let raw = "HTTP/1.1 404 Not Found\r\n\r\nmissing";
    match split_http_response(raw) {
        Err(RemoteError::Http(code, body)) => {
            assert_eq!(code, 404);
            assert_eq!(body, "missing");
        }
        _ => panic!("expected http error"),
    }
}

#[test]
fn malformed_response_is_rejected() {
    match split_http_response("not an http response") {
        Err(RemoteError::Http(code, _)) => assert_eq!(code, 0),
        _ => panic!("expected http error"),
    }
}

#[test]
fn remote_response_is_used_as_is() {
    let outcome = Some(RemoteResponse {
        wait_time_milli_minutes: Some(17_500),
        status: WaitTimeStatus::Nominal,
        error_code: None,
    });

    let estimate = remote_estimate(&outcome, &None, &vec![obstruction(1, Some(true))], 99);

    assert_eq!(estimate.wait_time_milli_minutes, Some(17_500));
    assert_eq!(estimate.timestamp, 99);
    assert_eq!(estimate.status, WaitTimeStatus::Nominal);
    assert_eq!(estimate.error_code, None);
}

#[test]
fn failed_call_delegates_to_fallback_exactly() {
    let fallback = Model::LinearV1(LinearV1Model::new(
        LinearV1Params {
            slope_milli: 500,
            intercept_milli: 5_000,
            min_wait_minutes: None,
            max_wait_minutes: None,
        },
        OccupancyConfig::default(),
    ));
    let obstructions = vec![obstruction(1, Some(true)), obstruction(2, Some(false))];

    let expected = fallback.compute_wait_time(&obstructions, 123);
    let estimate = remote_estimate(&None, &Some(fallback), &obstructions, 123);

    assert_eq!(estimate, expected);
    assert_eq!(estimate.wait_time_milli_minutes, Some(30_000));
    assert!(matches!(estimate.error_code, None));
}

#[test]
fn failed_call_without_fallback_degrades_to_no_data() {
    let obstructions = vec![obstruction(1, Some(true))];

    let estimate = remote_estimate(&None, &None, &obstructions, 5);

    assert_eq!(estimate.wait_time_milli_minutes, None);
    assert_eq!(estimate.status, WaitTimeStatus::Degraded);
    assert_eq!(estimate.error_code, Some(WaitTimeErrorCode::NoData));
    assert_eq!(estimate.timestamp, 5);
}
