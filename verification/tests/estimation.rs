use mariam_flow::errors::AppError;
use mariam_flow::estimation::linear_v1::{LinearV1Model, LinearV1Params};
use mariam_flow::estimation::linear_v2::{LinearV2Model, LinearV2Params};
use mariam_flow::estimation::model::{
    occupancy_from_obstructions, EstimationModel, Model, OccupancyConfig,
};
use mariam_flow::estimation::obstruction_count_v1::{ObstructionCountModel, ObstructionCountParams};
use mariam_flow::estimation::{
    create_model, obstructions_from_readings, run_refresh_cycle, CalibrationError, CalibrationFile,
    CalibrationValues,
};
use mariam_flow::sensor::SensorRangeStatus;
use mariam_flow::state::{
    AppState, OccupancyStatus, ReadingStatus, SensorObstruction, SensorReading, WaitTimeErrorCode,
    WaitTimeStatus,
};

fn ok_reading(sensor_id: u32, distance_mm: u16) -> SensorReading {
    SensorReading {
        sensor_id,
        distance_mm,
        timestamp: 0,
        status: ReadingStatus::Valid { range_status: SensorRangeStatus::Valid },
    }
}

fn error_reading(sensor_id: u32) -> SensorReading {
    SensorReading {
        sensor_id,
        distance_mm: 0,
        timestamp: 0,
        status: ReadingStatus::Error { reason: "read failed".to_string() },
    }
}

fn obstruction(sensor_id: u32, obstructed: Option<bool>) -> SensorObstruction {
    SensorObstruction { sensor_id, obstructed, timestamp: 0 }
}

fn empty_values() -> CalibrationValues {
    CalibrationValues {
        slope_milli: None,
        intercept_milli: None,
        wait_time_at_empty_milli: None,
        wait_time_at_full_milli: None,
        base_milli: None,
        per_obstruction_milli: None,
        min_wait_minutes: None,
        max_wait_minutes: None,
    }
}

#[test]
fn obstructions_use_threshold_and_track_errors() {
    let readings = vec![ok_reading(1, 999), ok_reading(2, 1001), error_reading(3)];

    let (obstructions, valid_count, error_count) = obstructions_from_readings(&readings, 1000);

    assert_eq!(valid_count, 2);
    assert_eq!(error_count, 1);
    assert_eq!(obstructions.len(), 3);
    assert_eq!(obstructions[0].sensor_id, 1);
    assert_eq!(obstructions[0].obstructed, Some(true));
    assert_eq!(obstructions[1].sensor_id, 2);
    assert_eq!(obstructions[1].obstructed, Some(false));
    assert_eq!(obstructions[2].sensor_id, 3);
    assert_eq!(obstructions[2].obstructed, None);
}

#[test]
fn obstruction_threshold_is_inclusive() {
    let readings = vec![ok_reading(1, 1200)];
    let (obstructions, _, _) = obstructions_from_readings(&readings, 1200);
    assert_eq!(obstructions[0].obstructed, Some(true));
}

#[test]
fn occupancy_mixed_valid_and_error_is_degraded() {
    let obstructions = vec![
        obstruction(1, Some(true)),
        obstruction(2, Some(false)),
        obstruction(3, None),
    ];

    let occupancy = occupancy_from_obstructions(&obstructions, 0);

    assert_eq!(occupancy.occupancy_milli_percent, Some(50_000));
    assert_eq!(occupancy.status, OccupancyStatus::Degraded);
}

#[test]
fn occupancy_all_valid_is_nominal() {
    let obstructions = vec![obstruction(1, Some(true)), obstruction(2, Some(true))];

    let occupancy = occupancy_from_obstructions(&obstructions, 0);

    assert_eq!(occupancy.occupancy_milli_percent, Some(100_000));
    assert_eq!(occupancy.status, OccupancyStatus::Nominal);
}

#[test]
fn occupancy_no_data_returns_none() {
    let obstructions = vec![obstruction(1, None), obstruction(2, None)];

    let occupancy = occupancy_from_obstructions(&obstructions, 0);

    assert_eq!(occupancy.occupancy_milli_percent, None);
    assert_eq!(occupancy.status, OccupancyStatus::NoData);
}

#[test]
fn wait_time_uses_slope_intercept() {
    let model = LinearV1Model::new(
        LinearV1Params {
            slope_milli: 500,
            intercept_milli: 5_000,
            min_wait_minutes: None,
            max_wait_minutes: None,
        },
        OccupancyConfig::default(),
    );
    let obstructions = vec![obstruction(1, Some(true)), obstruction(2, Some(false))];

    let estimate = model.compute_wait_time(&obstructions, 0);

    // 5.0 + 0.5 * 50 = 30.0 minutes
    assert_eq!(estimate.wait_time_milli_minutes, Some(30_000));
    assert_eq!(estimate.status, WaitTimeStatus::Nominal);
    assert_eq!(estimate.error_code, None);
}

#[test]
fn wait_time_respects_bounds() {
    let model = LinearV1Model::new(
        LinearV1Params {
            slope_milli: 1_000,
            intercept_milli: 0,
            min_wait_minutes: Some(5),
            max_wait_minutes: Some(30),
        },
        OccupancyConfig::default(),
    );

    let low = vec![obstruction(1, Some(false))];
    let high = vec![obstruction(1, Some(true))];

    let low_est = model.compute_wait_time(&low, 0);
    let high_est = model.compute_wait_time(&high, 0);

    assert_eq!(low_est.wait_time_milli_minutes, Some(5_000));
    assert_eq!(high_est.wait_time_milli_minutes, Some(30_000));
}

#[test]
fn wait_time_is_degraded_on_partial_data() {
    let model = LinearV1Model::with_defaults();
    let obstructions = vec![obstruction(1, Some(true)), obstruction(2, None)];

    let estimate = model.compute_wait_time(&obstructions, 0);

    assert!(estimate.wait_time_milli_minutes.is_some());
    assert_eq!(estimate.status, WaitTimeStatus::Degraded);
    assert_eq!(estimate.error_code, None);
}

#[test]
fn linear_v1_no_data_returns_degraded() {
    let model = LinearV1Model::with_defaults();
    let obstructions = vec![obstruction(1, None), obstruction(2, None)];

    let estimate = model.compute_wait_time(&obstructions, 0);

    assert_eq!(estimate.wait_time_milli_minutes, None);
    assert_eq!(estimate.status, WaitTimeStatus::Degraded);
    assert_eq!(estimate.error_code, Some(WaitTimeErrorCode::NoData));
}

#[test]
fn wait_time_interpolates_correctly() {
    let model = LinearV2Model::new(
        LinearV2Params { wait_time_at_empty_milli: 5_000, wait_time_at_full_milli: 15_000 },
        OccupancyConfig::default(),
    );

    // 0% -> 5.0 minutes
    let empty = vec![obstruction(1, Some(false)), obstruction(2, Some(false))];
    assert_eq!(model.compute_wait_time(&empty, 0).wait_time_milli_minutes, Some(5_000));

    // 50% -> 10.0 minutes
    let half = vec![obstruction(1, Some(true)), obstruction(2, Some(false))];
    assert_eq!(model.compute_wait_time(&half, 0).wait_time_milli_minutes, Some(10_000));

    // 100% -> 15.0 minutes
    let full = vec![obstruction(1, Some(true)), obstruction(2, Some(true))];
    assert_eq!(model.compute_wait_time(&full, 0).wait_time_milli_minutes, Some(15_000));
}

#[test]
fn linear_v2_no_data_returns_degraded() {
    let model = LinearV2Model::new(LinearV2Params::default(), OccupancyConfig::default());
    let obstructions = vec![obstruction(1, None)];

    let estimate = model.compute_wait_time(&obstructions, 0);

    assert_eq!(estimate.wait_time_milli_minutes, None);
    assert_eq!(estimate.status, WaitTimeStatus::Degraded);
    assert_eq!(estimate.error_code, Some(WaitTimeErrorCode::NoData));
}

#[test]
fn wait_time_scales_with_obstructions() {
    let model = ObstructionCountModel::new(
        ObstructionCountParams {
            base_milli: 2_000,
            per_obstruction_milli: 3_000,
            min_wait_minutes: None,
            max_wait_minutes: None,
        },
        OccupancyConfig::default(),
    );

    let obstructions = vec![
        obstruction(1, Some(true)),
        obstruction(2, Some(false)),
        obstruction(3, Some(true)),
    ];

    let estimate = model.compute_wait_time(&obstructions, 0);
    assert_eq!(estimate.wait_time_milli_minutes, Some(8_000));
    assert_eq!(estimate.status, WaitTimeStatus::Nominal);
}

#[test]
fn obstruction_count_v1_no_data_returns_degraded() {
    let model = ObstructionCountModel::with_defaults();
    let obstructions = vec![obstruction(1, None), obstruction(2, None)];

    let estimate = model.compute_wait_time(&obstructions, 0);
    assert_eq!(estimate.wait_time_milli_minutes, None);
    assert_eq!(estimate.status, WaitTimeStatus::Degraded);
    assert_eq!(estimate.error_code, Some(WaitTimeErrorCode::NoData));
}

#[test]
fn create_model_builds_linear_v1() {
    let file = CalibrationFile {
        model: "linear_v1".to_string(),
        occupancy_threshold_mm: Some(1000),
        sensor_min_mm: None,
        sensor_max_mm: None,
        params: CalibrationValues {
            slope_milli: Some(500),
            intercept_milli: Some(5_000),
            ..empty_values()
        },
    };

    let model = create_model(&file).expect("calibration is valid");
    assert_eq!(model.occupancy_config().threshold_mm, 1000);
    assert_eq!(model.occupancy_config().sensor_min_mm, 40);
    assert_eq!(model.occupancy_config().sensor_max_mm, 4000);
    assert!(matches!(model, Model::LinearV1(_)));
}

#[test]
fn create_model_rejects_unknown_model() {
    let file = CalibrationFile {
        model: "polynomial_v9".to_string(),
        occupancy_threshold_mm: None,
        sensor_min_mm: None,
        sensor_max_mm: None,
        params: empty_values(),
    };

    let result = create_model(&file);
    match result {
        Err(CalibrationError::Invalid(message)) => {
            assert_eq!(message, "unknown model: polynomial_v9");
        }
        _ => panic!("expected invalid calibration"),
    }
}

#[test]
fn create_model_rejects_missing_params() {
    let file = CalibrationFile {
        model: "linear_v2".to_string(),
        occupancy_threshold_mm: None,
        sensor_min_mm: None,
        sensor_max_mm: None,
        params: empty_values(),
    };

    assert!(matches!(create_model(&file), Err(CalibrationError::Parse(_))));
}

#[test]
fn create_model_rejects_out_of_range_params() {
    let file = CalibrationFile {
        model: "linear_v1".to_string(),
        occupancy_threshold_mm: None,
        sensor_min_mm: None,
        sensor_max_mm: None,
        params: CalibrationValues {
            slope_milli: Some(2_000_000_000),
            intercept_milli: Some(0),
            ..empty_values()
        },
    };

    assert!(matches!(create_model(&file), Err(CalibrationError::Invalid(_))));
}

#[test]
fn refresh_cycle_derives_obstructions_and_estimate() -> Result<(), AppError> {
    let mut state = AppState::new();
    let _rx = state.subscribe_obstructions();
    state.set_readings(vec![ok_reading(1, 500), ok_reading(2, 2000), error_reading(3)])?;

    let model = Model::LinearV1(LinearV1Model::new(
        LinearV1Params {
            slope_milli: 200,
            intercept_milli: 0,
            min_wait_minutes: None,
            max_wait_minutes: None,
        },
        OccupancyConfig { threshold_mm: 1200, sensor_min_mm: 40, sensor_max_mm: 4000 },
    ));

    run_refresh_cycle(&mut state, &model, 42)?;

    let obstructions = state.obstructions();
    assert_eq!(obstructions.len(), 3);
    assert_eq!(obstructions[0].obstructed, Some(true));
    assert_eq!(obstructions[1].obstructed, Some(false));
    assert_eq!(obstructions[2].obstructed, None);

    let estimate = state.wait_time().expect("estimate written");
    assert_eq!(estimate.timestamp, 42);
    // one of two usable sensors obstructed: 0.2 * 50 = 10.0 minutes
    assert_eq!(estimate.wait_time_milli_minutes, Some(10_000));
    assert_eq!(estimate.status, WaitTimeStatus::Degraded);
    Ok(())
}
