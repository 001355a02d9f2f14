use ezpz::params::{
    parse_central_point, parse_constant_model_type, parse_deviation_model, parse_moving_average_type, parse_position,
    CentralPoint, ConstantModelType, DeviationModel, MovingAverageType, ParamError, Position,
};

#[test]
fn constant_model_names_ignore_case() {
    assert_eq!(parse_constant_model_type("simple_moving_average").unwrap(), ConstantModelType::SimpleMovingAverage);
    assert_eq!(parse_constant_model_type("SMOOTHED_MOVING_AVERAGE").unwrap(), ConstantModelType::SmoothedMovingAverage);
    assert_eq!(parse_constant_model_type("Exponential_Moving_Average").unwrap(), ConstantModelType::ExponentialMovingAverage);
    assert_eq!(parse_constant_model_type("simple_moving_MEDIAN").unwrap(), ConstantModelType::SimpleMovingMedian);
    assert_eq!(parse_constant_model_type("simple_moving_mode").unwrap(), ConstantModelType::SimpleMovingMode);
}

#[test]
fn constant_model_unknown_name_is_reported() {
    let err = parse_constant_model_type("InvalidModel").unwrap_err();
    assert!(matches!(err, ParamError::InvalidConstantModelType(ref s) if s == "InvalidModel"));
    assert_eq!(err.message(), "Invalid constant model type: InvalidModel");
    for bad in ["invalid_model", "invalid", "invalid_type", "", "simple_moving_average ", "s m a"] {
        assert!(parse_constant_model_type(bad).is_err(), "{bad}");
    }
}

#[test]
fn constant_model_short_names() {
    for name in ["sma", "SMA", "Simple", "SimpleMovingAverage", "mean", "arithmetic", "geometric", "harmonic"] {
        assert_eq!(parse_constant_model_type(name).unwrap(), ConstantModelType::SimpleMovingAverage, "{name}");
    }
    for name in ["ema", "wma", "ExponentialMovingAverage"] {
        assert_eq!(parse_constant_model_type(name).unwrap(), ConstantModelType::ExponentialMovingAverage, "{name}");
    }
    assert_eq!(parse_constant_model_type("SmoothedMovingAverage").unwrap(), ConstantModelType::SmoothedMovingAverage);
    for name in ["smma", "smoothed", "exponential", "median", "mode", "SimpleMovingMedian", "SimpleMovingMode"] {
        assert!(parse_constant_model_type(name).is_err(), "{name}");
    }
}

#[test]
fn deviation_model_short_names() {
    for name in ["std", "population", "sample"] {
        assert_eq!(parse_deviation_model(name).unwrap(), DeviationModel::StandardDeviation, "{name}");
    }
    assert_eq!(parse_deviation_model("mad").unwrap(), DeviationModel::MeanAbsoluteDeviation);
    let err = parse_deviation_model("invalid_model").unwrap_err();
    assert_eq!(err.message(), "Unsupported deviation model: invalid_model");
}

#[test]
fn deviation_model_names_are_exact() {
    assert_eq!(parse_deviation_model("standard_deviation").unwrap(), DeviationModel::StandardDeviation);
    assert_eq!(parse_deviation_model("mean_absolute_deviation").unwrap(), DeviationModel::MeanAbsoluteDeviation);
    assert_eq!(parse_deviation_model("median_absolute_deviation").unwrap(), DeviationModel::MedianAbsoluteDeviation);
    assert_eq!(parse_deviation_model("mode_absolute_deviation").unwrap(), DeviationModel::ModeAbsoluteDeviation);
    assert_eq!(parse_deviation_model("ulcer_index").unwrap(), DeviationModel::UlcerIndex);
    let err = parse_deviation_model("Standard_Deviation").unwrap_err();
    assert_eq!(err.message(), "Unsupported deviation model: Standard_Deviation");
}

#[test]
fn central_point_names() {
    assert_eq!(parse_central_point("mean").unwrap(), CentralPoint::Mean);
    assert_eq!(parse_central_point("Median").unwrap(), CentralPoint::Median);
    assert_eq!(parse_central_point("MODE").unwrap(), CentralPoint::Mode);
    let err = parse_central_point("invalid_central_point").unwrap_err();
    assert!(matches!(err, ParamError::InvalidCentralPoint));
    assert_eq!(err.message(), "central_point must be 'mean', 'median', or 'mode'");
}

#[test]
fn moving_average_names() {
    assert_eq!(parse_moving_average_type("simple").unwrap(), MovingAverageType::Simple);
    assert_eq!(parse_moving_average_type("Exponential").unwrap(), MovingAverageType::Exponential);
    assert_eq!(parse_moving_average_type("SMOOTHED").unwrap(), MovingAverageType::Smoothed);
    let err = parse_moving_average_type("weighted").unwrap_err();
    assert!(matches!(err, ParamError::UnsupportedMovingAverageType));
    assert_eq!(err.message(), "Unsupported moving average type");
}

#[test]
fn non_ascii_letters_do_not_match() {
    // U+017F LATIN SMALL LETTER LONG S stays non-ASCII when lower-cased.
    assert!(parse_moving_average_type("\u{17f}imple").is_err());
    // U+0130 lower-cases to two characters, so it can never stand for `i`.
    assert!(parse_central_point("med\u{130}an").is_err());
}

#[test]
fn ignoring_case_gives_the_same_answer() {
    for (a, b) in [("MeAn", "mean"), ("MEDIAN", "median"), ("Mode", "mODE")] {
        assert_eq!(parse_central_point(a).unwrap(), parse_central_point(b).unwrap());
    }
}

#[test]
fn position_names_are_exact() {
    assert_eq!(parse_position("Long").unwrap(), Position::Long);
    assert_eq!(parse_position("Short").unwrap(), Position::Short);
    let err = parse_position("long").unwrap_err();
    assert!(matches!(err, ParamError::InvalidPosition));
    assert_eq!(err.message(), "Invalid position. Use 'Long' or 'Short'");
    assert!(parse_position("").is_err());
}
