//! Parsing of the textual model names that the indicator entry points accept.
//!
//! Constant models, central points and moving-average kinds are matched
//! without regard to ASCII case; deviation models are matched exactly.
//! Besides its full name, a constant model answers to the names the
//! indicators document and exercise (`sma`, `ema`, `wma`, `Simple`,
//! `SimpleMovingAverage`, ...), and a deviation model to `std`, `mad`,
//! `population` and `sample`.
//! None of the accepted names contains the letter `k`, the only ASCII
//! letter that a non-ASCII character lower-cases to, so comparing after
//! ASCII lower-casing accepts exactly the inputs whose full Unicode
//! lower-casing equals an accepted name.

use vstd::prelude::*;
use vstd::string::StringExecFns;
use crate::text::{lowercase_seq, lower_equals, str_equals};

verus! {

/// The centre that an absolute deviation is measured from.
#[derive(Clone, Copy, Debug, PartialEq, Eq, Structural)]
pub enum CentralPoint {
    Mean,
    Median,
    Mode,
}

/// How the deviation of a window is measured.
#[derive(Clone, Copy, Debug, PartialEq, Eq, Structural)]
pub enum DeviationModel {
    StandardDeviation,
    MeanAbsoluteDeviation,
    MedianAbsoluteDeviation,
    ModeAbsoluteDeviation,
    UlcerIndex,
}

/// Which constant model gives the centre line of a window.
#[derive(Clone, Copy, Debug, PartialEq, Eq, Structural)]
pub enum ConstantModelType {
    SimpleMovingAverage,
    SmoothedMovingAverage,
    ExponentialMovingAverage,
    SimpleMovingMedian,
    SimpleMovingMode,
}

/// The kinds of moving average that can be chosen by name.
#[derive(Clone, Copy, Debug, PartialEq, Eq, Structural)]
pub enum MovingAverageType {
    Simple,
    Exponential,
    Smoothed,
}

/// The side of a trade.
#[derive(Clone, Copy, Debug, PartialEq, Eq, Structural)]
pub enum Position {
    Short,
    Long,
}

/// A model name that is not accepted.
#[derive(Debug)]
pub enum ParamError {
    /// The constant model name, as given.
    InvalidConstantModelType(String),
    /// The deviation model name, as given.
    UnsupportedDeviationModel(String),
    InvalidCentralPoint,
    UnsupportedMovingAverageType,
    InvalidPosition,
}

/// The text that reports the error `e` to the caller.
pub open spec fn spec_param_error_message(e: ParamError) -> Seq<char> {
    match e {
        ParamError::InvalidConstantModelType(given) => "Invalid constant model type: "@ + given@,
        ParamError::UnsupportedDeviationModel(given) => "Unsupported deviation model: "@ + given@,
        ParamError::InvalidCentralPoint => "central_point must be 'mean', 'median', or 'mode'"@,
        ParamError::UnsupportedMovingAverageType => "Unsupported moving average type"@,
        ParamError::InvalidPosition => "Invalid position. Use 'Long' or 'Short'"@,
    }
}

impl ParamError {
    /// The message that reports this error.
    pub fn message(&self) -> (r: String)
        ensures
            r@ == spec_param_error_message(*self),
    {
        match self {
            ParamError::InvalidConstantModelType(given) => {
                let mut m = "Invalid constant model type: ".to_owned();
                m.append(given.as_str());
                m
            },
            ParamError::UnsupportedDeviationModel(given) => {
                let mut m = "Unsupported deviation model: ".to_owned();
                m.append(given.as_str());
                m
            },
            ParamError::InvalidCentralPoint => "central_point must be 'mean', 'median', or 'mode'".to_owned(),
            ParamError::UnsupportedMovingAverageType => "Unsupported moving average type".to_owned(),
            ParamError::InvalidPosition => "Invalid position. Use 'Long' or 'Short'".to_owned(),
        }
    }
}

/// The constant model named by `s`, if any (ASCII case ignored).
///
/// The simple moving average also answers to the names of means
/// (`mean`, `arithmetic`, `geometric`, `harmonic`): it is the one mean that
/// the indicators compute. The weighted average `wma` is the exponentially
/// weighted one, the only weighted average among the models.
pub open spec fn spec_constant_model_type(s: Seq<char>) -> Option<ConstantModelType> {
    let l = lowercase_seq(s);
    if l == "simple_moving_average"@ || l == "simplemovingaverage"@ || l == "sma"@ || l == "simple"@
        || l == "mean"@ || l == "arithmetic"@ || l == "geometric"@ || l == "harmonic"@ {
        Some(ConstantModelType::SimpleMovingAverage)
    } else if l == "smoothed_moving_average"@ || l == "smoothedmovingaverage"@ {
        Some(ConstantModelType::SmoothedMovingAverage)
    } else if l == "exponential_moving_average"@ || l == "exponentialmovingaverage"@ || l == "ema"@ || l == "wma"@ {
        Some(ConstantModelType::ExponentialMovingAverage)
    } else if l == "simple_moving_median"@ {
        Some(ConstantModelType::SimpleMovingMedian)
    } else if l == "simple_moving_mode"@ {
        Some(ConstantModelType::SimpleMovingMode)
    } else {
        None
    }
}

/// The deviation model named by `s`, if any (exact match). The standard
/// deviation also answers to `std` and to `population` and `sample`, the
/// one standard deviation the indicators compute; the mean absolute
/// deviation also answers to `mad`.
pub open spec fn spec_deviation_model(s: Seq<char>) -> Option<DeviationModel> {
    if s == "standard_deviation"@ || s == "std"@ || s == "population"@ || s == "sample"@ {
        Some(DeviationModel::StandardDeviation)
    } else if s == "mean_absolute_deviation"@ || s == "mad"@ {
        Some(DeviationModel::MeanAbsoluteDeviation)
    } else if s == "median_absolute_deviation"@ {
        Some(DeviationModel::MedianAbsoluteDeviation)
    } else if s == "mode_absolute_deviation"@ {
        Some(DeviationModel::ModeAbsoluteDeviation)
    } else if s == "ulcer_index"@ {
        Some(DeviationModel::UlcerIndex)
    } else {
        None
    }
}

/// The central point named by `s`, if any (ASCII case ignored).
pub open spec fn spec_central_point(s: Seq<char>) -> Option<CentralPoint> {
    let l = lowercase_seq(s);
    if l == "mean"@ {
        Some(CentralPoint::Mean)
    } else if l == "median"@ {
        Some(CentralPoint::Median)
    } else if l == "mode"@ {
        Some(CentralPoint::Mode)
    } else {
        None
    }
}

/// The moving-average kind named by `s`, if any (ASCII case ignored).
pub open spec fn spec_moving_average_type(s: Seq<char>) -> Option<MovingAverageType> {
    let l = lowercase_seq(s);
    if l == "simple"@ {
        Some(MovingAverageType::Simple)
    } else if l == "exponential"@ {
        Some(MovingAverageType::Exponential)
    } else if l == "smoothed"@ {
        Some(MovingAverageType::Smoothed)
    } else {
        None
    }
}

/// The position named by `s`, if any (exact match).
pub open spec fn spec_position(s: Seq<char>) -> Option<Position> {
    if s == "Long"@ {
        Some(Position::Long)
    } else if s == "Short"@ {
        Some(Position::Short)
    } else {
        None
    }
}

/// Parses the side of a trade; the match is exact.
pub fn parse_position(position: &str) -> (r: Result<Position, ParamError>)
    ensures
        match r {
            Ok(p) => spec_position(position@) == Some(p),
            Err(e) => spec_position(position@) is None && e is InvalidPosition,
        },
{
    if str_equals(position, "Long") {
        Ok(Position::Long)
    } else if str_equals(position, "Short") {
        Ok(Position::Short)
    } else {
        Err(ParamError::InvalidPosition)
    }
}

/// Parses a constant model name.
pub fn parse_constant_model_type(constant_model_type: &str) -> (r: Result<ConstantModelType, ParamError>)
    ensures
        match r {
            Ok(m) => spec_constant_model_type(constant_model_type@) == Some(m),
            Err(e) => spec_constant_model_type(constant_model_type@) is None
                && (e matches ParamError::InvalidConstantModelType(given)
                && given@ == constant_model_type@),
        },
{
    let s = constant_model_type;
    if lower_equals(s, "simple_moving_average") || lower_equals(s, "simplemovingaverage") || lower_equals(s, "sma")
        || lower_equals(s, "simple") || lower_equals(s, "mean") || lower_equals(s, "arithmetic")
        || lower_equals(s, "geometric") || lower_equals(s, "harmonic") {
        Ok(ConstantModelType::SimpleMovingAverage)
    } else if lower_equals(s, "smoothed_moving_average") || lower_equals(s, "smoothedmovingaverage") {
        Ok(ConstantModelType::SmoothedMovingAverage)
    } else if lower_equals(s, "exponential_moving_average") || lower_equals(s, "exponentialmovingaverage")
        || lower_equals(s, "ema") || lower_equals(s, "wma") {
        Ok(ConstantModelType::ExponentialMovingAverage)
    } else if lower_equals(s, "simple_moving_median") {
        Ok(ConstantModelType::SimpleMovingMedian)
    } else if lower_equals(s, "simple_moving_mode") {
        Ok(ConstantModelType::SimpleMovingMode)
    } else {
        Err(ParamError::InvalidConstantModelType(s.to_owned()))
    }
}

/// Parses a deviation model name; the match is exact.
pub fn parse_deviation_model(model_type: &str) -> (r: Result<DeviationModel, ParamError>)
    ensures
        match r {
            Ok(m) => spec_deviation_model(model_type@) == Some(m),
            Err(e) => spec_deviation_model(model_type@) is None
                && (e matches ParamError::UnsupportedDeviationModel(given)
                && given@ == model_type@),
        },
{
    let s = model_type;
    if str_equals(s, "standard_deviation") || str_equals(s, "std") || str_equals(s, "population") || str_equals(s, "sample") {
        Ok(DeviationModel::StandardDeviation)
    } else if str_equals(s, "mean_absolute_deviation") || str_equals(s, "mad") {
        Ok(DeviationModel::MeanAbsoluteDeviation)
    } else if str_equals(s, "median_absolute_deviation") {
        Ok(DeviationModel::MedianAbsoluteDeviation)
    } else if str_equals(s, "mode_absolute_deviation") {
        Ok(DeviationModel::ModeAbsoluteDeviation)
    } else if str_equals(s, "ulcer_index") {
        Ok(DeviationModel::UlcerIndex)
    } else {
        Err(ParamError::UnsupportedDeviationModel(s.to_owned()))
    }
}

/// Parses a central point name.
pub fn parse_central_point(central_point: &str) -> (r: Result<CentralPoint, ParamError>)
    ensures
        match r {
            Ok(p) => spec_central_point(central_point@) == Some(p),
            Err(e) => spec_central_point(central_point@) is None && e is InvalidCentralPoint,
        },
{
    if lower_equals(central_point, "mean") {
        Ok(CentralPoint::Mean)
    } else if lower_equals(central_point, "median") {
        Ok(CentralPoint::Median)
    } else if lower_equals(central_point, "mode") {
        Ok(CentralPoint::Mode)
    } else {
        Err(ParamError::InvalidCentralPoint)
    }
}

/// Parses a moving-average kind.
pub fn parse_moving_average_type(ma_type: &str) -> (r: Result<MovingAverageType, ParamError>)
    ensures
        match r {
            Ok(t) => spec_moving_average_type(ma_type@) == Some(t),
            Err(e) => spec_moving_average_type(ma_type@) is None && e is UnsupportedMovingAverageType,
        },
{
    if lower_equals(ma_type, "simple") {
        Ok(MovingAverageType::Simple)
    } else if lower_equals(ma_type, "exponential") {
        Ok(MovingAverageType::Exponential)
    } else if lower_equals(ma_type, "smoothed") {
        Ok(MovingAverageType::Smoothed)
    } else {
        Err(ParamError::UnsupportedMovingAverageType)
    }
}

/// Constant model names are read without regard to ASCII case.
pub proof fn law_constant_model_ignores_ascii_case(s: Seq<char>, t: Seq<char>)
    requires
        lowercase_seq(s) == lowercase_seq(t),
    ensures
        spec_constant_model_type(s) == spec_constant_model_type(t),
{
}

/// Central point names are read without regard to ASCII case.
pub proof fn law_central_point_ignores_ascii_case(s: Seq<char>, t: Seq<char>)
    requires
        lowercase_seq(s) == lowercase_seq(t),
    ensures
        spec_central_point(s) == spec_central_point(t),
{
}

/// Moving-average names are read without regard to ASCII case.
pub proof fn law_moving_average_ignores_ascii_case(s: Seq<char>, t: Seq<char>)
    requires
        lowercase_seq(s) == lowercase_seq(t),
    ensures
        spec_moving_average_type(s) == spec_moving_average_type(t),
{
}

} // verus!
