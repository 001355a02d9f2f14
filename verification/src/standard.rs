//! The series lengths that the standard indicators accept.
//!
//! The single-value Bollinger Bands, MACD and RSI are defined on a window
//! of fixed length, and their rolling forms need at least that many
//! values; the moving averages need a non-empty series, or at least one
//! period of values when rolled.

use vstd::prelude::*;

verus! {

/// The standard indicators computed over a window of fixed length.
#[derive(Clone, Copy, Debug, PartialEq, Eq, Structural)]
pub enum StandardWindow {
    BollingerBands,
    Macd,
    Rsi,
}

/// The length of the window of an indicator.
pub open spec fn spec_window_length(w: StandardWindow) -> usize {
    match w {
        StandardWindow::BollingerBands => 20,
        StandardWindow::Macd => 34,
        StandardWindow::Rsi => 14,
    }
}

impl StandardWindow {
    /// The length of the window of this indicator.
    pub fn length(self) -> (r: usize)
        ensures
            r == spec_window_length(self),
    {
        match self {
            StandardWindow::BollingerBands => 20,
            StandardWindow::Macd => 34,
            StandardWindow::Rsi => 14,
        }
    }
}

/// A series of a length that an indicator does not accept.
#[derive(Clone, Copy, Debug, PartialEq, Eq, Structural)]
pub enum LengthError {
    /// The series is empty.
    Empty,
    /// The series is shorter than the period asked for.
    ShorterThanPeriod,
    /// The series is not exactly one window long.
    NotOneWindow(StandardWindow),
    /// The series is shorter than one window.
    ShorterThanWindow(StandardWindow),
    /// The series has fewer than two values.
    FewerThanTwo,
    /// The series has no latest value.
    NoLatestValue,
    /// The named input series is empty.
    EmptyInput(SeriesRole),
    /// The closes hold fewer than two values for a volume index.
    VolumeIndexTooShort,
    /// The volumes hold fewer than two values.
    FewerThanTwoVolumes,
    /// A rolling window of no values was asked for.
    ZeroPeriod,
}

/// The input series of a price-and-volume indicator.
#[derive(Clone, Copy, Debug, PartialEq, Eq, Structural)]
pub enum SeriesRole {
    High,
    Low,
    Close,
    Volume,
}

/// The text that reports the error `e`.
pub open spec fn spec_length_error_message(e: LengthError) -> Seq<char> {
    match e {
        LengthError::Empty => "Series cannot be empty"@,
        LengthError::ShorterThanPeriod => "Series length must be at least the specified period"@,
        LengthError::NotOneWindow(StandardWindow::BollingerBands) =>
            "Series length must be exactly 20 for single Bollinger Bands calculation"@,
        LengthError::NotOneWindow(StandardWindow::Macd) => "Series length must be exactly 34 for single MACD calculation"@,
        LengthError::NotOneWindow(StandardWindow::Rsi) => "Series length must be exactly 14 for single RSI calculation"@,
        LengthError::ShorterThanWindow(StandardWindow::BollingerBands) =>
            "Series length must be at least 20 for Bollinger Bands"@,
        LengthError::ShorterThanWindow(StandardWindow::Macd) => "Series length must be at least 34 for MACD"@,
        LengthError::ShorterThanWindow(StandardWindow::Rsi) => "Series length must be at least 14 for RSI"@,
        LengthError::FewerThanTwo => "Series must have at least 2 values"@,
        LengthError::NoLatestValue => "Empty series"@,
        LengthError::EmptyInput(SeriesRole::High) => "High series is empty"@,
        LengthError::EmptyInput(SeriesRole::Low) => "Low series is empty"@,
        LengthError::EmptyInput(SeriesRole::Close) => "Close series is empty"@,
        LengthError::EmptyInput(SeriesRole::Volume) => "Volume series is empty"@,
        LengthError::VolumeIndexTooShort => "Need at least 2 values for volume index calculation"@,
        LengthError::FewerThanTwoVolumes => "Need at least 2 volume values"@,
        LengthError::ZeroPeriod => "Period must be greater than zero"@,
    }
}

impl LengthError {
    /// The message that reports this error.
    pub fn message(&self) -> (r: &'static str)
        ensures
            r@ == spec_length_error_message(*self),
    {
        match self {
            LengthError::Empty => "Series cannot be empty",
            LengthError::ShorterThanPeriod => "Series length must be at least the specified period",
            LengthError::NotOneWindow(StandardWindow::BollingerBands) =>
                "Series length must be exactly 20 for single Bollinger Bands calculation",
            LengthError::NotOneWindow(StandardWindow::Macd) => "Series length must be exactly 34 for single MACD calculation",
            LengthError::NotOneWindow(StandardWindow::Rsi) => "Series length must be exactly 14 for single RSI calculation",
            LengthError::ShorterThanWindow(StandardWindow::BollingerBands) =>
                "Series length must be at least 20 for Bollinger Bands",
            LengthError::ShorterThanWindow(StandardWindow::Macd) => "Series length must be at least 34 for MACD",
            LengthError::ShorterThanWindow(StandardWindow::Rsi) => "Series length must be at least 14 for RSI",
            LengthError::FewerThanTwo => "Series must have at least 2 values",
            LengthError::NoLatestValue => "Empty series",
            LengthError::EmptyInput(SeriesRole::High) => "High series is empty",
            LengthError::EmptyInput(SeriesRole::Low) => "Low series is empty",
            LengthError::EmptyInput(SeriesRole::Close) => "Close series is empty",
            LengthError::EmptyInput(SeriesRole::Volume) => "Volume series is empty",
            LengthError::VolumeIndexTooShort => "Need at least 2 values for volume index calculation",
            LengthError::FewerThanTwoVolumes => "Need at least 2 volume values",
            LengthError::ZeroPeriod => "Period must be greater than zero",
        }
    }
}

/// Accepts a series of `len` values that is not empty.
pub fn check_not_empty(len: usize) -> (r: Result<(), LengthError>)
    ensures
        r is Ok <==> len > 0,
        r is Err ==> r == Err::<(), LengthError>(LengthError::Empty),
{
    if len == 0 {
        Err(LengthError::Empty)
    } else {
        Ok(())
    }
}

/// Accepts a series of `len` values that holds at least one period.
pub fn check_period(len: usize, period: usize) -> (r: Result<(), LengthError>)
    ensures
        r is Ok <==> len >= period,
        r is Err ==> r == Err::<(), LengthError>(LengthError::ShorterThanPeriod),
{
    if len < period {
        Err(LengthError::ShorterThanPeriod)
    } else {
        Ok(())
    }
}

/// Accepts a series of `len` values for the single value of `w`: exactly one window.
pub fn check_single_window(w: StandardWindow, len: usize) -> (r: Result<(), LengthError>)
    ensures
        r is Ok <==> len == spec_window_length(w),
        r is Err ==> r == Err::<(), LengthError>(LengthError::NotOneWindow(w)),
{
    if len != w.length() {
        Err(LengthError::NotOneWindow(w))
    } else {
        Ok(())
    }
}

/// Accepts a series of `len` values for the rolling values of `w`: at least one window.
pub fn check_bulk_window(w: StandardWindow, len: usize) -> (r: Result<(), LengthError>)
    ensures
        r is Ok <==> len >= spec_window_length(w),
        r is Err ==> r == Err::<(), LengthError>(LengthError::ShorterThanWindow(w)),
{
    if len < w.length() {
        Err(LengthError::ShorterThanWindow(w))
    } else {
        Ok(())
    }
}

/// Accepts a series of `len` values that has a first and a distinct last value.
pub fn check_at_least_two(len: usize) -> (r: Result<(), LengthError>)
    ensures
        r is Ok <==> len >= 2,
        r is Err ==> r == Err::<(), LengthError>(LengthError::FewerThanTwo),
{
    if len < 2 {
        Err(LengthError::FewerThanTwo)
    } else {
        Ok(())
    }
}

/// Accepts a series of `len` values that has a latest value.
pub fn check_has_latest(len: usize) -> (r: Result<(), LengthError>)
    ensures
        r is Ok <==> len > 0,
        r is Err ==> r == Err::<(), LengthError>(LengthError::NoLatestValue),
{
    if len == 0 {
        Err(LengthError::NoLatestValue)
    } else {
        Ok(())
    }
}

/// Accepts high, low, close and volume series of the given lengths when
/// each has a latest value; the first empty one, in that order, is reported.
pub fn check_latest_bar(high: usize, low: usize, close: usize, volume: usize) -> (r: Result<(), LengthError>)
    ensures
        r is Ok <==> (high > 0 && low > 0 && close > 0 && volume > 0),
        high == 0 ==> r == Err::<(), LengthError>(LengthError::EmptyInput(SeriesRole::High)),
        high > 0 && low == 0 ==> r == Err::<(), LengthError>(LengthError::EmptyInput(SeriesRole::Low)),
        high > 0 && low > 0 && close == 0 ==> r == Err::<(), LengthError>(LengthError::EmptyInput(SeriesRole::Close)),
        high > 0 && low > 0 && close > 0 && volume == 0 ==> r == Err::<(), LengthError>(
            LengthError::EmptyInput(SeriesRole::Volume),
        ),
{
    if high == 0 {
        Err(LengthError::EmptyInput(SeriesRole::High))
    } else if low == 0 {
        Err(LengthError::EmptyInput(SeriesRole::Low))
    } else if close == 0 {
        Err(LengthError::EmptyInput(SeriesRole::Close))
    } else if volume == 0 {
        Err(LengthError::EmptyInput(SeriesRole::Volume))
    } else {
        Ok(())
    }
}

/// Accepts closes and volumes of the given lengths for one step of a volume
/// index: both need a current and a previous value. The closes are checked
/// first, then whether any volume is there, then whether two are.
pub fn check_volume_index(close: usize, volume: usize) -> (r: Result<(), LengthError>)
    ensures
        r is Ok <==> (close >= 2 && volume >= 2),
        close < 2 ==> r == Err::<(), LengthError>(LengthError::VolumeIndexTooShort),
        close >= 2 && volume == 0 ==> r == Err::<(), LengthError>(LengthError::EmptyInput(SeriesRole::Volume)),
        close >= 2 && volume == 1 ==> r == Err::<(), LengthError>(LengthError::FewerThanTwoVolumes),
{
    if close < 2 {
        Err(LengthError::VolumeIndexTooShort)
    } else if volume == 0 {
        Err(LengthError::EmptyInput(SeriesRole::Volume))
    } else if volume < 2 {
        Err(LengthError::FewerThanTwoVolumes)
    } else {
        Ok(())
    }
}

/// Accepts a rolling window of `period` values when it holds at least one.
pub fn check_positive_period(period: usize) -> (r: Result<(), LengthError>)
    ensures
        r is Ok <==> period > 0,
        r is Err ==> r == Err::<(), LengthError>(LengthError::ZeroPeriod),
{
    if period == 0 {
        Err(LengthError::ZeroPeriod)
    } else {
        Ok(())
    }
}

/// Whether open, high, low and close series of the given lengths hold no
/// bar at all, so that a rolling indicator over them has no values.
pub fn no_bars(open: usize, high: usize, low: usize, close: usize) -> (r: bool)
    ensures
        r == (open == 0 && high == 0 && low == 0 && close == 0),
{
    open == 0 && high == 0 && low == 0 && close == 0
}

} // verus!
