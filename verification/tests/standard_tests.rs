use ezpz::standard::{
    check_at_least_two, check_bulk_window, check_has_latest, check_latest_bar, check_not_empty, check_period,
    check_positive_period, check_single_window, check_volume_index, no_bars, LengthError, SeriesRole, StandardWindow,
};

#[test]
fn window_lengths() {
    assert_eq!(StandardWindow::BollingerBands.length(), 20);
    assert_eq!(StandardWindow::Macd.length(), 34);
    assert_eq!(StandardWindow::Rsi.length(), 14);
}

#[test]
fn empty_series_is_refused() {
    assert_eq!(check_not_empty(0), Err(LengthError::Empty));
    assert_eq!(check_not_empty(1), Ok(()));
    assert_eq!(LengthError::Empty.message(), "Series cannot be empty");
}

#[test]
fn period_must_fit() {
    assert_eq!(check_period(4, 5), Err(LengthError::ShorterThanPeriod));
    assert_eq!(check_period(5, 5), Ok(()));
    assert_eq!(check_period(9, 5), Ok(()));
    assert_eq!(
        LengthError::ShorterThanPeriod.message(),
        "Series length must be at least the specified period"
    );
}

#[test]
fn single_values_need_exactly_one_window() {
    assert_eq!(check_single_window(StandardWindow::Rsi, 14), Ok(()));
    assert_eq!(check_single_window(StandardWindow::Rsi, 15), Err(LengthError::NotOneWindow(StandardWindow::Rsi)));
    assert_eq!(check_single_window(StandardWindow::Macd, 33), Err(LengthError::NotOneWindow(StandardWindow::Macd)));
    assert_eq!(check_single_window(StandardWindow::BollingerBands, 20), Ok(()));
    assert_eq!(
        LengthError::NotOneWindow(StandardWindow::BollingerBands).message(),
        "Series length must be exactly 20 for single Bollinger Bands calculation"
    );
    assert_eq!(
        LengthError::NotOneWindow(StandardWindow::Macd).message(),
        "Series length must be exactly 34 for single MACD calculation"
    );
    assert_eq!(
        LengthError::NotOneWindow(StandardWindow::Rsi).message(),
        "Series length must be exactly 14 for single RSI calculation"
    );
}

#[test]
fn rolling_values_need_at_least_one_window() {
    assert_eq!(check_bulk_window(StandardWindow::Macd, 34), Ok(()));
    assert_eq!(check_bulk_window(StandardWindow::Macd, 100), Ok(()));
    assert_eq!(check_bulk_window(StandardWindow::BollingerBands, 19), Err(LengthError::ShorterThanWindow(StandardWindow::BollingerBands)));
    assert_eq!(
        LengthError::ShorterThanWindow(StandardWindow::BollingerBands).message(),
        "Series length must be at least 20 for Bollinger Bands"
    );
    assert_eq!(LengthError::ShorterThanWindow(StandardWindow::Macd).message(), "Series length must be at least 34 for MACD");
    assert_eq!(LengthError::ShorterThanWindow(StandardWindow::Rsi).message(), "Series length must be at least 14 for RSI");
}

#[test]
fn returns_need_two_values() {
    assert_eq!(check_at_least_two(1), Err(LengthError::FewerThanTwo));
    assert_eq!(check_at_least_two(0), Err(LengthError::FewerThanTwo));
    assert_eq!(check_at_least_two(2), Ok(()));
    assert_eq!(LengthError::FewerThanTwo.message(), "Series must have at least 2 values");
}

#[test]
fn latest_value_needed() {
    assert_eq!(check_has_latest(0), Err(LengthError::NoLatestValue));
    assert_eq!(check_has_latest(3), Ok(()));
    assert_eq!(LengthError::NoLatestValue.message(), "Empty series");
}

#[test]
fn latest_bar_reports_first_empty_series() {
    assert_eq!(check_latest_bar(1, 1, 1, 1), Ok(()));
    assert_eq!(check_latest_bar(0, 0, 0, 0), Err(LengthError::EmptyInput(SeriesRole::High)));
    assert_eq!(check_latest_bar(2, 0, 0, 2), Err(LengthError::EmptyInput(SeriesRole::Low)));
    assert_eq!(check_latest_bar(2, 2, 0, 0), Err(LengthError::EmptyInput(SeriesRole::Close)));
    assert_eq!(check_latest_bar(2, 2, 2, 0), Err(LengthError::EmptyInput(SeriesRole::Volume)));
    assert_eq!(LengthError::EmptyInput(SeriesRole::High).message(), "High series is empty");
    assert_eq!(LengthError::EmptyInput(SeriesRole::Low).message(), "Low series is empty");
    assert_eq!(LengthError::EmptyInput(SeriesRole::Close).message(), "Close series is empty");
    assert_eq!(LengthError::EmptyInput(SeriesRole::Volume).message(), "Volume series is empty");
}

#[test]
fn volume_index_needs_two_closes_and_two_volumes() {
    assert_eq!(check_volume_index(1, 10), Err(LengthError::VolumeIndexTooShort));
    assert_eq!(check_volume_index(2, 0), Err(LengthError::EmptyInput(SeriesRole::Volume)));
    assert_eq!(check_volume_index(2, 1), Err(LengthError::FewerThanTwoVolumes));
    assert_eq!(check_volume_index(2, 2), Ok(()));
    assert_eq!(
        LengthError::VolumeIndexTooShort.message(),
        "Need at least 2 values for volume index calculation"
    );
    assert_eq!(LengthError::FewerThanTwoVolumes.message(), "Need at least 2 volume values");
}

#[test]
fn zero_period_is_refused() {
    assert_eq!(check_positive_period(0), Err(LengthError::ZeroPeriod));
    assert_eq!(check_positive_period(1), Ok(()));
    assert_eq!(LengthError::ZeroPeriod.message(), "Period must be greater than zero");
}

#[test]
fn no_bars_only_when_all_empty() {
    assert!(no_bars(0, 0, 0, 0));
    assert!(!no_bars(0, 0, 0, 1));
    assert!(!no_bars(3, 3, 3, 3));
}
