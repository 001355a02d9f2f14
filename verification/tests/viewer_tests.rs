use ezpz::viewer::{ChartType, FilterOperator, LayoutView, Theme, ViewerSettings};

fn viewer() -> ViewerSettings {
    ViewerSettings::new(vec!["open".to_string(), "close".to_string()])
}

#[test]
fn fresh_viewer() {
    let v = viewer();
    assert_eq!(v.current_view(), LayoutView::Table);
    assert_eq!(v.search_text(), "");
    assert!(v.filter_conditions().is_empty());
    assert_eq!(v.column_order(), &vec!["open".to_string(), "close".to_string()]);
    assert!(matches!(v.theme(), Theme::Light));
}

#[test]
fn filters_start_on_the_first_column() {
    let mut v = viewer();
    v.add_filter();
    v.add_filter();
    let f = &v.filter_conditions()[1];
    assert_eq!(f.column, "open");
    assert_eq!(f.operator, FilterOperator::Equals);
    assert_eq!(f.value, "");
}

#[test]
fn filters_are_edited_in_place() {
    let mut v = viewer();
    v.add_filter();
    v.set_filter_column(0, 1);
    v.set_filter_operator(0, FilterOperator::GreaterThan);
    v.set_filter_value(0, "10".to_string());
    let f = &v.filter_conditions()[0];
    assert_eq!(f.column, "close");
    assert_eq!(f.operator, FilterOperator::GreaterThan);
    assert_eq!(f.value, "10");
}

#[test]
fn search_and_views() {
    let mut v = viewer();
    v.set_search_text("abc".to_string());
    assert_eq!(v.search_text(), "abc");
    v.clear_search();
    assert_eq!(v.search_text(), "");
    v.select_view(LayoutView::Chart(ChartType::Scatter));
    assert_eq!(v.current_view(), LayoutView::Chart(ChartType::Scatter));
    v.select_view(LayoutView::DataProfile);
    assert_eq!(v.current_view(), LayoutView::DataProfile);
    v.select_theme(Theme::Dark);
    assert!(matches!(v.theme(), Theme::Dark));
}
