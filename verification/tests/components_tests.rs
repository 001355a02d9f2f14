use ezpz::components::{
    FilterComponent, FilterSettings, PyTableSettings, SearchComponent, SearchSettings, StyleChange, TableComponent,
    TableSettings, Theme, ThemeComponent, ThemeSettings,
};

#[test]
fn filter_defaults() {
    let s = FilterSettings::default();
    assert_eq!(s.max_filters, 5);
    assert_eq!(s.filter_types, vec!["Equals", "Contains", "Greater Than", "Less Than"]);
}

#[test]
fn filters_stop_at_the_maximum() {
    let mut c = FilterComponent::new(None);
    for _ in 0..5 {
        assert!(c.add_filter());
    }
    assert!(!c.add_filter());
    assert_eq!(c.filters().len(), 5);
    assert!(c.filters().iter().all(|f| f.is_empty()));
    c.set_filter(2, "price".to_string());
    assert_eq!(c.filters()[2], "price");
}

#[test]
fn filters_with_given_settings() {
    let mut c = FilterComponent::new(Some(FilterSettings { max_filters: 1, filter_types: vec![] }));
    assert!(c.add_filter());
    assert!(!c.add_filter());
    let mut none = FilterComponent::new(Some(FilterSettings { max_filters: 0, filter_types: vec![] }));
    assert!(!none.add_filter());
    assert!(none.filters().is_empty());
    assert_eq!(none.settings().max_filters, 0);
}

#[test]
fn search_defaults() {
    let c = SearchComponent::new(None);
    assert_eq!(c.settings, SearchSettings { case_sensitive: false, max_results: 100 });
    assert_eq!(c.search_text, "");
    let d = SearchComponent::new(Some(SearchSettings { case_sensitive: true, max_results: 3 }));
    assert!(d.settings.case_sensitive);
    assert_eq!(d.settings.max_results, 3);
}

#[test]
fn theme_choice() {
    let mut c = ThemeComponent::new(None);
    assert!(matches!(c.settings.current_theme, Theme::Light));
    assert!(matches!(c.style_change(), StyleChange::DarkMode(false)));
    c.select(1);
    assert!(matches!(c.settings.current_theme, Theme::Dark));
    assert!(matches!(c.style_change(), StyleChange::DarkMode(true)));
    assert_eq!(c.settings.available_themes.len(), 2);
}

#[test]
fn custom_theme() {
    let custom = Theme::Custom("Solar".to_string(), (1, 2, 3), (4, 5, 6));
    assert_eq!(custom.label(), "Solar");
    assert_eq!(Theme::Light.label(), "Light");
    assert_eq!(Theme::Dark.label(), "Dark");
    match custom.style_change() {
        StyleChange::Colors { text, window_fill } => {
            assert_eq!(text, (4, 5, 6));
            assert_eq!(window_fill, (1, 2, 3));
        },
        _ => panic!("custom themes set colours"),
    }
    let mut c = ThemeComponent::new(Some(ThemeSettings { available_themes: vec![Theme::Dark, custom], current_theme: Theme::Dark }));
    c.select(1);
    assert_eq!(c.settings.current_theme.label(), "Solar");
}

#[test]
fn table_defaults() {
    let s = TableSettings::default();
    assert_eq!(s, TableSettings { max_rows_display: 100, max_cols_display: 10, show_index: true, alternating_row_colors: true });
    let p = PyTableSettings::new();
    assert_eq!(p.max_rows_display, 100);
    assert_eq!(p.max_cols_display, 10);
    assert!(p.show_index && p.alternating_row_colors);
}

#[test]
fn table_window() {
    let settings = TableSettings { max_rows_display: 3, max_cols_display: 2, show_index: false, alternating_row_colors: false };
    let names = vec!["a".to_string(), "b".to_string(), "c".to_string()];
    let t = TableComponent::new(settings, Some(names));
    assert!(t.has_data);
    assert_eq!(t.visible_row_count(10), 3);
    assert_eq!(t.visible_row_count(2), 2);
    assert_eq!(t.visible_columns(), vec!["a".to_string(), "b".to_string()]);
    let empty = TableComponent::new(TableSettings::default(), None);
    assert!(!empty.has_data);
    assert!(empty.visible_columns().is_empty());
}
