//! The state and decisions of the viewer's components: filters, search,
//! theme and table, apart from their drawing.

use vstd::prelude::*;
use crate::layout::strings_view;

verus! {

/// Settings of the filter component.
#[derive(Debug)]
pub struct FilterSettings {
    pub max_filters: usize,
    pub filter_types: Vec<String>,
}

/// The filter kinds offered by default.
pub open spec fn default_filter_types() -> Seq<Seq<char>> {
    seq!["Equals"@, "Contains"@, "Greater Than"@, "Less Than"@]
}

impl Default for FilterSettings {
    /// At most five filters, of the four default kinds.
    fn default() -> (r: FilterSettings)
        ensures
            r.max_filters == 5,
            strings_view(r.filter_types@) == default_filter_types(),
    {
        let filter_types = vec![
            "Equals".to_owned(),
            "Contains".to_owned(),
            "Greater Than".to_owned(),
            "Less Than".to_owned(),
        ];
        assert(strings_view(filter_types@) =~= default_filter_types());
        FilterSettings { max_filters: 5, filter_types }
    }
}

/// The filters being edited, never more than the settings allow.
#[derive(Debug)]
pub struct FilterComponent {
    settings: FilterSettings,
    filters: Vec<String>,
}

impl FilterComponent {
    #[verifier::type_invariant]
    closed spec fn inv(&self) -> bool {
        self.filters@.len() <= self.settings.max_filters
    }

    /// The largest number of filters.
    pub closed spec fn max_filters(&self) -> nat {
        self.settings.max_filters as nat
    }

    /// The filter texts, in order.
    pub closed spec fn filter_texts(&self) -> Seq<Seq<char>> {
        strings_view(self.filters@)
    }

    /// The filter kinds that the settings offer.
    pub closed spec fn filter_kinds(&self) -> Seq<Seq<char>> {
        strings_view(self.settings.filter_types@)
    }

    /// A component with no filters, under the given settings or, without
    /// them, the default ones.
    pub fn new(settings: Option<FilterSettings>) -> (r: FilterComponent)
        ensures
            r.filter_texts().len() == 0,
            settings is Some ==> r.max_filters() == settings->0.max_filters,
            settings is Some ==> r.filter_kinds() == strings_view(settings->0.filter_types@),
            settings is None ==> r.max_filters() == 5,
            settings is None ==> r.filter_kinds() == default_filter_types(),
    {
        let settings = match settings {
            Some(s) => s,
            None => FilterSettings::default(),
        };
        let r = FilterComponent { settings, filters: Vec::new() };
        assert(r.filter_texts() =~= Seq::<Seq<char>>::empty());
        r
    }

    /// Adds an empty filter, when fewer than the largest number are there;
    /// tells whether it did.
    pub fn add_filter(&mut self) -> (added: bool)
        ensures
            added == (old(self).filter_texts().len() < old(self).max_filters()),
            final(self).max_filters() == old(self).max_filters(),
            final(self).filter_kinds() == old(self).filter_kinds(),
            added ==> final(self).filter_texts() == old(self).filter_texts().push(Seq::empty()),
            !added ==> final(self).filter_texts() == old(self).filter_texts(),
            final(self).filter_texts().len() <= final(self).max_filters(),
    {
        proof {
            use_type_invariant(&*self);
        }
        if self.filters.len() < self.settings.max_filters {
            let ghost before = self.filters@;
            let mut filters: Vec<String> = Vec::new();
            std::mem::swap(&mut filters, &mut self.filters);
            filters.push(String::new());
            proof {
                assert(strings_view(filters@) =~= strings_view(before).push(Seq::empty()));
            }
            self.filters = filters;
            true
        } else {
            false
        }
    }

    /// Replaces the text of the filter at `index`.
    pub fn set_filter(&mut self, index: usize, text: String)
        requires
            index < old(self).filter_texts().len(),
        ensures
            final(self).max_filters() == old(self).max_filters(),
            final(self).filter_kinds() == old(self).filter_kinds(),
            final(self).filter_texts() == old(self).filter_texts().update(index as int, text@),
    {
        proof {
            use_type_invariant(&*self);
        }
        let ghost before = self.filters@;
        let ghost t = text@;
        let mut filters: Vec<String> = Vec::new();
        std::mem::swap(&mut filters, &mut self.filters);
        filters.set(index, text);
        proof {
            assert(strings_view(filters@) =~= strings_view(before).update(index as int, t));
        }
        self.filters = filters;
    }

    /// The filter texts.
    pub fn filters(&self) -> (r: &Vec<String>)
        ensures
            strings_view(r@) == self.filter_texts(),
    {
        &self.filters
    }

    /// The settings.
    pub fn settings(&self) -> (r: &FilterSettings)
        ensures
            r.max_filters == self.max_filters(),
            strings_view(r.filter_types@) == self.filter_kinds(),
    {
        &self.settings
    }
}

/// Settings of the search component.
#[derive(Clone, Copy, Debug, PartialEq, Eq, Structural)]
pub struct SearchSettings {
    pub case_sensitive: bool,
    pub max_results: usize,
}

impl Default for SearchSettings {
    /// Case-insensitive, at most a hundred results.
    fn default() -> (r: SearchSettings)
        ensures
            r == (SearchSettings { case_sensitive: false, max_results: 100 }),
    {
        SearchSettings { case_sensitive: false, max_results: 100 }
    }
}

/// The search text being edited and its settings.
#[derive(Debug)]
pub struct SearchComponent {
    pub settings: SearchSettings,
    pub search_text: String,
}

impl SearchComponent {
    /// A component with an empty search text, under the given settings or,
    /// without them, the default ones.
    pub fn new(settings: Option<SearchSettings>) -> (r: SearchComponent)
        ensures
            r.search_text@ == Seq::<char>::empty(),
            r.settings == (match settings {
                Some(s) => s,
                None => SearchSettings { case_sensitive: false, max_results: 100 },
            }),
    {
        let settings = match settings {
            Some(s) => s,
            None => SearchSettings::default(),
        };
        SearchComponent { settings, search_text: String::new() }
    }
}

/// A colour as red, green and blue.
pub type Rgb = (u8, u8, u8);

/// A theme of the viewer.
#[derive(Debug)]
pub enum Theme {
    Light,
    Dark,
    /// A named theme with a background colour and a text colour.
    Custom(String, Rgb, Rgb),
}

/// The mathematical value of a theme.
pub enum ThemeView {
    Light,
    Dark,
    Custom(Seq<char>, Rgb, Rgb),
}

impl View for Theme {
    type V = ThemeView;

    open spec fn view(&self) -> ThemeView {
        match self {
            Theme::Light => ThemeView::Light,
            Theme::Dark => ThemeView::Dark,
            Theme::Custom(name, bg, text) => ThemeView::Custom(name@, *bg, *text),
        }
    }
}

/// The label of the button that selects a theme.
pub open spec fn spec_theme_label(t: ThemeView) -> Seq<char> {
    match t {
        ThemeView::Light => "Light"@,
        ThemeView::Dark => "Dark"@,
        ThemeView::Custom(name, _, _) => name,
    }
}

/// What a theme changes in the style of the interface.
#[derive(Clone, Copy, Debug)]
pub enum StyleChange {
    /// Switch dark mode on or off.
    DarkMode(bool),
    /// Override the text colour and the window fill colour.
    Colors { text: Rgb, window_fill: Rgb },
}

/// The style change that a theme makes.
pub open spec fn spec_style_change(t: ThemeView) -> StyleChange {
    match t {
        ThemeView::Light => StyleChange::DarkMode(false),
        ThemeView::Dark => StyleChange::DarkMode(true),
        ThemeView::Custom(_, bg, text) => StyleChange::Colors { text, window_fill: bg },
    }
}

impl Theme {
    /// A copy of this theme.
    pub fn duplicate(&self) -> (r: Theme)
        ensures
            r@ == self@,
    {
        match self {
            Theme::Light => Theme::Light,
            Theme::Dark => Theme::Dark,
            Theme::Custom(name, bg, text) => Theme::Custom(name.clone(), *bg, *text),
        }
    }

    /// The label of the button that selects this theme.
    pub fn label(&self) -> (r: &str)
        ensures
            r@ == spec_theme_label(self@),
    {
        match self {
            Theme::Light => "Light",
            Theme::Dark => "Dark",
            Theme::Custom(name, _, _) => name.as_str(),
        }
    }

    /// The style change that this theme makes.
    pub fn style_change(&self) -> (r: StyleChange)
        ensures
            r == spec_style_change(self@),
    {
        match self {
            Theme::Light => StyleChange::DarkMode(false),
            Theme::Dark => StyleChange::DarkMode(true),
            Theme::Custom(_, bg, text) => StyleChange::Colors { text: *text, window_fill: *bg },
        }
    }
}

/// The views of a list of themes.
pub open spec fn themes_view(v: Seq<Theme>) -> Seq<ThemeView> {
    v.map_values(|t: Theme| t@)
}

/// Settings of the theme component.
#[derive(Debug)]
pub struct ThemeSettings {
    pub available_themes: Vec<Theme>,
    pub current_theme: Theme,
}

impl Default for ThemeSettings {
    /// Light and dark on offer, light chosen.
    fn default() -> (r: ThemeSettings)
        ensures
            themes_view(r.available_themes@) == seq![ThemeView::Light, ThemeView::Dark],
            r.current_theme@ == ThemeView::Light,
    {
        let available_themes = vec![Theme::Light, Theme::Dark];
        assert(themes_view(available_themes@) =~= seq![ThemeView::Light, ThemeView::Dark]);
        ThemeSettings { available_themes, current_theme: Theme::Light }
    }
}

/// The theme chooser.
#[derive(Debug)]
pub struct ThemeComponent {
    pub settings: ThemeSettings,
}

impl ThemeComponent {
    /// A chooser with the given settings or, without them, the default ones.
    pub fn new(settings: Option<ThemeSettings>) -> (r: ThemeComponent)
        ensures
            settings is Some ==> {
                &&& themes_view(r.settings.available_themes@) == themes_view(settings->0.available_themes@)
                &&& r.settings.current_theme@ == settings->0.current_theme@
            },
            settings is None ==> {
                &&& themes_view(r.settings.available_themes@) == seq![ThemeView::Light, ThemeView::Dark]
                &&& r.settings.current_theme@ == ThemeView::Light
            },
    {
        let settings = match settings {
            Some(s) => s,
            None => ThemeSettings::default(),
        };
        ThemeComponent { settings }
    }

    /// Makes the theme offered at `index` the current one.
    pub fn select(&mut self, index: usize)
        requires
            index < old(self).settings.available_themes@.len(),
        ensures
            final(self).settings.current_theme@ == old(self).settings.available_themes@[index as int]@,
            themes_view(final(self).settings.available_themes@) == themes_view(old(self).settings.available_themes@),
    {
        self.settings.current_theme = self.settings.available_themes[index].duplicate();
    }

    /// The style change that the current theme makes.
    pub fn style_change(&self) -> (r: StyleChange)
        ensures
            r == spec_style_change(self.settings.current_theme@),
    {
        self.settings.current_theme.style_change()
    }
}

/// Settings of the table component.
#[derive(Clone, Copy, Debug, PartialEq, Eq, Structural)]
pub struct TableSettings {
    pub max_rows_display: usize,
    pub max_cols_display: usize,
    pub show_index: bool,
    pub alternating_row_colors: bool,
}

/// The default table settings.
pub open spec fn spec_default_table_settings() -> TableSettings {
    TableSettings { max_rows_display: 100, max_cols_display: 10, show_index: true, alternating_row_colors: true }
}

impl Default for TableSettings {
    /// A hundred rows, ten columns, an index column, striped rows.
    fn default() -> (r: TableSettings)
        ensures
            r == spec_default_table_settings(),
    {
        TableSettings { max_rows_display: 100, max_cols_display: 10, show_index: true, alternating_row_colors: true }
    }
}

/// The table settings as exposed to scripting callers.
#[derive(Clone, Copy, Debug, PartialEq, Eq, Structural)]
pub struct PyTableSettings {
    pub max_rows_display: usize,
    pub max_cols_display: usize,
    pub show_index: bool,
    pub alternating_row_colors: bool,
}

impl PyTableSettings {
    /// The default table settings.
    pub fn new() -> (r: PyTableSettings)
        ensures
            r.max_rows_display == spec_default_table_settings().max_rows_display,
            r.max_cols_display == spec_default_table_settings().max_cols_display,
            r.show_index == spec_default_table_settings().show_index,
            r.alternating_row_colors == spec_default_table_settings().alternating_row_colors,
    {
        let settings = TableSettings::default();
        PyTableSettings {
            max_rows_display: settings.max_rows_display,
            max_cols_display: settings.max_cols_display,
            show_index: settings.show_index,
            alternating_row_colors: settings.alternating_row_colors,
        }
    }
}

/// A table over the columns of a frame, when there is one.
#[derive(Debug)]
pub struct TableComponent {
    pub settings: TableSettings,
    pub has_data: bool,
    pub column_order: Vec<String>,
}

impl TableComponent {
    /// A table over the frame whose column names are given, or over no frame.
    pub fn new(settings: TableSettings, column_names: Option<Vec<String>>) -> (r: TableComponent)
        ensures
            r.settings == settings,
            r.has_data == (column_names is Some),
            strings_view(r.column_order@) == (match column_names {
                Some(names) => strings_view(names@),
                None => Seq::<Seq<char>>::empty(),
            }),
    {
        match column_names {
            Some(names) => TableComponent { settings, has_data: true, column_order: names },
            None => {
                let r = TableComponent { settings, has_data: false, column_order: Vec::new() };
                assert(strings_view(r.column_order@) =~= Seq::<Seq<char>>::empty());
                r
            },
        }
    }

    /// How many rows of a frame of `height` rows are shown.
    pub fn visible_row_count(&self, height: usize) -> (r: usize)
        ensures
            r == (if height < self.settings.max_rows_display { height } else { self.settings.max_rows_display }),
    {
        if height < self.settings.max_rows_display {
            height
        } else {
            self.settings.max_rows_display
        }
    }

    /// The names of the columns that are shown: the first ones, up to the
    /// largest number of columns.
    pub fn visible_columns(&self) -> (r: Vec<String>)
        ensures
            strings_view(r@) == strings_view(self.column_order@).take(
                if self.column_order@.len() < self.settings.max_cols_display {
                    self.column_order@.len() as int
                } else {
                    self.settings.max_cols_display as int
                },
            ),
    {
        let n = if self.column_order.len() < self.settings.max_cols_display {
            self.column_order.len()
        } else {
            self.settings.max_cols_display
        };
        let mut r: Vec<String> = Vec::new();
        let mut i: usize = 0;
        while i < n
            invariant
                n <= self.column_order@.len(),
                i <= n,
                r@.len() == i,
                forall|j: int| 0 <= j < i ==> r@[j]@ == self.column_order@[j]@,
            decreases n - i,
        {
            r.push(self.column_order[i].clone());
            i = i + 1;
        }
        assert(strings_view(r@) =~= strings_view(self.column_order@).take(n as int));
        r
    }
}

} // verus!
